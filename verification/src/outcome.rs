//! Classification of claim responses.
//!
//! A claim attempt against the remote service yields either a raw response
//! (an application code and message) or a transport failure.  [`classify`]
//! maps a raw response to an [`Outcome`]; the message strings are bit-exact
//! contracts with the remote service and must not be altered.  How an
//! [`Outcome`] affects the registry and whether the worker retries are
//! decided separately ([`retry_decision`]), so that the capacity-full policy
//! stays explicit rather than being folded into the classification.

use vstd::prelude::*;

verus! {

/// Delay, in milliseconds, between retries after a transport failure.
/// In-band application failures retry immediately: the contest for capacity
/// is time-sensitive, and only transport trouble warrants backing off.
pub const TRANSPORT_BACKOFF_MS: u64 = 500;

/// The classified result of one claim attempt.
#[derive(Clone, Copy, PartialEq, Eq, Structural, Debug)]
pub enum Outcome {
    /// Code 200: the claim went through.
    Success,
    /// Code 500, "该课程已在选课结果中": the target is already held.
    AlreadyDone,
    /// Code 500, "本轮次选课暂未开始": the contest has not opened yet.
    NotStarted,
    /// Code 500, "课容量已满": no capacity left right now.
    CapacityFull,
    /// Code 500, "参数校验不通过": the service rejected the request parameters.
    ValidationError,
    /// Code 401: the session credential is no longer accepted.
    Unauthorized,
    /// Any other code.
    Unknown,
    /// The claim call itself failed (connection error, timeout, bad body).
    TransportError,
}

/// What a worker does with a target after seeing an outcome.
#[derive(Clone, Copy, PartialEq, Eq, Structural, Debug)]
pub enum RetryDecision {
    /// The target is settled (or abandoned); move on to the next one.
    Stop,
    /// Retry the same target immediately.
    RetryNow,
    /// Retry the same target after [`TRANSPORT_BACKOFF_MS`] milliseconds.
    RetryAfterBackoff,
}

/// The outcome a raw `(code, msg)` response classifies to.
pub open spec fn spec_classify(code: int, msg: Seq<char>) -> Outcome {
    if code == 200 {
        Outcome::Success
    } else if code == 500 && msg == "该课程已在选课结果中"@ {
        Outcome::AlreadyDone
    } else if code == 500 && msg == "本轮次选课暂未开始"@ {
        Outcome::NotStarted
    } else if code == 500 && msg == "课容量已满"@ {
        Outcome::CapacityFull
    } else if code == 500 && msg == "参数校验不通过"@ {
        Outcome::ValidationError
    } else if code == 401 {
        Outcome::Unauthorized
    } else {
        Outcome::Unknown
    }
}

/// Classify a raw application response.  Transport failures do not reach this
/// function; they are classified as [`Outcome::TransportError`] by the caller
/// that observed them.
pub fn classify(code: i64, msg: &str) -> (outcome: Outcome)
    ensures
        outcome == spec_classify(code as int, msg@),
{
    if code == 200 {
        Outcome::Success
    } else if code == 500 {
        let m = String::from_str(msg);
        if m == String::from_str("该课程已在选课结果中") {
            Outcome::AlreadyDone
        } else if m == String::from_str("本轮次选课暂未开始") {
            Outcome::NotStarted
        } else if m == String::from_str("课容量已满") {
            Outcome::CapacityFull
        } else if m == String::from_str("参数校验不通过") {
            Outcome::ValidationError
        } else {
            Outcome::Unknown
        }
    } else if code == 401 {
        Outcome::Unauthorized
    } else {
        Outcome::Unknown
    }
}

/// Whether the worker retries the target after this outcome, and how.
///
/// Every in-band failure that may clear up retries immediately; only a
/// transport failure waits.  A capacity-full response retries only while the
/// policy says to keep trying a full target.
pub open spec fn spec_retry_decision(outcome: Outcome, keep_trying_when_full: bool) -> RetryDecision {
    match outcome {
        Outcome::Success => RetryDecision::Stop,
        Outcome::AlreadyDone => RetryDecision::Stop,
        Outcome::NotStarted => RetryDecision::RetryNow,
        Outcome::CapacityFull => if keep_trying_when_full {
            RetryDecision::RetryNow
        } else {
            RetryDecision::Stop
        },
        Outcome::ValidationError => RetryDecision::RetryNow,
        Outcome::Unauthorized => RetryDecision::Stop,
        Outcome::Unknown => RetryDecision::RetryNow,
        Outcome::TransportError => RetryDecision::RetryAfterBackoff,
    }
}

/// Executable form of [`spec_retry_decision`].
pub fn retry_decision(outcome: &Outcome, keep_trying_when_full: bool) -> (d: RetryDecision)
    ensures
        d == spec_retry_decision(*outcome, keep_trying_when_full),
{
    match outcome {
        Outcome::Success => RetryDecision::Stop,
        Outcome::AlreadyDone => RetryDecision::Stop,
        Outcome::NotStarted => RetryDecision::RetryNow,
        Outcome::CapacityFull => if keep_trying_when_full {
            RetryDecision::RetryNow
        } else {
            RetryDecision::Stop
        },
        Outcome::ValidationError => RetryDecision::RetryNow,
        Outcome::Unauthorized => RetryDecision::Stop,
        Outcome::Unknown => RetryDecision::RetryNow,
        Outcome::TransportError => RetryDecision::RetryAfterBackoff,
    }
}

/// The human-readable status label a front end shows for an outcome.
pub open spec fn spec_status_label(outcome: Outcome, keep_trying_when_full: bool) -> Seq<char> {
    match outcome {
        Outcome::Success => "选课成功"@,
        Outcome::AlreadyDone => "已选"@,
        Outcome::NotStarted => "未开始"@,
        Outcome::CapacityFull => if keep_trying_when_full {
            "等待中"@
        } else {
            "已满"@
        },
        Outcome::ValidationError => "参数错误"@,
        Outcome::Unauthorized => "未登录"@,
        Outcome::Unknown => "失败"@,
        Outcome::TransportError => "请求错误"@,
    }
}

/// Executable form of [`spec_status_label`].
pub fn status_label(outcome: &Outcome, keep_trying_when_full: bool) -> (label: String)
    ensures
        label@ == spec_status_label(*outcome, keep_trying_when_full),
{
    match outcome {
        Outcome::Success => String::from_str("选课成功"),
        Outcome::AlreadyDone => String::from_str("已选"),
        Outcome::NotStarted => String::from_str("未开始"),
        Outcome::CapacityFull => if keep_trying_when_full {
            String::from_str("等待中")
        } else {
            String::from_str("已满")
        },
        Outcome::ValidationError => String::from_str("参数错误"),
        Outcome::Unauthorized => String::from_str("未登录"),
        Outcome::Unknown => String::from_str("失败"),
        Outcome::TransportError => String::from_str("请求错误"),
    }
}

} // verus!
