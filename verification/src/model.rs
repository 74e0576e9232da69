//! The shared data model: what the platform adapters hand the engine and
//! each other.  Field names that mirror the remote service's JSON keys are
//! kept as the service spells them.

#![allow(non_snake_case)]

use vstd::prelude::*;

verus! {

/// One elective batch a session may select.
#[derive(Clone, Debug)]
pub struct BatchInfo {
    /// The batch id the service expects back.
    pub code: String,
    /// Display name.
    pub name: String,
    /// When the batch opens.
    pub begin_time: String,
    /// When the batch closes.
    pub end_time: String,
}

/// One course as the listing endpoints describe it.
#[derive(Clone, Debug)]
pub struct CourseInfo {
    /// Teacher name.
    pub SKJS: String,
    /// Course name.
    pub KCM: String,
    /// Teaching-class id; the stable identifier a claim addresses.
    pub JXBID: String,
    /// The kind tag the claim endpoint needs, when the listing carries one.
    pub teaching_class_type: Option<String>,
    /// The eligibility token the claim endpoint needs, when present.
    pub secret_val: Option<String>,
}

/// A progress report a front end shows while enrollment runs.
#[derive(Clone, Debug)]
pub struct EnrollmentStatus {
    /// How many claim calls have been issued so far.
    pub total_requests: u32,
    /// One status line per contested course.
    pub course_statuses: Vec<String>,
    /// Whether the enrollment loop is still going.
    pub is_running: bool,
}

impl Default for EnrollmentStatus {
    /// A report from before anything ran: no requests, no lines, not running.
    fn default() -> (status: Self)
        ensures
            status.total_requests == 0,
            status.course_statuses@.len() == 0,
            !status.is_running,
    {
        EnrollmentStatus { total_requests: 0, course_statuses: Vec::new(), is_running: false }
    }
}

/// What a login request needs.
#[derive(Clone, Debug)]
pub struct LoginParams {
    pub username: String,
    pub encrypted_password: String,
    pub captcha: String,
    pub uuid: String,
}

/// What a claim call needs.
#[derive(Clone, Debug)]
pub struct CourseSelectParams {
    pub token: String,
    pub batch_id: String,
    pub class_type: String,
    pub class_id: String,
    pub secret_val: String,
}

/// What the course-listing calls need.
#[derive(Clone, Debug)]
pub struct CourseQueryParams {
    pub token: String,
    pub batch_id: String,
}

/// Whether a login response means the session is established: the service
/// answers code 200 with exactly "登录成功".  Anything else is a failed login.
pub fn login_succeeded(code: i64, msg: &str) -> (ok: bool)
    ensures
        ok == (code == 200 && msg@ == "登录成功"@),
{
    code == 200 && String::from_str(msg) == String::from_str("登录成功")
}

/// The batch id at `batch_idx` in a login's batch list, or an error naming
/// the bad index.  The pure half of batch selection; the call that tells the
/// service about the choice stays with the platform adapter.
pub fn select_batch_code(batch_list: &Vec<BatchInfo>, batch_idx: usize) -> (code: Result<
    String,
    crate::error::ErrorKind,
>)
    ensures
        batch_idx < batch_list@.len() ==> (code matches Ok(c) && c@ == batch_list@[
            batch_idx as int
        ].code@),
        batch_idx >= batch_list@.len() ==> (code matches Err(e) && e is ParseError),
{
    if batch_idx >= batch_list.len() {
        Err(crate::error::ErrorKind::ParseError(String::from_str("Invalid batch index")))
    } else {
        Ok(batch_list[batch_idx].code.clone())
    }
}

} // verus!
