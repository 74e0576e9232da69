//! The shared data model and the crate's error type.

use funky_lesson_core::error::{js_err_to_string, ErrorKind};
use funky_lesson_core::model::{
    login_succeeded, select_batch_code, BatchInfo, EnrollmentStatus,
};

fn batch(code: &str, name: &str) -> BatchInfo {
    BatchInfo {
        code: code.to_string(),
        name: name.to_string(),
        begin_time: "2024-01-01 08:00".to_string(),
        end_time: "2024-01-02 08:00".to_string(),
    }
}

#[test]
fn select_batch_code_picks_the_indexed_batch() {
    let batches = vec![batch("b1", "first"), batch("b2", "second")];
    assert_eq!(select_batch_code(&batches, 0).unwrap(), "b1");
    assert_eq!(select_batch_code(&batches, 1).unwrap(), "b2");
}

#[test]
fn select_batch_code_rejects_an_index_out_of_range() {
    let batches = vec![batch("b1", "first")];
    let err = select_batch_code(&batches, 1).unwrap_err();
    assert!(matches!(err, ErrorKind::ParseError(_)));
    let err = select_batch_code(&Vec::new(), 0).unwrap_err();
    assert!(matches!(err, ErrorKind::ParseError(_)));
}

#[test]
fn login_succeeded_needs_code_200_and_the_exact_message() {
    assert!(login_succeeded(200, "登录成功"));
    assert!(!login_succeeded(200, "登录失败"));
    assert!(!login_succeeded(200, ""));
    assert!(!login_succeeded(500, "登录成功"));
    assert!(!login_succeeded(401, "登录成功"));
}

#[test]
fn default_enrollment_status_is_idle() {
    let status = EnrollmentStatus::default();
    assert_eq!(status.total_requests, 0);
    assert!(status.course_statuses.is_empty());
    assert!(!status.is_running);
}

#[test]
fn error_message_carries_the_description() {
    let err = ErrorKind::ParseError("bad input".to_string());
    assert_eq!(err.message(), "bad input");
    let err = ErrorKind::CourseError("服务器拒绝".to_string());
    assert_eq!(err.message(), "服务器拒绝");
}

#[test]
fn js_err_to_string_wraps_the_debug_text() {
    let err = js_err_to_string("boom");
    match err {
        ErrorKind::ParseError(text) => assert!(text.contains("boom")),
        ErrorKind::CourseError(_) => panic!("expected a parse error"),
    }
}
