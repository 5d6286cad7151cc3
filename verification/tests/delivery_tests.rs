use svo_backend::delivery::email_failure_update;
use svo_backend::littlemice::{
    check_push_target, parse_domain_error, truncate_log_bytes, validate_push_payload, DomainKind, DomainProblem,
    LittlemiceLimits, PushLittlemicePayload,
};
use svo_backend::receipts::receipt_retry;

fn payload(screenshot: usize, info: Option<&str>) -> PushLittlemicePayload {
    PushLittlemicePayload {
        screenshot_bytes: vec![1u8; screenshot],
        screenshot_content_type: "image/png".to_string(),
        screenshot2_bytes: None,
        screenshot2_content_type: None,
        log_bytes: None,
        log_content_type: None,
        client_info_text: info.map(|s| s.to_string()),
    }
}

#[test]
fn pushes_need_a_screenshot_within_limits() {
    let limits = LittlemiceLimits { screenshot_max_bytes: 4, info_max_bytes: 3 };
    assert!(validate_push_payload(&payload(2, Some("abc")), limits).is_ok());
    let empty = validate_push_payload(&payload(0, None), limits).unwrap_err();
    assert_eq!(empty.message, "screenshot is required");
    let big = validate_push_payload(&payload(5, None), limits).unwrap_err();
    assert_eq!(big.message, "screenshot exceeds size limit");
    let info = validate_push_payload(&payload(2, Some("äbc")), limits).unwrap_err();
    assert_eq!(info.message, "client info exceeds size limit");
}

#[test]
fn push_targets_must_be_pending_and_unexpired() {
    assert!(check_push_target("pending", 10, 5).is_ok());
    assert_eq!(check_push_target("pending", 5, 5).unwrap_err().message, "Littlemice push token expired");
    assert_eq!(check_push_target("done", 10, 5).unwrap_err().message, "Littlemice check is no longer pending");
}

#[test]
fn domain_errors_render_and_parse_back() {
    let problem = DomainProblem::new(DomainKind::Gone, "expired");
    let (kind, message) = parse_domain_error(problem.render());
    assert_eq!(kind, "gone");
    assert_eq!(message, "expired");
    assert_eq!(parse_domain_error("boom".to_string()), ("internal", "boom".to_string()));
}

#[test]
fn logs_keep_their_last_bytes() {
    assert_eq!(truncate_log_bytes(vec![1, 2, 3, 4], 2), vec![3, 4]);
    assert_eq!(truncate_log_bytes(vec![1, 2], 5), vec![1, 2]);
}

#[test]
fn failed_emails_retry_until_the_deadline() {
    let retry = email_failure_update("error", 0, 1_000, 60, 30);
    assert_eq!(retry.status, "pending");
    assert_eq!(retry.finished_at, None);
    assert_eq!(retry.updated_at, 31_000);
    let late = email_failure_update("error", 0, 60_000, 60, 30);
    assert_eq!(late.status, "error");
    assert_eq!(late.finished_at, Some(60_000));
    let refused = email_failure_update("forbidden", 0, 1_000, 60, 30);
    assert_eq!(refused.status, "forbidden");
}

#[test]
fn receipts_retry_until_the_deadline() {
    let again = receipt_retry(Some(100_000), 1_000, 0, None, 60);
    assert_eq!(again.status, "forming");
    assert_eq!(again.attempt_count, 1);
    assert_eq!(again.first_attempt_at, Some(1_000));
    assert_eq!(again.next_attempt_at, Some(61_000));
    let failed = receipt_retry(Some(1_000), 1_000, 3, Some(10), 60);
    assert_eq!(failed.status, "failed");
    assert_eq!(failed.next_attempt_at, None);
    assert_eq!(failed.first_attempt_at, Some(10));
}
