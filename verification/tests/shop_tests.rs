use svo_backend::ledger::{
    expirable_is_active, prolonged_expiry, stackable_add, stackable_remove, wallet_adjust, wallet_credit,
    wallet_debit, LedgerError,
};
use svo_backend::service_tokens::{
    check_stored_token, generate_plaintext_token, hash_service_secret, hex_string, parse_plaintext_token,
    validate_system_name, TokenError,
};
use svo_backend::shop_order::{
    apply_order_event, should_expire_pending_order, strip_problem_prefix, OrderEvent, OrderStatus, ProblemKind,
    ShopProblem,
};
use sha2::Digest;
use svo_backend::yookassa::{build_return_url_with_order_id, parse_webhook_notification, rub_value};

const ORDER: u128 = 0x6d5e4f2d_b82f_4d57_a69c_7ca6a234f3bd;

#[test]
fn appends_order_id_to_return_url() {
    let order_id = uuid::Uuid::parse_str("6d5e4f2d-b82f-4d57-a69c-7ca6a234f3bd").expect("uuid").as_u128();
    let url = build_return_url_with_order_id("http://localhost:5173/shop/checkout/return", order_id)
        .expect("return url");
    assert_eq!(url, "http://localhost:5173/shop/checkout/return?orderId=6d5e4f2d-b82f-4d57-a69c-7ca6a234f3bd");
}

#[test]
fn preserves_existing_query_params_when_appending_order_id() {
    let order_id = uuid::Uuid::parse_str("6d5e4f2d-b82f-4d57-a69c-7ca6a234f3bd").expect("uuid").as_u128();
    let url = build_return_url_with_order_id(
        "http://localhost:5173/shop/checkout/return?source=yookassa",
        order_id,
    )
    .expect("return url");
    assert_eq!(
        url,
        "http://localhost:5173/shop/checkout/return?source=yookassa&orderId=6d5e4f2d-b82f-4d57-a69c-7ca6a234f3bd"
    );
}

#[test]
fn return_url_must_be_absolute() {
    let err = build_return_url_with_order_id("not a url", ORDER).unwrap_err();
    assert_eq!(err, "YOOKASSA_RETURN_URL must be a valid absolute URL");
}

#[test]
fn rub_values_have_two_decimals() {
    assert_eq!(rub_value(199), "199.00");
    assert_eq!(rub_value(0), "0.00");
}

#[test]
fn webhook_notifications_need_event_and_object_id() {
    let ok = parse_webhook_notification(
        r#"{"type":"notification","event":"payment.succeeded","object":{"id":"pay-1","status":"succeeded"}}"#,
    )
    .expect("notification");
    assert_eq!(ok.event, "payment.succeeded");
    assert_eq!(ok.object.id, "pay-1");
    assert_eq!(ok.object.status.as_deref(), Some("succeeded"));
    assert_eq!(
        parse_webhook_notification(r#"{"type":"notification","object":{"id":"x"}}"#).unwrap_err(),
        "YooKassa webhook payload must include string field 'event'"
    );
    assert_eq!(
        parse_webhook_notification(r#"{"type":"other"}"#).unwrap_err(),
        "YooKassa webhook payload must have type='notification'"
    );
    assert_eq!(
        parse_webhook_notification(r#"{"type":"notification","event":"e","object":{"id":"  "}}"#).unwrap_err(),
        "YooKassa webhook payload field 'object.id' must not be empty"
    );
}

#[test]
fn order_status_names_round_trip() {
    for name in [
        "pending_payment",
        "paid",
        "fulfillment_in_progress",
        "fulfilled",
        "fulfillment_failed",
        "payment_canceled",
        "payment_expired",
        "payment_validation_failed",
    ] {
        assert_eq!(OrderStatus::parse(name).expect("known").as_str(), name);
    }
    assert_eq!(OrderStatus::parse("other"), None);
}

#[test]
fn order_events_apply_once_and_terminal_states_stay() {
    let (paid, changed) = apply_order_event(OrderStatus::PendingPayment, OrderEvent::MarkPaid);
    assert_eq!(paid, OrderStatus::Paid);
    assert!(changed);
    let (again, changed_again) = apply_order_event(paid, OrderEvent::MarkPaid);
    assert_eq!(again, OrderStatus::Paid);
    assert!(!changed_again);
    let (cancel, changed_cancel) = apply_order_event(OrderStatus::PaymentCanceled, OrderEvent::MarkPaid);
    assert_eq!(cancel, OrderStatus::PaymentCanceled);
    assert!(!changed_cancel);
}

#[test]
fn pending_orders_expire_after_their_session() {
    assert!(should_expire_pending_order("pending_payment", Some(100), 0, 60, 100));
    assert!(!should_expire_pending_order("pending_payment", Some(100), 0, 60, 99));
    assert!(should_expire_pending_order("pending_payment", None, 0, 60, 60_000));
    assert!(!should_expire_pending_order("pending_payment", None, 0, 60, 59_999));
    assert!(!should_expire_pending_order("paid", Some(1), 0, 60, 100));
}

#[test]
fn problem_prefix_is_stripped_back() {
    let problem = ShopProblem::new(ProblemKind::Conflict, "Order is not payable");
    let rendered = problem.render();
    assert_eq!(strip_problem_prefix(rendered), "Order is not payable");
    assert_eq!(strip_problem_prefix("plain".to_string()), "plain");
}

#[test]
fn wallet_credit_and_debit() {
    let credited = wallet_credit(10, 5).unwrap();
    assert_eq!(credited.new_value, 15);
    assert_eq!(credited.delta, 5);
    let debited = wallet_debit(credited.new_value, 5).unwrap();
    assert_eq!(debited.new_value, 10);
    assert_eq!(wallet_debit(3, 5).unwrap_err(), LedgerError::InsufficientWalletBalance);
    assert_eq!(wallet_credit(3, 0).unwrap_err(), LedgerError::AmountMustBePositive);
    assert_eq!(wallet_adjust(3, -1).unwrap_err(), LedgerError::BalanceMustBeNonNegative);
    assert_eq!(wallet_adjust(3, 8).unwrap().delta, 5);
}

#[test]
fn stackables_and_expirables() {
    assert_eq!(stackable_remove(stackable_add(2, 3).unwrap().new_value, 3).unwrap().new_value, 2);
    assert_eq!(stackable_remove(2, 3).unwrap_err(), LedgerError::InsufficientStackableAmount);
    assert_eq!(prolonged_expiry(None, 1_000, 10).unwrap(), 11_000);
    assert_eq!(prolonged_expiry(Some(50_000), 1_000, 10).unwrap(), 60_000);
    assert_eq!(prolonged_expiry(Some(500), 1_000, 10).unwrap(), 11_000);
    assert_eq!(prolonged_expiry(None, 1_000, 0).unwrap_err(), LedgerError::DurationMustBePositive);
    assert!(expirable_is_active(11, 10));
    assert!(!expirable_is_active(10, 10));
}

#[test]
fn issued_tokens_parse_back() {
    let issued = generate_plaintext_token();
    let (prefix, secret) = parse_plaintext_token(&issued.plaintext_token).expect("token");
    assert_eq!(prefix, issued.token_prefix);
    assert_eq!(secret, issued.secret);
    assert!(issued.plaintext_token.starts_with("svcs_"));
    assert_eq!(parse_plaintext_token("svcs_only").unwrap_err(), TokenError::InvalidToken);
    assert_eq!(parse_plaintext_token("bad_a_b").unwrap_err(), TokenError::InvalidToken);
}

#[test]
fn secrets_hash_with_sha256() {
    use_sha2_reference();
    let h = hash_service_secret("secret", "jwt");
    assert_eq!(h.len(), 64);
    assert_ne!(h, hash_service_secret("secret", "other"));
    let t = check_stored_token(7, "game-server".to_string(), true, None, 5, &h, &h).unwrap();
    assert_eq!(t.id, 7);
    assert_eq!(t.system_name, "game-server");
    assert_eq!(check_stored_token(7, "a".to_string(), true, Some(6), 5, &h, &h).unwrap().id, 7);
    assert_eq!(
        check_stored_token(7, "a".to_string(), false, None, 5, &h, &h).unwrap_err(),
        TokenError::Inactive
    );
    assert_eq!(
        check_stored_token(7, "a".to_string(), true, Some(5), 5, &h, &h).unwrap_err(),
        TokenError::Expired
    );
    assert_eq!(
        check_stored_token(7, "a".to_string(), true, None, 5, &h, "x").unwrap_err(),
        TokenError::SecretMismatch
    );
}

#[test]
fn system_names_are_trimmed_and_required() {
    assert_eq!(validate_system_name("svc-main").unwrap(), "svc-main");
    assert!(validate_system_name("   ").is_err());
    assert!(validate_system_name("Svc").is_err());
}

fn use_sha2_reference() {
    let expected = sha2::Sha256::digest(b"jwt:service_token:secret");
    assert_eq!(hash_service_secret("secret", "jwt"), hex_string(&expected));
    assert_eq!(hex_string(&[0x0a, 0xff]), "0aff");
}
