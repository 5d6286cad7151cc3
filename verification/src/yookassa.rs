//! The YooKassa payment provider: checking that a succeeded payment matches
//! its order, describing cancellations, deciding what a payment state means
//! for the order, reading webhook notifications and building return URLs.
use vstd::prelude::*;
use crate::ids::{push_uuid, uuid_hyphenated, uuid_string};
use crate::json::{
    as_text, get_member, get_spec, json_document, json_view, parse_json, text_of, JsonModel,
    JsonValue,
};
use crate::shop_order::{ProblemKind, ShopProblem};
use crate::text::{
    int_text, is_blank, is_blank_str, push_i64, push_str, str_equal, string_of, trim_spec,
};

verus! {

pub const PROVIDER_NAME: &'static str = "yookassa";

/// An amount as YooKassa writes it: a decimal text and a currency code.
#[derive(Clone, Debug)]
pub struct YooKassaAmount {
    pub value: String,
    pub currency: String,
}

#[derive(Clone, Debug)]
pub struct YooKassaConfirmation {
    pub kind: String,
    pub confirmation_url: Option<String>,
}

#[derive(Clone, Debug)]
pub struct YooKassaCancellationDetails {
    pub party: Option<String>,
    pub reason: Option<String>,
}

/// A payment as the YooKassa API reports it. `metadata` lists the metadata
/// entries in key order, each key once.
#[derive(Clone, Debug)]
pub struct YooKassaPayment {
    pub id: String,
    pub status: String,
    pub paid: bool,
    pub test: bool,
    pub amount: Option<YooKassaAmount>,
    pub income_amount: Option<YooKassaAmount>,
    pub description: Option<String>,
    pub confirmation: Option<YooKassaConfirmation>,
    pub metadata: Vec<(String, String)>,
    pub cancellation_details: Option<YooKassaCancellationDetails>,
    pub created_at: Option<String>,
    pub captured_at: Option<String>,
}

/// The metadata value stored under `key`.
pub open spec fn metadata_value(metadata: Seq<(String, String)>, key: Seq<char>) -> Option<Seq<char>>
    decreases metadata.len(),
{
    if metadata.len() == 0 {
        None
    } else if metadata[0].0@ == key {
        Some(metadata[0].1@)
    } else {
        metadata_value(metadata.drop_first(), key)
    }
}

fn find_metadata(metadata: &Vec<(String, String)>, key: &str) -> (r: Option<String>)
    ensures
        match r {
            Some(v) => metadata_value(metadata@, key@) == Some(v@),
            None => metadata_value(metadata@, key@) is None,
        },
{
    let n: usize = metadata.len();
    let mut i: usize = 0;
    assert(metadata@.subrange(0, n as int) =~= metadata@);
    while i < n
        invariant
            0 <= i <= n,
            n == metadata@.len(),
            metadata_value(metadata@, key@) == metadata_value(
                metadata@.subrange(i as int, n as int),
                key@,
            ),
        decreases n - i,
    {
        let ghost rest = metadata@.subrange(i as int, n as int);
        assert(rest[0] == metadata@[i as int]);
        assert(rest.drop_first() =~= metadata@.subrange(i + 1, n as int));
        if str_equal(metadata[i].0.as_str(), key) {
            return Some(metadata[i].1.clone());
        }
        i = i + 1;
    }
    None
}

/// The amount text for whole rubles: `"{amount}.00"`.
pub open spec fn rub_value_text(amount_rub: i64) -> Seq<char> {
    int_text(amount_rub as int) + ".00"@
}

pub fn rub_value(amount_rub: i64) -> (r: String)
    ensures
        r@ == rub_value_text(amount_rub),
{
    let mut out: Vec<char> = Vec::new();
    push_i64(&mut out, amount_rub);
    push_str(&mut out, ".00");
    string_of(out.as_slice())
}

/// Why a succeeded payment does not match its order, if it does not.
pub open spec fn payment_mismatch(total_price_rub: i64, order_id: u128, payment: YooKassaPayment) -> Option<
    Seq<char>,
> {
    if !payment.paid {
        Some("YooKassa reported a succeeded payment, but the payment is not marked as paid"@)
    } else {
        match payment.amount {
            None => Some("YooKassa payment payload is missing amount"@),
            Some(a) => if a.value@ != rub_value_text(total_price_rub) {
                Some(
                    "YooKassa payment amount mismatch: expected "@ + rub_value_text(total_price_rub)
                        + " RUB, got "@ + a.value@ + " "@ + a.currency@,
                )
            } else if a.currency@ != "RUB"@ {
                Some("YooKassa payment currency mismatch: expected RUB, got "@ + a.currency@)
            } else if metadata_value(payment.metadata@, "orderId"@) != Some(uuid_hyphenated(order_id)) {
                Some(
                    "YooKassa payment metadata mismatch: expected metadata.orderId='"@
                        + uuid_hyphenated(order_id) + "'"@,
                )
            } else {
                None
            },
        }
    }
}

/// A succeeded payment must be paid, carry the order's total in rubles and
/// name the order in its metadata; every mismatch is a bad request.
pub fn validate_yookassa_payment_matches_order(
    total_price_rub: i64,
    order_id: u128,
    payment: &YooKassaPayment,
) -> (r: Result<(), ShopProblem>)
    ensures
        match payment_mismatch(total_price_rub, order_id, *payment) {
            None => r is Ok,
            Some(m) => r matches Err(p) && p.kind == ProblemKind::BadRequest && p.message@ == m,
        },
{
    let bad = ProblemKind::BadRequest;
    if !payment.paid {
        return Err(
            ShopProblem::new(
                bad,
                "YooKassa reported a succeeded payment, but the payment is not marked as paid",
            ),
        );
    }
    let amount = match &payment.amount {
        Some(a) => a,
        None => {
            return Err(ShopProblem::new(bad, "YooKassa payment payload is missing amount"));
        },
    };
    let expected = rub_value(total_price_rub);
    if !str_equal(amount.value.as_str(), expected.as_str()) {
        let mut out: Vec<char> = Vec::new();
        push_str(&mut out, "YooKassa payment amount mismatch: expected ");
        push_str(&mut out, expected.as_str());
        push_str(&mut out, " RUB, got ");
        push_str(&mut out, amount.value.as_str());
        push_str(&mut out, " ");
        push_str(&mut out, amount.currency.as_str());
        return Err(ShopProblem { kind: bad, message: string_of(out.as_slice()) });
    }
    if !str_equal(amount.currency.as_str(), "RUB") {
        let mut out: Vec<char> = Vec::new();
        push_str(&mut out, "YooKassa payment currency mismatch: expected RUB, got ");
        push_str(&mut out, amount.currency.as_str());
        return Err(ShopProblem { kind: bad, message: string_of(out.as_slice()) });
    }
    let id_text = uuid_string(order_id);
    let matches = match find_metadata(&payment.metadata, "orderId") {
        Some(v) => str_equal(v.as_str(), id_text.as_str()),
        None => false,
    };
    if !matches {
        let mut out: Vec<char> = Vec::new();
        push_str(&mut out, "YooKassa payment metadata mismatch: expected metadata.orderId='");
        push_uuid(&mut out, order_id);
        push_str(&mut out, "'");
        return Err(ShopProblem { kind: bad, message: string_of(out.as_slice()) });
    }
    Ok(())
}

/// The text recorded for a canceled payment, with the reason and the party
/// when YooKassa gives them, joined by `"; "`.
pub open spec fn cancellation_text(details: Option<YooKassaCancellationDetails>) -> Seq<char> {
    let head = "YooKassa payment was canceled"@;
    match details {
        None => head,
        Some(d) => {
            let with_reason = match d.reason {
                Some(r) => head + "; reason: "@ + r@,
                None => head,
            };
            match d.party {
                Some(p) => with_reason + "; party: "@ + p@,
                None => with_reason,
            }
        },
    }
}

pub fn cancellation_problem(payment: &YooKassaPayment) -> (r: String)
    ensures
        r@ == cancellation_text(payment.cancellation_details),
{
    let mut out: Vec<char> = Vec::new();
    push_str(&mut out, "YooKassa payment was canceled");
    if let Some(details) = &payment.cancellation_details {
        if let Some(reason) = &details.reason {
            push_str(&mut out, "; reason: ");
            push_str(&mut out, reason.as_str());
        }
        if let Some(party) = &details.party {
            push_str(&mut out, "; party: ");
            push_str(&mut out, party.as_str());
        }
    }
    string_of(out.as_slice())
}

/// What a payment state reported by YooKassa means for its order.
#[derive(Clone, Debug)]
pub enum PaymentSync {
    /// A matching succeeded payment: mark paid and fulfill.
    ProcessSuccess,
    /// A succeeded payment that does not match: record the problem text.
    FailValidation(String),
    /// A canceled payment: record the cancellation text.
    Cancel(String),
    /// Still pending: expire the order if its session ran out.
    CheckPending,
    /// Any other status changes nothing.
    Ignore,
}

pub fn payment_sync_action(total_price_rub: i64, order_id: u128, payment: &YooKassaPayment) -> (r:
    PaymentSync)
    ensures
        payment.status@ == "succeeded"@ ==> match payment_mismatch(total_price_rub, order_id, *payment) {
            None => r is ProcessSuccess,
            Some(m) => r matches PaymentSync::FailValidation(t) && t@ == m,
        },
        payment.status@ == "canceled"@ ==> (r matches PaymentSync::Cancel(t) && t@ == cancellation_text(
            payment.cancellation_details,
        )),
        (payment.status@ == "pending"@ || payment.status@ == "waiting_for_capture"@) ==> r is CheckPending,
        !(payment.status@ == "succeeded"@ || payment.status@ == "canceled"@ || payment.status@
            == "pending"@ || payment.status@ == "waiting_for_capture"@) ==> r is Ignore,
{
    proof {
        reveal_strlit("succeeded");
        reveal_strlit("canceled");
        reveal_strlit("pending");
        reveal_strlit("waiting_for_capture");
        assert("canceled"@[0] != "succeeded"@[0]);
        assert("pending"@[0] != "succeeded"@[0]);
        assert("pending"@[0] != "canceled"@[0]);
        assert("waiting_for_capture"@[0] != "succeeded"@[0]);
        assert("waiting_for_capture"@[0] != "canceled"@[0]);
    }
    if str_equal(payment.status.as_str(), "succeeded") {
        match validate_yookassa_payment_matches_order(total_price_rub, order_id, payment) {
            Ok(()) => PaymentSync::ProcessSuccess,
            Err(p) => PaymentSync::FailValidation(p.message),
        }
    } else if str_equal(payment.status.as_str(), "canceled") {
        assert(payment.status@ != "succeeded"@);
        PaymentSync::Cancel(cancellation_problem(payment))
    } else if str_equal(payment.status.as_str(), "pending") || str_equal(
        payment.status.as_str(),
        "waiting_for_capture",
    ) {
        PaymentSync::CheckPending
    } else {
        PaymentSync::Ignore
    }
}

// ---------------------------------------------------------------------------
// Webhooks.
// ---------------------------------------------------------------------------

#[derive(Clone, Debug)]
pub struct YooKassaWebhookObject {
    pub id: String,
    pub status: Option<String>,
}

#[derive(Clone, Debug)]
pub struct YooKassaWebhookNotification {
    pub event: String,
    pub object: YooKassaWebhookObject,
}

/// What a webhook body is read as: a JSON object of type `notification`
/// with a string `event` and an object `object` carrying a non-blank string
/// `id` and optionally a string `status`.
pub open spec fn webhook_outcome(body: Seq<char>) -> Result<
    (Seq<char>, Seq<char>, Option<Seq<char>>),
    Seq<char>,
> {
    match json_document(body) {
        None => Err("YooKassa webhook payload must be valid JSON"@),
        Some(doc) => match text_of(get_spec(doc, "type"@)) {
            None => Err("YooKassa webhook payload must include string field 'type'"@),
            Some(kind) => if kind != "notification"@ {
                Err("YooKassa webhook payload must have type='notification'"@)
            } else {
                match text_of(get_spec(doc, "event"@)) {
                    None => Err("YooKassa webhook payload must include string field 'event'"@),
                    Some(event) => match get_spec(doc, "object"@) {
                        Some(JsonModel::Object(members)) => {
                            let object = JsonModel::Object(members);
                            match text_of(get_spec(object, "id"@)) {
                                None => Err(
                                    "YooKassa webhook payload must include string field 'object.id'"@,
                                ),
                                Some(id) => if trim_spec(id).len() == 0 {
                                    Err("YooKassa webhook payload field 'object.id' must not be empty"@)
                                } else {
                                    Ok((event, id, text_of(get_spec(object, "status"@))))
                                },
                            }
                        },
                        _ => Err("YooKassa webhook payload must include object field 'object'"@),
                    },
                }
            }
        },
    }
}

pub fn parse_webhook_notification(body: &str) -> (r: Result<YooKassaWebhookNotification, String>)
    ensures
        match webhook_outcome(body@) {
            Ok((event, id, status)) => r matches Ok(n) && n.event@ == event && n.object.id@ == id
                && match status {
                Some(s) => n.object.status matches Some(t) && t@ == s,
                None => n.object.status is None,
            },
            Err(m) => r matches Err(e) && e@ == m,
        },
{
    let payload = match parse_json(body) {
        Some(v) => v,
        None => {
            return Err("YooKassa webhook payload must be valid JSON".to_string());
        },
    };
    let kind = match as_text(get_member(&payload, "type")) {
        Some(k) => k,
        None => {
            return Err("YooKassa webhook payload must include string field 'type'".to_string());
        },
    };
    if !str_equal(kind, "notification") {
        return Err("YooKassa webhook payload must have type='notification'".to_string());
    }
    let event = match as_text(get_member(&payload, "event")) {
        Some(e) => e,
        None => {
            return Err("YooKassa webhook payload must include string field 'event'".to_string());
        },
    };
    let object = match get_member(&payload, "object") {
        Some(o) => o,
        None => {
            return Err("YooKassa webhook payload must include object field 'object'".to_string());
        },
    };
    match object {
        JsonValue::Object(_) => {},
        _ => {
            return Err("YooKassa webhook payload must include object field 'object'".to_string());
        },
    }
    let payment_id = match as_text(get_member(object, "id")) {
        Some(i) => i,
        None => {
            return Err("YooKassa webhook payload must include string field 'object.id'".to_string());
        },
    };
    if is_blank_str(payment_id) {
        proof {
            crate::text::lemma_trim_empty_iff_blank(payment_id@);
        }
        return Err("YooKassa webhook payload field 'object.id' must not be empty".to_string());
    }
    proof {
        crate::text::lemma_trim_empty_iff_blank(payment_id@);
    }
    let status = match as_text(get_member(object, "status")) {
        Some(s) => Some(s.to_string()),
        None => None,
    };
    Ok(
        YooKassaWebhookNotification {
            event: event.to_string(),
            object: YooKassaWebhookObject { id: payment_id.to_string(), status },
        },
    )
}

// ---------------------------------------------------------------------------
// Return URLs.
// ---------------------------------------------------------------------------

/// What parsing `base` as an absolute URL with the `url` crate, appending the
/// query pair `key=value` (form-encoded) and serializing gives; `None` when
/// `base` does not parse.
pub uninterp spec fn url_with_query_pair(base: Seq<char>, key: Seq<char>, value: Seq<char>) -> Option<
    Seq<char>,
>;

/// Calls `url::Url::parse`, `Url::query_pairs_mut().append_pair` and
/// `Url::into::<String>`; the result is named by `url_with_query_pair`.
#[verifier::external_body]
fn append_query_pair(base: &str, key: &str, value: &str) -> (r: Option<String>)
    ensures
        match r {
            Some(s) => url_with_query_pair(base@, key@, value@) == Some(s@),
            None => url_with_query_pair(base@, key@, value@) is None,
        },
{
    let mut url = url::Url::parse(base).ok()?;
    url.query_pairs_mut().append_pair(key, value);
    Some(url.into())
}

/// The return URL of a payment: the configured URL with the order id added
/// as the `orderId` query parameter.
pub fn build_return_url_with_order_id(base_return_url: &str, order_id: u128) -> (r: Result<
    String,
    String,
>)
    ensures
        match url_with_query_pair(base_return_url@, "orderId"@, uuid_hyphenated(order_id)) {
            Some(u) => r matches Ok(s) && s@ == u,
            None => r matches Err(e) && e@ == "YOOKASSA_RETURN_URL must be a valid absolute URL"@,
        },
{
    let id = uuid_string(order_id);
    match append_query_pair(base_return_url, "orderId", id.as_str()) {
        Some(u) => Ok(u),
        None => Err("YOOKASSA_RETURN_URL must be a valid absolute URL".to_string()),
    }
}

} // verus!
