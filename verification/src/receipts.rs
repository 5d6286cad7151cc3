//! Fiscal receipts for shop orders: which orders need one, how a receipt
//! is claimed by a worker, retried and given up, how its status is shown,
//! and the pieces of the tax service's protocol.
use vstd::prelude::*;
use vstd::utf8::encode_utf8;
use crate::json::{get_member, get_spec, json_view, text_of, JsonModel, JsonValue};
use crate::text::{decimal_in_range, is_blank, parse_decimal, is_blank_str, push_str, str_equal, string_of};

verus! {

pub const RECEIPT_STATUS_NOT_REQUIRED: &'static str = "not_required";

pub const RECEIPT_STATUS_TEST_PAYMENT: &'static str = "test_payment";

pub const RECEIPT_STATUS_PENDING: &'static str = "pending";

pub const RECEIPT_STATUS_FORMING: &'static str = "forming";

pub const RECEIPT_STATUS_COMPLETED: &'static str = "completed";

pub const RECEIPT_STATUS_FAILED: &'static str = "failed";

/// How long a worker holds a receipt it claimed, in seconds.
pub const RECEIPT_LOCK_SECONDS: i64 = 300;

/// The status shown to a buyer.
pub open spec fn display_status_spec(status: Seq<char>) -> Seq<char> {
    if status == "test_payment"@ {
        "Тестовый платеж"@
    } else if status == "pending"@ || status == "forming"@ {
        "Чек формируется"@
    } else if status == "failed"@ {
        "Ошибка формирования чека"@
    } else if status == "completed"@ {
        "Завершен с чеком"@
    } else if status == "not_required"@ {
        "Чек не требуется"@
    } else {
        "Статус чека неизвестен"@
    }
}

pub fn display_status(status: &str) -> (r: &'static str)
    ensures
        r@ == display_status_spec(status@),
{
    if str_equal(status, RECEIPT_STATUS_TEST_PAYMENT) {
        "Тестовый платеж"
    } else if str_equal(status, RECEIPT_STATUS_PENDING) || str_equal(status, RECEIPT_STATUS_FORMING) {
        "Чек формируется"
    } else if str_equal(status, RECEIPT_STATUS_FAILED) {
        "Ошибка формирования чека"
    } else if str_equal(status, RECEIPT_STATUS_COMPLETED) {
        "Завершен с чеком"
    } else if str_equal(status, RECEIPT_STATUS_NOT_REQUIRED) {
        "Чек не требуется"
    } else {
        "Статус чека неизвестен"
    }
}

/// The receipt created for a fulfilled order: none needed when receipts are
/// off, skipped for test payments, else pending from now until the
/// deadline.
#[derive(Clone, Debug)]
pub struct ReceiptPlan {
    pub status: &'static str,
    pub next_attempt_at: Option<i64>,
    pub deadline_at: Option<i64>,
    pub failure_problem: Option<String>,
}

pub fn initial_receipt_plan(enabled: bool, is_test_payment: bool, now: i64, failure_after_seconds: i64) -> (r:
    ReceiptPlan)
    requires
        enabled && !is_test_payment ==> i64::MIN <= now + failure_after_seconds * 1000 <= i64::MAX,
        enabled && !is_test_payment ==> i64::MIN <= failure_after_seconds * 1000 <= i64::MAX,
    ensures
        !enabled ==> r.status@ == "not_required"@ && r.next_attempt_at is None && r.deadline_at is None
            && (r.failure_problem matches Some(p) && p@ == "Shop receipts are disabled"@),
        enabled && is_test_payment ==> r.status@ == "test_payment"@ && r.next_attempt_at is None
            && r.deadline_at is None && (r.failure_problem matches Some(p) && p@
            == "Receipt skipped for test payment"@),
        enabled && !is_test_payment ==> r.status@ == "pending"@ && r.next_attempt_at == Some(now)
            && r.deadline_at == Some((now + failure_after_seconds * 1000) as i64)
            && r.failure_problem is None,
{
    if !enabled {
        ReceiptPlan {
            status: RECEIPT_STATUS_NOT_REQUIRED,
            next_attempt_at: None,
            deadline_at: None,
            failure_problem: Some("Shop receipts are disabled".to_string()),
        }
    } else if is_test_payment {
        ReceiptPlan {
            status: RECEIPT_STATUS_TEST_PAYMENT,
            next_attempt_at: None,
            deadline_at: None,
            failure_problem: Some("Receipt skipped for test payment".to_string()),
        }
    } else {
        ReceiptPlan {
            status: RECEIPT_STATUS_PENDING,
            next_attempt_at: Some(now),
            deadline_at: Some(now + failure_after_seconds * 1000),
            failure_problem: None,
        }
    }
}

/// A worker may claim a pending or forming receipt that no worker holds
/// (its lock is absent or has run out).
pub open spec fn claimable(status: Seq<char>, locked_until: Option<i64>, now: i64) -> bool {
    (status == "pending"@ || status == "forming"@) && match locked_until {
        None => true,
        Some(t) => t <= now,
    }
}

pub fn receipt_claimable(status: &str, locked_until: Option<i64>, now: i64) -> (r: bool)
    ensures
        r == claimable(status@, locked_until, now),
{
    (str_equal(status, RECEIPT_STATUS_PENDING) || str_equal(status, RECEIPT_STATUS_FORMING)) && match locked_until {
        None => true,
        Some(t) => t <= now,
    }
}

/// Until when a claim holds the receipt.
pub fn claim_lock_until(now: i64) -> (r: i64)
    requires
        now + RECEIPT_LOCK_SECONDS * 1000 <= i64::MAX,
    ensures
        r == now + RECEIPT_LOCK_SECONDS * 1000,
{
    now + RECEIPT_LOCK_SECONDS * 1000
}

/// A claimed receipt cannot be claimed again while its lock holds.
pub proof fn lemma_claim_excludes(status: Seq<char>, now: i64, later: i64)
    requires
        now + RECEIPT_LOCK_SECONDS * 1000 <= i64::MAX,
        now <= later < now + RECEIPT_LOCK_SECONDS * 1000,
    ensures
        !claimable(status, Some((now + RECEIPT_LOCK_SECONDS * 1000) as i64), later),
{
}

/// The receipt's deadline has passed.
pub fn deadline_exceeded(deadline_at: Option<i64>, now: i64) -> (r: bool)
    ensures
        r == (deadline_at matches Some(d) && d <= now),
{
    match deadline_at {
        Some(d) => d <= now,
        None => false,
    }
}

/// What a failed submission writes.
#[derive(Clone, Debug)]
pub struct ReceiptRetry {
    pub status: &'static str,
    pub attempt_count: i32,
    pub first_attempt_at: Option<i64>,
    pub last_attempt_at: i64,
    pub next_attempt_at: Option<i64>,
}

/// A failed submission counts an attempt; it is retried after the retry
/// interval, unless the deadline has passed, when the receipt fails.
pub fn receipt_retry(
    deadline_at: Option<i64>,
    now: i64,
    attempt_count: i32,
    first_attempt_at: Option<i64>,
    retry_interval_seconds: i64,
) -> (r: ReceiptRetry)
    requires
        attempt_count < i32::MAX,
        i64::MIN <= now + retry_interval_seconds * 1000 <= i64::MAX,
        i64::MIN <= retry_interval_seconds * 1000 <= i64::MAX,
    ensures
        r.attempt_count == attempt_count + 1,
        r.first_attempt_at == (if first_attempt_at is Some {
            first_attempt_at
        } else {
            Some(now)
        }),
        r.last_attempt_at == now,
        (deadline_at matches Some(d) && d <= now) ==> r.status@ == "failed"@ && r.next_attempt_at is None,
        !(deadline_at matches Some(d) && d <= now) ==> r.status@ == "forming"@ && r.next_attempt_at
            == Some((now + retry_interval_seconds * 1000) as i64),
{
    let reached = deadline_exceeded(deadline_at, now);
    ReceiptRetry {
        status: if reached {
            RECEIPT_STATUS_FAILED
        } else {
            RECEIPT_STATUS_FORMING
        },
        attempt_count: attempt_count + 1,
        first_attempt_at: match first_attempt_at {
            Some(t) => Some(t),
            None => Some(now),
        },
        last_attempt_at: now,
        next_attempt_at: if reached {
            None
        } else {
            Some(now + retry_interval_seconds * 1000)
        },
    }
}

/// The `test` flag of a stored provider answer: `verifiedPayment.test`, else
/// `test`, when boolean.
pub open spec fn test_flag(payload: JsonModel) -> Option<bool> {
    match get_spec(payload, "verifiedPayment"@) {
        Some(v) => match get_spec(v, "test"@) {
            Some(JsonModel::Bool(b)) => Some(b),
            _ => match get_spec(payload, "test"@) {
                Some(JsonModel::Bool(b)) => Some(b),
                _ => None,
            },
        },
        None => match get_spec(payload, "test"@) {
            Some(JsonModel::Bool(b)) => Some(b),
            _ => None,
        },
    }
}

fn bool_member(v: &JsonValue, key: &str) -> (r: Option<bool>)
    ensures
        r == match get_spec(json_view(*v), key@) {
            Some(JsonModel::Bool(b)) => Some(b),
            _ => None::<bool>,
        },
{
    match get_member(v, key) {
        Some(JsonValue::Bool(b)) => Some(*b),
        _ => None,
    }
}

/// An order paid in test mode: mock payments, or a provider answer flagged
/// as a test.
pub fn is_test_payment(payment_provider: &str, latest_response: Option<&JsonValue>) -> (r: bool)
    ensures
        r == (payment_provider@ == "mock"@ || match latest_response {
            Some(p) => test_flag(json_view(*p)) == Some(true),
            None => false,
        }),
{
    if str_equal(payment_provider, "mock") {
        return true;
    }
    let payload = match latest_response {
        Some(p) => p,
        None => {
            return false;
        },
    };
    let nested = match get_member(payload, "verifiedPayment") {
        Some(v) => bool_member(v, "test"),
        None => None,
    };
    let flag = match nested {
        Some(b) => Some(b),
        None => bool_member(payload, "test"),
    };
    match flag {
        Some(b) => b,
        None => false,
    }
}

// ---------------------------------------------------------------------------
// The tax service.
// ---------------------------------------------------------------------------

/// The characters a device id is made of.
pub const DEVICE_ID_CHARSET: &'static str = "0123456789ABCDEFGHIJKLMNOPQRSTUVWXYZabcdefghijklmnopqrstuvwxyz";

pub const DEVICE_ID_LEN: usize = 21;

/// A device id: the first 21 characters of the configured prefix, then
/// random letters and digits until the id has 21 bytes.
pub fn generate_device_id(prefix: &str) -> (r: String)
    ensures
        r@.len() >= crate::text::take_chars_spec(prefix@, 21).len(),
        r@.subrange(0, crate::text::take_chars_spec(prefix@, 21).len() as int)
            == crate::text::take_chars_spec(prefix@, 21),
        forall|i: int|
            crate::text::take_chars_spec(prefix@, 21).len() <= i < r@.len() ==> DEVICE_ID_CHARSET@.contains(
                #[trigger] r@[i],
            ),
        r@.len() == crate::text::take_chars_spec(prefix@, 21).len() + (if encode_utf8(
            crate::text::take_chars_spec(prefix@, 21),
        ).len() >= 21 {
            0
        } else {
            21 - encode_utf8(crate::text::take_chars_spec(prefix@, 21)).len()
        }),
{
    let head = crate::text::take_chars(prefix, DEVICE_ID_LEN);
    let head_bytes: usize = head.as_str().as_bytes().len();
    let suffix_len: usize = if head_bytes >= DEVICE_ID_LEN {
        0
    } else {
        DEVICE_ID_LEN - head_bytes
    };
    let charset = crate::text::chars_of(DEVICE_ID_CHARSET);
    proof {
        reveal_strlit("0123456789ABCDEFGHIJKLMNOPQRSTUVWXYZabcdefghijklmnopqrstuvwxyz");
    }
    let mut out = crate::text::chars_of(head.as_str());
    let ghost start = out@;
    let mut k: usize = 0;
    while k < suffix_len
        invariant
            0 <= k <= suffix_len,
            charset@ == DEVICE_ID_CHARSET@,
            charset@.len() == 62,
            out@.len() == start.len() + k,
            out@.subrange(0, start.len() as int) == start,
            forall|i: int| start.len() <= i < out@.len() ==> DEVICE_ID_CHARSET@.contains(#[trigger] out@[i]),
        decreases suffix_len - k,
    {
        let idx = crate::lootbox::random_below(62);
        let c = charset[idx as usize];
        let ghost before = out@;
        out.push(c);
        proof {
            assert(DEVICE_ID_CHARSET@[idx as int] == c);
            assert(out@.subrange(0, start.len() as int) =~= before.subrange(0, start.len() as int));
            assert forall|i: int| start.len() <= i < out@.len() implies DEVICE_ID_CHARSET@.contains(
                #[trigger] out@[i],
            ) by {
                if i < before.len() {
                    assert(out@[i] == before[i]);
                } else {
                    assert(out@[i] == c);
                }
            }
        }
        k = k + 1;
    }
    string_of(out.as_slice())
}

/// A cached session token is used while it stays valid for more than five
/// minutes.
pub fn valid_token(token: Option<String>, expires_at: Option<i64>, now: i64) -> (r: Option<String>)
    requires
        now + 300_000 <= i64::MAX,
    ensures
        match (token, expires_at) {
            (Some(t), Some(e)) => if e > now + 300_000 {
                r matches Some(v) && v@ == t@
            } else {
                r is None
            },
            _ => r is None,
        },
{
    let t = match token {
        Some(t) => t,
        None => {
            return None;
        },
    };
    let e: i64 = match expires_at {
        Some(e) => e,
        None => {
            return None;
        },
    };
    if e > now + 300_000 {
        Some(t)
    } else {
        None
    }
}

/// The links of a registered receipt.
pub fn receipt_url(api_base_url: &str, inn: &str, receipt_uuid: &str, kind: &str) -> (r: String)
    ensures
        r@ == api_base_url@ + "/receipt/"@ + inn@ + "/"@ + receipt_uuid@ + "/"@ + kind@,
{
    let mut out: Vec<char> = Vec::new();
    push_str(&mut out, api_base_url);
    push_str(&mut out, "/receipt/");
    push_str(&mut out, inn);
    push_str(&mut out, "/");
    push_str(&mut out, receipt_uuid);
    push_str(&mut out, "/");
    push_str(&mut out, kind);
    string_of(out.as_slice())
}

/// The number the tax service gives a registered income: a non-blank
/// `approvedReceiptUuid`.
pub fn approved_receipt_uuid(payload: &JsonValue) -> (r: Result<String, String>)
    ensures
        match text_of(get_spec(json_view(*payload), "approvedReceiptUuid"@)) {
            Some(u) => if is_blank(u) {
                r matches Err(e) && e@ == "MyTax response is missing approvedReceiptUuid"@
            } else {
                r matches Ok(v) && v@ == u
            },
            None => r matches Err(e) && e@ == "MyTax response is missing approvedReceiptUuid"@,
        },
{
    match crate::json::as_text(get_member(payload, "approvedReceiptUuid")) {
        Some(u) => {
            if is_blank_str(u) {
                Err("MyTax response is missing approvedReceiptUuid".to_string())
            } else {
                Ok(u.to_string())
            }
        },
        None => Err("MyTax response is missing approvedReceiptUuid".to_string()),
    }
}

/// A failure of the tax service.
#[derive(Clone, Debug)]
pub enum MyTaxApiError {
    Status { operation: String, status_code: u16, status_text: String, body: String },
    Transport(String),
    Serde(String),
    Other(String),
}

impl MyTaxApiError {
    pub open spec fn text_spec(self) -> Seq<char> {
        match self {
            MyTaxApiError::Status { operation, status_code, status_text, body } => "MyTax "@
                + operation@ + " failed with status "@ + status_text@ + ": "@ + body@,
            MyTaxApiError::Transport(m) => "MyTax transport error: "@ + m@,
            MyTaxApiError::Serde(m) => "MyTax parse error: "@ + m@,
            MyTaxApiError::Other(m) => m@,
        }
    }

    pub fn text(&self) -> (r: String)
        ensures
            r@ == self.text_spec(),
    {
        let mut out: Vec<char> = Vec::new();
        match self {
            MyTaxApiError::Status { operation, status_code: _, status_text, body } => {
                push_str(&mut out, "MyTax ");
                push_str(&mut out, operation.as_str());
                push_str(&mut out, " failed with status ");
                push_str(&mut out, status_text.as_str());
                push_str(&mut out, ": ");
                push_str(&mut out, body.as_str());
            },
            MyTaxApiError::Transport(m) => {
                push_str(&mut out, "MyTax transport error: ");
                push_str(&mut out, m.as_str());
            },
            MyTaxApiError::Serde(m) => {
                push_str(&mut out, "MyTax parse error: ");
                push_str(&mut out, m.as_str());
            },
            MyTaxApiError::Other(m) => {
                push_str(&mut out, m.as_str());
            },
        }
        string_of(out.as_slice())
    }

    /// The session was rejected: log in again and resend once.
    pub fn is_auth_error(&self) -> (r: bool)
        ensures
            r == (self matches MyTaxApiError::Status { status_code, .. } && (status_code == 401
                || status_code == 403)),
    {
        match self {
            MyTaxApiError::Status { status_code, .. } => *status_code == 401 || *status_code == 403,
            _ => false,
        }
    }
}

/// What `str::parse::<i32>` gives for a text: an optional sign and
/// decimal digits, within the range of `i32`.
pub open spec fn parsed_i32(s: Seq<char>) -> Option<i32> {
    match decimal_in_range(s, i32::MIN as int, i32::MAX as int) {
        Some(v) => Some(v as i32),
        None => None,
    }
}

/// Reads a text as `str::parse::<i32>` does.
fn parse_i32(s: &str) -> (r: Option<i32>)
    ensures
        r == parsed_i32(s@),
{
    match parse_decimal(s, i32::MIN as i128, i32::MAX as i128) {
        Some(v) => Some(v as i32),
        None => None,
    }
}

/// The text after the leading `+` and `-` signs.
pub open spec fn strip_signs(s: Seq<char>) -> Seq<char>
    decreases s.len(),
{
    if s.len() > 0 && (s[0] == '+' || s[0] == '-') {
        strip_signs(s.drop_first())
    } else {
        s
    }
}

/// The UTC offset of the tax service's clock in seconds: `Z`, or
/// `[+|-]hours[:minutes]`, east of UTC and strictly within a day.
pub open spec fn zone_offset_outcome(value: Seq<char>) -> Result<int, Seq<char>> {
    if value == "Z"@ {
        Ok(0)
    } else {
        let sign: int = if value.len() > 0 && value[0] == '-' {
            -1
        } else {
            1
        };
        let rest = strip_signs(value);
        let hours_text = match crate::text::first_index_of(rest, ':') {
            Some(i) => rest.subrange(0, i),
            None => rest,
        };
        let minutes_text = match crate::text::first_index_of(rest, ':') {
            Some(i) => {
                let tail = rest.subrange(i + 1, rest.len() as int);
                match crate::text::first_index_of(tail, ':') {
                    Some(j) => tail.subrange(0, j),
                    None => tail,
                }
            },
            None => "0"@,
        };
        match parsed_i32(hours_text) {
            None => Err("MYTAX_ZONE_OFFSET hours are invalid"@),
            Some(h) => match parsed_i32(minutes_text) {
                None => Err("MYTAX_ZONE_OFFSET minutes are invalid"@),
                Some(m) => {
                    let total = sign * (h * 3600 + m * 60);
                    if -86_400 < total < 86_400 {
                        Ok(total)
                    } else {
                        Err("MYTAX_ZONE_OFFSET is out of range"@)
                    }
                },
            },
        }
    }
}

pub fn parse_zone_offset(value: &str) -> (r: Result<i32, String>)
    ensures
        match zone_offset_outcome(value@) {
            Ok(s) => r matches Ok(v) && v == s,
            Err(m) => r matches Err(e) && e@ == m,
        },
{
    if str_equal(value, "Z") {
        return Ok(0);
    }
    let cs = crate::text::chars_of(value);
    let sign: i64 = if cs.len() > 0 && cs[0] == '-' {
        -1
    } else {
        1
    };
    let mut start: usize = 0;
    assert(cs@.subrange(0, cs@.len() as int) =~= cs@);
    while start < cs.len() && (cs[start] == '+' || cs[start] == '-')
        invariant
            0 <= start <= cs@.len(),
            strip_signs(cs@) == strip_signs(cs@.subrange(start as int, cs@.len() as int)),
        decreases cs@.len() - start,
    {
        assert(cs@.subrange(start as int, cs@.len() as int).drop_first() =~= cs@.subrange(
            start + 1,
            cs@.len() as int,
        ));
        start = start + 1;
    }
    let rest = crate::text::slice_copy(cs.as_slice(), start, cs.len());
    proof {
        assert(cs@ =~= cs@.subrange(0, cs@.len() as int));
        assert(cs@.subrange(0, cs@.len() as int) == value@);
        assert(strip_signs(cs@.subrange(start as int, cs@.len() as int)) == cs@.subrange(
            start as int,
            cs@.len() as int,
        ));
    }
    let (hours_chars, minutes_chars) = match crate::text::find_char(rest.as_slice(), ':') {
        Some(i) => {
            let tail = crate::text::slice_copy(rest.as_slice(), i + 1, rest.len());
            let minutes = match crate::text::find_char(tail.as_slice(), ':') {
                Some(j) => crate::text::slice_copy(tail.as_slice(), 0, j),
                None => tail,
            };
            (crate::text::slice_copy(rest.as_slice(), 0, i), minutes)
        },
        None => (rest.clone(), crate::text::chars_of("0")),
    };
    let hours_text = string_of(hours_chars.as_slice());
    let minutes_text = string_of(minutes_chars.as_slice());
    let h: i32 = match parse_i32(hours_text.as_str()) {
        Some(h) => h,
        None => {
            return Err("MYTAX_ZONE_OFFSET hours are invalid".to_string());
        },
    };
    let m: i32 = match parse_i32(minutes_text.as_str()) {
        Some(m) => m,
        None => {
            return Err("MYTAX_ZONE_OFFSET minutes are invalid".to_string());
        },
    };
    let total: i128 = (sign as i128) * ((h as i128) * 3600 + (m as i128) * 60);
    if -86_400 < total && total < 86_400 {
        Ok(total as i32)
    } else {
        Err("MYTAX_ZONE_OFFSET is out of range".to_string())
    }
}

/// Only a pending or forming receipt is ever claimed: a receipt in any other
/// status is not claimable, whatever its lock and the time; a pending or
/// forming one is claimable exactly when it holds no lock that is still in
/// force.
pub proof fn lemma_only_open_receipts_are_claimed(status: Seq<char>, locked_until: Option<i64>, now: i64)
    ensures
        status != "pending"@ && status != "forming"@ ==> !claimable(status, locked_until, now),
        (status == "pending"@ || status == "forming"@) ==> (claimable(status, locked_until, now) <==> forall|t: i64|
            locked_until == Some(t) ==> t <= now),
{
}

} // verus!
