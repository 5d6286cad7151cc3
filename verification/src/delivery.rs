//! Queued notification deliveries (e-mail and Discord direct messages):
//! what a failed attempt leaves behind, how provider errors are classified,
//! how broadcasts progress, and the pieces of the mail provider's protocol.
use vstd::prelude::*;
use crate::json::{get_member, get_spec, json_view, text_of, JsonModel, JsonValue};
use crate::text::{
    decimal_in_range, find_char, has_prefix, int_text, is_blank, is_blank_str, lowercase_of,
    parse_decimal, push_i64, push_str, slice_copy, str_equal, string_of, to_lowercase, trim, trim_spec,
};

verus! {

pub const DELIVERY_STATUS_PENDING: &'static str = "pending";

pub const DELIVERY_STATUS_PROCESSING: &'static str = "processing";

pub const DELIVERY_STATUS_DELIVERED: &'static str = "delivered";

pub const DELIVERY_STATUS_TIMEOUT: &'static str = "timeout";

pub const DELIVERY_STATUS_FORBIDDEN: &'static str = "forbidden";

pub const DELIVERY_STATUS_ERROR: &'static str = "error";

pub const BROADCAST_STATUS_PENDING: &'static str = "pending";

pub const BROADCAST_STATUS_RUNNING: &'static str = "running";

pub const BROADCAST_STATUS_COMPLETED: &'static str = "completed";

// ---------------------------------------------------------------------------
// Failed attempts.
// ---------------------------------------------------------------------------

/// What a failed attempt writes: the status, when the delivery finished (if
/// it did) and when it may be picked up again.
#[derive(Clone, Copy, Debug)]
pub struct FailureUpdate {
    pub status: &'static str,
    pub finished_at: Option<i64>,
    pub updated_at: i64,
}

/// A failed e-mail is retried after the retry interval unless the provider
/// refused it or the delivery is past its deadline (creation plus the
/// failure window); past the deadline it ends as an error.
pub open spec fn email_failure_status(status: Seq<char>, created_at: int, now: int, failure_after_seconds: int) -> Seq<
    char,
> {
    let deadline = created_at + failure_after_seconds * 1000;
    if status != "forbidden"@ && now < deadline {
        "pending"@
    } else if now >= deadline {
        "error"@
    } else {
        status
    }
}

pub fn email_failure_update(
    status: &'static str,
    created_at: i64,
    now: i64,
    failure_after_seconds: i64,
    retry_interval_seconds: i64,
) -> (r: FailureUpdate)
    requires
        i64::MIN <= failure_after_seconds * 1000 <= i64::MAX,
        i64::MIN <= created_at + failure_after_seconds * 1000 <= i64::MAX,
        i64::MIN <= retry_interval_seconds * 1000 <= i64::MAX,
        i64::MIN <= now + retry_interval_seconds * 1000 <= i64::MAX,
    ensures
        r.status@ == email_failure_status(status@, created_at as int, now as int, failure_after_seconds as int),
        r.finished_at == (if r.status@ == "pending"@ {
            None
        } else {
            Some(now)
        }),
        r.updated_at == (if r.status@ == "pending"@ {
            now + retry_interval_seconds * 1000
        } else {
            now as int
        }),
{
    proof {
        reveal_strlit("pending");
        reveal_strlit("error");
        reveal_strlit("forbidden");
    }
    let deadline: i64 = created_at + failure_after_seconds * 1000;
    let should_retry = !str_equal(status, DELIVERY_STATUS_FORBIDDEN) && now < deadline;
    let final_status: &'static str = if should_retry {
        DELIVERY_STATUS_PENDING
    } else if now >= deadline {
        DELIVERY_STATUS_ERROR
    } else {
        status
    };
    let finished = !str_equal(final_status, DELIVERY_STATUS_PENDING);
    proof {
        if !should_retry && now < deadline {
            assert(status@ == "forbidden"@);
            assert("forbidden"@[0] != "pending"@[0]);
        }
        if !should_retry && now >= deadline {
            assert("error"@[0] != "pending"@[0]);
        }
    }
    FailureUpdate {
        status: final_status,
        finished_at: if finished {
            Some(now)
        } else {
            None
        },
        updated_at: if finished {
            now
        } else {
            now + retry_interval_seconds * 1000
        },
    }
}

/// A refused e-mail is never retried, and a retried one is picked up again
/// only later.
pub proof fn lemma_email_retry_rules(
    status: Seq<char>,
    created_at: int,
    now: int,
    failure_after_seconds: int,
)
    ensures
        status == "forbidden"@ ==> email_failure_status(status, created_at, now, failure_after_seconds)
            != "pending"@,
        email_failure_status(status, created_at, now, failure_after_seconds) == "pending"@ ==> now
            < created_at + failure_after_seconds * 1000,
{
    reveal_strlit("pending");
    reveal_strlit("error");
    reveal_strlit("forbidden");
    assert("forbidden"@[0] != "pending"@[0]);
    assert("error"@[0] != "pending"@[0]);
}

/// A failed Discord message ends at once.
pub fn discord_failure_update(status: &'static str, now: i64) -> (r: FailureUpdate)
    ensures
        r.status == status,
        r.finished_at == Some(now),
        r.updated_at == now,
{
    FailureUpdate { status, finished_at: Some(now), updated_at: now }
}

// ---------------------------------------------------------------------------
// Provider errors.
// ---------------------------------------------------------------------------

/// A failure of the Discord API, with its description.
#[derive(Clone, Debug)]
pub enum DiscordApiError {
    Timeout(String),
    Forbidden(String),
    NotFound(String),
    RateLimited(String),
    Http(String),
    Transport(String),
}

/// The delivery status for a Discord failure: timeouts and refusals keep
/// their own status, everything else is an error.
pub fn discord_error_status(error: DiscordApiError) -> (r: (&'static str, String))
    ensures
        match error {
            DiscordApiError::Timeout(m) => r.0@ == "timeout"@ && r.1@ == m@,
            DiscordApiError::Forbidden(m) => r.0@ == "forbidden"@ && r.1@ == m@,
            DiscordApiError::NotFound(m) => r.0@ == "error"@ && r.1@ == m@,
            DiscordApiError::RateLimited(m) => r.0@ == "error"@ && r.1@ == m@,
            DiscordApiError::Http(m) => r.0@ == "error"@ && r.1@ == m@,
            DiscordApiError::Transport(m) => r.0@ == "error"@ && r.1@ == m@,
        },
{
    match error {
        DiscordApiError::Timeout(m) => (DELIVERY_STATUS_TIMEOUT, m),
        DiscordApiError::Forbidden(m) => (DELIVERY_STATUS_FORBIDDEN, m),
        DiscordApiError::NotFound(m) => (DELIVERY_STATUS_ERROR, m),
        DiscordApiError::RateLimited(m) => (DELIVERY_STATUS_ERROR, m),
        DiscordApiError::Http(m) => (DELIVERY_STATUS_ERROR, m),
        DiscordApiError::Transport(m) => (DELIVERY_STATUS_ERROR, m),
    }
}

/// A failure of the mail provider. An HTTP status carries its code and its
/// text (`"403 Forbidden"`); a transport failure says whether it timed out.
#[derive(Clone, Debug)]
pub enum EmailApiError {
    Status { operation: String, status_code: u16, status_text: String, body: String },
    Transport { timed_out: bool, message: String },
    Serde(String),
    Rejected(String),
}

impl EmailApiError {
    pub open spec fn text_spec(self) -> Seq<char> {
        match self {
            EmailApiError::Status { operation, status_code, status_text, body } => "Xyecoc "@
                + operation@ + " failed with status "@ + status_text@ + ": "@ + body@,
            EmailApiError::Transport { timed_out, message } => "Xyecoc transport error: "@
                + message@,
            EmailApiError::Serde(m) => "Xyecoc parse error: "@ + m@,
            EmailApiError::Rejected(m) => m@,
        }
    }

    /// The error as text.
    pub fn text(&self) -> (r: String)
        ensures
            r@ == self.text_spec(),
    {
        let mut out: Vec<char> = Vec::new();
        match self {
            EmailApiError::Status { operation, status_code: _, status_text, body } => {
                push_str(&mut out, "Xyecoc ");
                push_str(&mut out, operation.as_str());
                push_str(&mut out, " failed with status ");
                push_str(&mut out, status_text.as_str());
                push_str(&mut out, ": ");
                push_str(&mut out, body.as_str());
            },
            EmailApiError::Transport { timed_out: _, message } => {
                push_str(&mut out, "Xyecoc transport error: ");
                push_str(&mut out, message.as_str());
            },
            EmailApiError::Serde(m) => {
                push_str(&mut out, "Xyecoc parse error: ");
                push_str(&mut out, m.as_str());
            },
            EmailApiError::Rejected(m) => {
                push_str(&mut out, m.as_str());
            },
        }
        string_of(out.as_slice())
    }

    /// The provider rejected the session: log in again and retry once.
    pub fn is_auth_error(&self) -> (r: bool)
        ensures
            r == (self matches EmailApiError::Status { status_code, .. } && (status_code == 401
                || status_code == 403)),
    {
        match self {
            EmailApiError::Status { status_code, .. } => *status_code == 401 || *status_code == 403,
            _ => false,
        }
    }
}

/// The delivery status for a mail failure: a timed-out transport is a
/// timeout, a 403 answer a refusal (its body as description), anything
/// else an error described by the error's text.
pub fn email_error_status(error: EmailApiError) -> (r: (&'static str, String))
    ensures
        match error {
            EmailApiError::Transport { timed_out: true, .. } => r.0@ == "timeout"@ && r.1@
                == "Xyecoc request timed out"@,
            EmailApiError::Status { status_code: 403, body, .. } => r.0@ == "forbidden"@ && r.1@
                == body@,
            _ => r.0@ == "error"@ && r.1@ == error.text_spec(),
        },
{
    let text = error.text();
    match error {
        EmailApiError::Transport { timed_out: true, .. } => (
            DELIVERY_STATUS_TIMEOUT,
            "Xyecoc request timed out".to_string(),
        ),
        EmailApiError::Status { status_code: 403, body, .. } => (DELIVERY_STATUS_FORBIDDEN, body),
        _ => (DELIVERY_STATUS_ERROR, text),
    }
}

// ---------------------------------------------------------------------------
// Broadcasts and the delivery queue.
// ---------------------------------------------------------------------------

/// A pending broadcast starts running with its first attempt.
pub fn broadcast_starts(broadcast_status: &str) -> (r: bool)
    ensures
        r == (broadcast_status@ == "pending"@),
{
    str_equal(broadcast_status, BROADCAST_STATUS_PENDING)
}

/// A broadcast completes when none of its deliveries is pending or being
/// processed (and it has not completed already).
pub fn broadcast_completes(broadcast_status: &str, remaining: u64) -> (r: bool)
    ensures
        r == (broadcast_status@ != "completed"@ && remaining == 0),
{
    !str_equal(broadcast_status, BROADCAST_STATUS_COMPLETED) && remaining == 0
}

/// Which queued message the worker sends next: direct messages before
/// broadcast ones; `Some(true)` for a broadcast message, after which the
/// worker pauses.
pub fn next_delivery_kind(has_direct: bool, has_broadcast: bool) -> (r: Option<bool>)
    ensures
        has_direct ==> r == Some(false),
        !has_direct && has_broadcast ==> r == Some(true),
        !has_direct && !has_broadcast ==> r is None,
{
    if has_direct {
        Some(false)
    } else if has_broadcast {
        Some(true)
    } else {
        None
    }
}

/// The pause after a broadcast message, in milliseconds.
pub const BROADCAST_PAUSE_MILLIS: u64 = 500;

// ---------------------------------------------------------------------------
// The mail provider's protocol.
// ---------------------------------------------------------------------------

/// The login the provider expects: the trimmed login, or only its part
/// before the first `@` when so configured.
pub open spec fn remote_login(login: Seq<char>, local_part_only: bool) -> Seq<char> {
    let t = trim_spec(login);
    if !local_part_only {
        t
    } else {
        match crate::text::first_index_of(t, '@') {
            Some(i) => t.subrange(0, i),
            None => t,
        }
    }
}

pub fn remote_auth_email(login: &str, local_part_only: bool) -> (r: String)
    ensures
        r@ == remote_login(login@, local_part_only),
{
    let t = trim(login);
    if !local_part_only {
        return t;
    }
    let cs = crate::text::chars_of(t.as_str());
    match find_char(cs.as_slice(), '@') {
        Some(i) => string_of(slice_copy(cs.as_slice(), 0, i).as_slice()),
        None => t,
    }
}

/// What `str::parse::<i64>` gives for a text: an optional sign and
/// decimal digits, within the range of `i64`.
pub open spec fn parsed_i64(s: Seq<char>) -> Option<i64> {
    match decimal_in_range(s, i64::MIN as int, i64::MAX as int) {
        Some(v) => Some(v as i64),
        None => None,
    }
}

/// Reads a text as `str::parse::<i64>` does.
fn parse_i64(s: &str) -> (r: Option<i64>)
    ensures
        r == parsed_i64(s@),
{
    match parse_decimal(s, i64::MIN as i128, i64::MAX as i128) {
        Some(v) => Some(v as i64),
        None => None,
    }
}

/// A status value of the provider as a number: integers as they are,
/// numeric texts parsed, `true` as 1, anything else 0.
pub open spec fn status_value(v: JsonModel) -> i64 {
    match v {
        JsonModel::Number(n) => match n {
            Some(i) => i,
            None => 0,
        },
        JsonModel::Text(s) => match parsed_i64(trim_spec(s)) {
            Some(i) => i,
            None => 0,
        },
        JsonModel::Bool(b) => if b {
            1
        } else {
            0
        },
        _ => 0,
    }
}

pub fn parse_status_value(value: &JsonValue) -> (r: i64)
    ensures
        r == status_value(json_view(*value)),
{
    match value {
        JsonValue::Number(n) => match n {
            Some(i) => *i,
            None => 0,
        },
        JsonValue::Text(s) => {
            let t = trim(s.as_str());
            match parse_i64(t.as_str()) {
                Some(i) => i,
                None => 0,
            }
        },
        JsonValue::Bool(b) => if *b {
            1
        } else {
            0
        },
        _ => 0,
    }
}

/// A mail mutation succeeded: status 1, a `success`/`ok` message, or a
/// `data.status` of 1.
pub open spec fn mutation_ok(status: i64, message: Seq<char>, data: JsonModel) -> bool {
    let m = lowercase_of(trim_spec(message));
    status == 1 || m == "success"@ || m == "ok"@ || (get_spec(data, "status"@) matches Some(v)
        && status_value(v) == 1)
}

pub fn mail_mutation_ok(status: i64, message: &str, data: &JsonValue) -> (r: bool)
    ensures
        r == mutation_ok(status, message@, json_view(*data)),
{
    if status == 1 {
        return true;
    }
    let t = trim(message);
    let m = to_lowercase(t.as_str());
    if str_equal(m.as_str(), "success") || str_equal(m.as_str(), "ok") {
        return true;
    }
    match get_member(data, "status") {
        Some(v) => parse_status_value(v) == 1,
        None => false,
    }
}

/// The provider's message id: `data.id` as an integer (written in
/// decimal) or as a text.
pub open spec fn message_id_spec(data: JsonModel) -> Option<Seq<char>> {
    match get_spec(data, "id"@) {
        Some(JsonModel::Number(Some(i))) => Some(int_text(i as int)),
        Some(JsonModel::Text(s)) => Some(s),
        _ => None,
    }
}

pub fn extract_message_id(data: &JsonValue) -> (r: Option<String>)
    ensures
        match message_id_spec(json_view(*data)) {
            Some(s) => r matches Some(t) && t@ == s,
            None => r is None,
        },
{
    match get_member(data, "id") {
        Some(JsonValue::Number(Some(i))) => Some(crate::text::i64_to_string(*i)),
        Some(JsonValue::Text(s)) => Some(s.clone()),
        _ => None,
    }
}

/// A non-blank string member `key` of `v`.
pub open spec fn token_member(v: JsonModel, key: Seq<char>) -> Option<Seq<char>> {
    match text_of(get_spec(v, key)) {
        Some(t) => if is_blank(t) {
            None
        } else {
            Some(t)
        },
        None => None,
    }
}

/// The first of `token`, `jwt`, `access_token` in `v` that is a non-blank
/// string.
pub open spec fn token_in(v: JsonModel) -> Option<Seq<char>> {
    if token_member(v, "token"@) is Some {
        token_member(v, "token"@)
    } else if token_member(v, "jwt"@) is Some {
        token_member(v, "jwt"@)
    } else {
        token_member(v, "access_token"@)
    }
}

/// The session token of a login answer: `data` itself when it is a
/// non-blank text, else a token member of `data`, else of `data.user`.
pub open spec fn login_token(data: JsonModel) -> Option<Seq<char>> {
    match data {
        JsonModel::Text(s) if !is_blank(s) => Some(s),
        _ => if token_in(data) is Some {
            token_in(data)
        } else {
            match get_spec(data, "user"@) {
                Some(u) => token_in(u),
                None => token_in(JsonModel::Null),
            }
        },
    }
}

fn find_token_member(v: &JsonValue, key: &str) -> (r: Option<String>)
    ensures
        match token_member(json_view(*v), key@) {
            Some(t) => r matches Some(s) && s@ == t,
            None => r is None,
        },
{
    match crate::json::as_text(get_member(v, key)) {
        Some(t) => if is_blank_str(t) {
            None
        } else {
            Some(t.to_string())
        },
        None => None,
    }
}

fn find_token_in(v: &JsonValue) -> (r: Option<String>)
    ensures
        match token_in(json_view(*v)) {
            Some(t) => r matches Some(s) && s@ == t,
            None => r is None,
        },
{
    if let Some(t) = find_token_member(v, "token") {
        return Some(t);
    }
    if let Some(t) = find_token_member(v, "jwt") {
        return Some(t);
    }
    find_token_member(v, "access_token")
}

pub fn extract_token(data: &JsonValue) -> (r: Option<String>)
    ensures
        match login_token(json_view(*data)) {
            Some(t) => r matches Some(s) && s@ == t,
            None => r is None,
        },
{
    if let JsonValue::Text(s) = data {
        if !is_blank_str(s.as_str()) {
            return Some(s.clone());
        }
    }
    if let Some(t) = find_token_in(data) {
        return Some(t);
    }
    match get_member(data, "user") {
        Some(u) => find_token_in(u),
        None => None,
    }
}

/// The message of a rejected login.
pub fn login_failed_message(provider_message: &str) -> (r: String)
    ensures
        r@ == "Xyecoc login failed: "@ + provider_message@,
{
    crate::text::concat_str("Xyecoc login failed: ", provider_message)
}

/// The message of a rejected mail.
pub fn message_rejected_message(provider_message: &str) -> (r: String)
    ensures
        r@ == "Xyecoc message-new rejected: "@ + provider_message@,
{
    crate::text::concat_str("Xyecoc message-new rejected: ", provider_message)
}

// ---------------------------------------------------------------------------
// Attachments.
// ---------------------------------------------------------------------------

/// A file attached to an e-mail, fetched from `url`.
#[derive(Clone, Debug)]
pub struct EmailAttachment {
    pub url: String,
    pub filename: String,
    pub content_type: String,
}

/// The attachment stored with a delivery, with the default file name and
/// content type when they were not recorded.
pub fn delivery_attachment(
    url: Option<String>,
    filename: Option<String>,
    content_type: Option<String>,
) -> (r: Option<EmailAttachment>)
    ensures
        match url {
            None => r is None,
            Some(u) => r matches Some(a) && a.url@ == u@ && a.filename@ == (match filename {
                Some(f) => f@,
                None => "attachment.bin"@,
            }) && a.content_type@ == (match content_type {
                Some(c) => c@,
                None => "application/octet-stream"@,
            }),
        },
{
    match url {
        None => None,
        Some(u) => Some(
            EmailAttachment {
                url: u,
                filename: match filename {
                    Some(f) => f,
                    None => "attachment.bin".to_string(),
                },
                content_type: match content_type {
                    Some(c) => c,
                    None => "application/octet-stream".to_string(),
                },
            },
        ),
    }
}

/// The digit of a six-bit value in the standard base64 alphabet
/// (RFC 4648): `A`-`Z`, `a`-`z`, `0`-`9`, `+`, `/`.
pub open spec fn base64_digit(v: int) -> char {
    if v < 26 {
        (65 + v) as char
    } else if v < 52 {
        (97 + v - 26) as char
    } else if v < 62 {
        (48 + v - 52) as char
    } else if v == 62 {
        '+'
    } else {
        '/'
    }
}

/// The standard base64 encoding of the bytes, with `=` padding (RFC 4648):
/// each three bytes become four digits; a last one or two bytes become
/// two or three digits and padding.
pub open spec fn base64_of(b: Seq<u8>) -> Seq<char>
    decreases b.len(),
{
    if b.len() == 0 {
        Seq::empty()
    } else if b.len() == 1 {
        seq![base64_digit((b[0] / 4) as int), base64_digit((b[0] % 4) * 16), '=', '=']
    } else if b.len() == 2 {
        seq![
            base64_digit((b[0] / 4) as int),
            base64_digit((b[0] % 4) * 16 + b[1] / 16),
            base64_digit((b[1] % 16) * 4),
            '=',
        ]
    } else {
        seq![
            base64_digit((b[0] / 4) as int),
            base64_digit((b[0] % 4) * 16 + b[1] / 16),
            base64_digit((b[1] % 16) * 4 + b[2] / 64),
            base64_digit((b[2] % 64) as int),
        ] + base64_of(b.subrange(3, b.len() as int))
    }
}

/// Encodes with `base64::engine::general_purpose::STANDARD`: the standard
/// alphabet with padding, as `base64_of` states it.
#[verifier::external_body]
pub(crate) fn base64_encode(bytes: &[u8]) -> (r: String)
    ensures
        r@ == base64_of(bytes@),
{
    <base64::engine::GeneralPurpose as base64::Engine>::encode(&base64::engine::general_purpose::STANDARD, bytes)
}

/// The inline image source of an attachment: a `data:` URL.
pub fn inline_image_src(content_type: &str, bytes: &[u8]) -> (r: String)
    ensures
        r@ == "data:"@ + content_type@ + ";base64,"@ + base64_of(bytes@),
{
    let encoded = base64_encode(bytes);
    let mut out: Vec<char> = Vec::new();
    push_str(&mut out, "data:");
    push_str(&mut out, content_type);
    push_str(&mut out, ";base64,");
    push_str(&mut out, encoded.as_str());
    string_of(out.as_slice())
}

/// `to` before every character of `s` and at its end, as `str::replace`
/// does with an empty pattern.
pub open spec fn interleaved(s: Seq<char>, to: Seq<char>) -> Seq<char>
    decreases s.len(),
{
    if s.len() == 0 {
        to
    } else {
        interleaved(s.drop_last(), to) + seq![s.last()] + to
    }
}

/// `str::replace`: every occurrence of `from`, left to right and without
/// overlap, replaced by `to`; an empty `from` occurs before every character
/// and at the end.
pub open spec fn replace_spec(s: Seq<char>, from: Seq<char>, to: Seq<char>) -> Seq<char>
    decreases s.len(),
{
    if from.len() == 0 {
        interleaved(s, to)
    } else if s.len() < from.len() {
        s
    } else if s.subrange(0, from.len() as int) == from {
        to + replace_spec(s.subrange(from.len() as int, s.len() as int), from, to)
    } else {
        seq![s[0]] + replace_spec(s.drop_first(), from, to)
    }
}

proof fn lemma_replace_step(s: Seq<char>, i: int, from: Seq<char>, to: Seq<char>)
    requires
        0 <= i <= s.len(),
        from.len() > 0,
    ensures
        s.subrange(i, s.len() as int).len() >= from.len() ==> replace_spec(
            s.subrange(i, s.len() as int),
            from,
            to,
        ) == if s.subrange(i, i + from.len()) == from {
            to + replace_spec(s.subrange(i + from.len(), s.len() as int), from, to)
        } else {
            seq![s[i]] + replace_spec(s.subrange(i + 1, s.len() as int), from, to)
        },
{
    let t = s.subrange(i, s.len() as int);
    if t.len() >= from.len() {
        assert(t.subrange(0, from.len() as int) =~= s.subrange(i, i + from.len()));
        assert(t.subrange(from.len() as int, t.len() as int) =~= s.subrange(
            i + from.len(),
            s.len() as int,
        ));
        assert(t.drop_first() =~= s.subrange(i + 1, s.len() as int));
    }
}

pub fn replace_all(text: &str, from: &str, to: &str) -> (r: String)
    ensures
        r@ == replace_spec(text@, from@, to@),
{
    let cs = crate::text::chars_of(text);
    let ps = crate::text::chars_of(from);
    let ts = crate::text::chars_of(to);
    let n: usize = cs.len();
    let m: usize = ps.len();
    if m == 0 {
        let mut out: Vec<char> = Vec::new();
        crate::text::push_chars(&mut out, ts.as_slice());
        let mut k: usize = 0;
        assert(out@ =~= interleaved(cs@.subrange(0, 0), ts@));
        while k < n
            invariant
                0 <= k <= n,
                n == cs@.len(),
                out@ == interleaved(cs@.subrange(0, k as int), ts@),
            decreases n - k,
        {
            out.push(cs[k]);
            crate::text::push_chars(&mut out, ts.as_slice());
            assert(cs@.subrange(0, k + 1).drop_last() =~= cs@.subrange(0, k as int));
            k = k + 1;
        }
        assert(cs@.subrange(0, n as int) =~= cs@);
        return string_of(out.as_slice());
    }
    let mut out: Vec<char> = Vec::new();
    let mut i: usize = 0;
    assert(cs@.subrange(0, n as int) =~= cs@);
    assert(out@ + replace_spec(cs@, ps@, ts@) =~= replace_spec(cs@, ps@, ts@));
    while i < n
        invariant
            0 <= i <= n,
            n == cs@.len(),
            m == ps@.len(),
            m > 0,
            ps@ == from@,
            ts@ == to@,
            cs@ == text@,
            out@ + replace_spec(cs@.subrange(i as int, n as int), ps@, ts@) == replace_spec(
                cs@,
                ps@,
                ts@,
            ),
        decreases n - i,
    {
        let ghost before = out@;
        proof {
            lemma_replace_step(cs@, i as int, ps@, ts@);
        }
        if n - i < m {
            proof {
                assert(cs@.subrange(i as int, n as int).len() < ps@.len());
            }
            let mut k: usize = i;
            while k < n
                invariant
                    i <= k <= n,
                    n == cs@.len(),
                    out@ == before + cs@.subrange(i as int, k as int),
                decreases n - k,
            {
                out.push(cs[k]);
                assert(out@ =~= before + cs@.subrange(i as int, k + 1));
                k = k + 1;
            }
            assert(cs@.subrange(n as int, n as int).len() == 0);
            assert(replace_spec(cs@.subrange(n as int, n as int), ps@, ts@) =~= Seq::<char>::empty());
            assert(out@ + replace_spec(cs@.subrange(n as int, n as int), ps@, ts@) =~= before
                + replace_spec(cs@.subrange(i as int, n as int), ps@, ts@));
            i = n;
        } else {
            let mut j: usize = 0;
            let mut matched = true;
            while j < m
                invariant
                    0 <= j <= m,
                    i + m <= n,
                    n == cs@.len(),
                    m == ps@.len(),
                    matched == (forall|q: int| 0 <= q < j ==> cs@[i + q] == ps@[q]),
                decreases m - j,
            {
                if cs[i + j] != ps[j] {
                    matched = false;
                }
                j = j + 1;
            }
            proof {
                if matched {
                    assert(cs@.subrange(i as int, i + m) =~= ps@);
                } else {
                    let q = choose|q: int| 0 <= q < m && cs@[i + q] != ps@[q];
                    assert(cs@.subrange(i as int, i + m)[q] != ps@[q]);
                }
            }
            if matched {
                let mut k: usize = 0;
                while k < ts.len()
                    invariant
                        0 <= k <= ts@.len(),
                        out@ == before + ts@.subrange(0, k as int),
                    decreases ts@.len() - k,
                {
                    out.push(ts[k]);
                    assert(out@ =~= before + ts@.subrange(0, k + 1));
                    k = k + 1;
                }
                assert(ts@.subrange(0, ts@.len() as int) =~= ts@);
                assert(out@ + replace_spec(cs@.subrange(i + m, n as int), ps@, ts@) =~= before + (
                ts@ + replace_spec(cs@.subrange(i + m, n as int), ps@, ts@)));
                i = i + m;
            } else {
                out.push(cs[i]);
                assert(out@ + replace_spec(cs@.subrange(i + 1, n as int), ps@, ts@) =~= before + (seq![
                    cs@[i as int],
                ] + replace_spec(cs@.subrange(i + 1, n as int), ps@, ts@)));
                i = i + 1;
            }
        }
    }
    assert(replace_spec(cs@.subrange(n as int, n as int), ps@, ts@) =~= Seq::<char>::empty());
    assert(out@ =~= replace_spec(cs@, ps@, ts@));
    string_of(out.as_slice())
}

/// The mail body sent: the receipt image placeholder replaced by the
/// attachment's inline source, or removed when there is no attachment.
pub fn mail_body(html_body: &str, inline_src: Option<&str>) -> (r: String)
    ensures
        r@ == replace_spec(
            html_body@,
            crate::templates::RECEIPT_IMAGE_PLACEHOLDER@,
            match inline_src {
                Some(s) => s@,
                None => ""@,
            },
        ),
{
    proof {
        reveal_strlit("__SVO_RECEIPT_IMAGE_SRC__");
    }
    match inline_src {
        Some(s) => replace_all(html_body, crate::templates::RECEIPT_IMAGE_PLACEHOLDER, s),
        None => replace_all(html_body, crate::templates::RECEIPT_IMAGE_PLACEHOLDER, ""),
    }
}

} // verus!
