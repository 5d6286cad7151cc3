//! Littlemice client checks: a service asks for a snapshot of a player's
//! client, the client pushes screenshots, a log and client information
//! through a one-time URL, or reports an error; unanswered checks time out.
use vstd::prelude::*;
use vstd::utf8::encode_utf8;
use crate::ids::{is_random_v4, push_uuid, random_uuid, uuid_hyphenated, uuid_simple};
use crate::service_tokens::{hex_bytes, hex_string, sha256, sha256_of};
use crate::text::{has_prefix, push_str, str_equal, string_of, strip_prefix, trim, trim_spec};

verus! {

pub const STATUS_PENDING: &'static str = "pending";

pub const STATUS_PASSED: &'static str = "passed";

pub const STATUS_FAILED_TIMEOUT: &'static str = "failed_timeout";

pub const STATUS_FAILED_CLIENT_ERROR: &'static str = "failed_client_error";

pub const FAILURE_REASON_PUSH_TIMEOUT: &'static str = "push_timeout";

pub const FAILURE_REASON_CLIENT_ERROR: &'static str = "client_error";

pub const S3_PREFIX: &'static str = "littlemice";

/// The class of a problem, written as a prefix of its text.
#[derive(Clone, Copy, Debug, PartialEq, Eq, Structural)]
pub enum DomainKind {
    NotFound,
    Gone,
    Forbidden,
    BadRequest,
    Internal,
}

impl DomainKind {
    pub open spec fn name_spec(self) -> Seq<char> {
        match self {
            DomainKind::NotFound => "not_found"@,
            DomainKind::Gone => "gone"@,
            DomainKind::Forbidden => "forbidden"@,
            DomainKind::BadRequest => "bad_request"@,
            DomainKind::Internal => "internal"@,
        }
    }

    pub fn name(&self) -> (r: &'static str)
        ensures
            r@ == self.name_spec(),
    {
        match self {
            DomainKind::NotFound => "not_found",
            DomainKind::Gone => "gone",
            DomainKind::Forbidden => "forbidden",
            DomainKind::BadRequest => "bad_request",
            DomainKind::Internal => "internal",
        }
    }
}

/// A problem of a check operation.
#[derive(Clone, Debug)]
pub struct DomainProblem {
    pub kind: DomainKind,
    pub message: String,
}

pub open spec fn fails_as<T>(r: Result<T, DomainProblem>, kind: DomainKind, message: Seq<char>) -> bool {
    r matches Err(p) && p.kind == kind && p.message@ == message
}

impl DomainProblem {
    pub fn new(kind: DomainKind, message: &str) -> (p: DomainProblem)
        ensures
            p.kind == kind,
            p.message@ == message@,
    {
        DomainProblem { kind, message: message.to_string() }
    }

    /// The problem's text: the class, `": "`, then the message.
    pub fn render(&self) -> (r: String)
        ensures
            r@ == self.kind.name_spec() + ": "@ + self.message@,
    {
        let mut out: Vec<char> = Vec::new();
        push_str(&mut out, self.kind.name());
        push_str(&mut out, ": ");
        push_str(&mut out, self.message.as_str());
        string_of(out.as_slice())
    }
}

/// Reads the class back from a problem text: the known prefixes give their
/// class and the rest of the text; any other text is internal.
pub open spec fn domain_error_spec(message: Seq<char>) -> (Seq<char>, Seq<char>) {
    if has_prefix(message, "not_found: "@) {
        ("not_found"@, message.subrange(11, message.len() as int))
    } else if has_prefix(message, "gone: "@) {
        ("gone"@, message.subrange(6, message.len() as int))
    } else if has_prefix(message, "forbidden: "@) {
        ("forbidden"@, message.subrange(11, message.len() as int))
    } else if has_prefix(message, "bad_request: "@) {
        ("bad_request"@, message.subrange(13, message.len() as int))
    } else {
        ("internal"@, message)
    }
}

pub fn parse_domain_error(message: String) -> (r: (&'static str, String))
    ensures
        (r.0@, r.1@) == domain_error_spec(message@),
{
    proof {
        reveal_strlit("not_found: ");
        reveal_strlit("gone: ");
        reveal_strlit("forbidden: ");
        reveal_strlit("bad_request: ");
    }
    if let Some(d) = strip_prefix(message.as_str(), "not_found: ") {
        return ("not_found", d);
    }
    if let Some(d) = strip_prefix(message.as_str(), "gone: ") {
        return ("gone", d);
    }
    if let Some(d) = strip_prefix(message.as_str(), "forbidden: ") {
        return ("forbidden", d);
    }
    if let Some(d) = strip_prefix(message.as_str(), "bad_request: ") {
        return ("bad_request", d);
    }
    ("internal", message)
}

/// Reading a rendered problem back gives its class and message (for the
/// four classes that are written with a prefix).
pub proof fn lemma_parse_rendered_problem(kind: DomainKind, message: Seq<char>)
    requires
        kind != DomainKind::Internal,
    ensures
        domain_error_spec(kind.name_spec() + ": "@ + message) == (kind.name_spec(), message),
{
    reveal_strlit("not_found: ");
    reveal_strlit("gone: ");
    reveal_strlit("forbidden: ");
    reveal_strlit("bad_request: ");
    reveal_strlit("not_found");
    reveal_strlit("gone");
    reveal_strlit("forbidden");
    reveal_strlit("bad_request");
    reveal_strlit(": ");
    let m = kind.name_spec() + ": "@ + message;
    let p = kind.name_spec() + ": "@;
    assert(m =~= p + message);
    assert(m.subrange(0, p.len() as int) =~= p);
    assert(m.subrange(p.len() as int, m.len() as int) =~= message);
    match kind {
        DomainKind::NotFound => {
            assert(p =~= "not_found: "@);
        },
        DomainKind::Gone => {
            assert(p =~= "gone: "@);
            assert(m[0] != "not_found: "@[0]);
        },
        DomainKind::Forbidden => {
            assert(p =~= "forbidden: "@);
            assert(m[0] != "not_found: "@[0]);
            assert(m[0] != "gone: "@[0]);
        },
        DomainKind::BadRequest => {
            assert(p =~= "bad_request: "@);
            assert(m[0] != "not_found: "@[0]);
            assert(m[0] != "gone: "@[0]);
            assert(m[0] != "forbidden: "@[0]);
        },
        DomainKind::Internal => {},
    }
}

// ---------------------------------------------------------------------------
// Pushes.
// ---------------------------------------------------------------------------

/// What a client pushes.
#[derive(Clone, Debug)]
pub struct PushLittlemicePayload {
    pub screenshot_bytes: Vec<u8>,
    pub screenshot_content_type: String,
    pub screenshot2_bytes: Option<Vec<u8>>,
    pub screenshot2_content_type: Option<String>,
    pub log_bytes: Option<Vec<u8>>,
    pub log_content_type: Option<String>,
    pub client_info_text: Option<String>,
}

/// What a client reports instead of a push.
#[derive(Clone, Debug)]
pub struct FailLittlemiceCheckPayload {
    pub error_message: String,
    pub stacktrace: Option<String>,
}

/// The configured size limits, in bytes.
#[derive(Clone, Copy, Debug)]
pub struct LittlemiceLimits {
    pub screenshot_max_bytes: usize,
    pub info_max_bytes: usize,
}

/// A push carries a non-empty screenshot, and no part over its limit.
pub fn validate_push_payload(payload: &PushLittlemicePayload, limits: LittlemiceLimits) -> (r: Result<
    (),
    DomainProblem,
>)
    ensures
        payload.screenshot_bytes@.len() == 0 ==> fails_as(
            r,
            DomainKind::BadRequest,
            "screenshot is required"@,
        ),
        payload.screenshot_bytes@.len() > 0 && payload.screenshot_bytes@.len()
            > limits.screenshot_max_bytes ==> fails_as(
            r,
            DomainKind::BadRequest,
            "screenshot exceeds size limit"@,
        ),
        0 < payload.screenshot_bytes@.len() <= limits.screenshot_max_bytes ==> {
            if payload.screenshot2_bytes matches Some(b) && b@.len() > limits.screenshot_max_bytes {
                fails_as(r, DomainKind::BadRequest, "screenshot2 exceeds size limit"@)
            } else if payload.client_info_text matches Some(t) && encode_utf8(t@).len()
                > limits.info_max_bytes {
                fails_as(r, DomainKind::BadRequest, "client info exceeds size limit"@)
            } else {
                r is Ok
            }
        },
{
    let n = payload.screenshot_bytes.len();
    if n == 0 {
        return Err(DomainProblem::new(DomainKind::BadRequest, "screenshot is required"));
    }
    if n > limits.screenshot_max_bytes {
        return Err(DomainProblem::new(DomainKind::BadRequest, "screenshot exceeds size limit"));
    }
    if let Some(b) = &payload.screenshot2_bytes {
        if b.len() > limits.screenshot_max_bytes {
            return Err(DomainProblem::new(DomainKind::BadRequest, "screenshot2 exceeds size limit"));
        }
    }
    if let Some(t) = &payload.client_info_text {
        if t.as_str().as_bytes().len() > limits.info_max_bytes {
            return Err(DomainProblem::new(DomainKind::BadRequest, "client info exceeds size limit"));
        }
    }
    Ok(())
}

/// A push is accepted only for a pending check whose URL has not expired.
pub fn check_push_target(status: &str, push_token_expires_at: i64, now: i64) -> (r: Result<
    (),
    DomainProblem,
>)
    ensures
        status@ != "pending"@ ==> fails_as(
            r,
            DomainKind::Forbidden,
            "Littlemice check is no longer pending"@,
        ),
        status@ == "pending"@ && push_token_expires_at <= now ==> fails_as(
            r,
            DomainKind::Gone,
            "Littlemice push token expired"@,
        ),
        status@ == "pending"@ && push_token_expires_at > now ==> r is Ok,
{
    if !str_equal(status, STATUS_PENDING) {
        return Err(DomainProblem::new(DomainKind::Forbidden, "Littlemice check is no longer pending"));
    }
    if push_token_expires_at <= now {
        return Err(DomainProblem::new(DomainKind::Gone, "Littlemice push token expired"));
    }
    Ok(())
}

/// A service may fail only the pending checks it created.
pub fn check_fail_access(check_service_name: &str, service_name: &str, status: &str) -> (r: Result<
    (),
    DomainProblem,
>)
    ensures
        check_service_name@ != service_name@ ==> fails_as(
            r,
            DomainKind::Forbidden,
            "Service token cannot access checks created by another service"@,
        ),
        check_service_name@ == service_name@ && status@ != "pending"@ ==> fails_as(
            r,
            DomainKind::Forbidden,
            "Littlemice check is no longer pending"@,
        ),
        check_service_name@ == service_name@ && status@ == "pending"@ ==> r is Ok,
{
    if !str_equal(check_service_name, service_name) {
        return Err(
            DomainProblem::new(
                DomainKind::Forbidden,
                "Service token cannot access checks created by another service",
            ),
        );
    }
    if !str_equal(status, STATUS_PENDING) {
        return Err(DomainProblem::new(DomainKind::Forbidden, "Littlemice check is no longer pending"));
    }
    Ok(())
}

/// The text stored for a client error: the trimmed message, then the
/// trimmed stack trace under a `stacktrace:` line when there is one.
pub open spec fn client_error_text_spec(error_message: Seq<char>, stacktrace: Option<String>) -> Seq<
    char,
> {
    let head = "clientError: "@ + trim_spec(error_message);
    match stacktrace {
        Some(s) => if trim_spec(s@).len() > 0 {
            head + "\nstacktrace:\n"@ + trim_spec(s@)
        } else {
            head
        },
        None => head,
    }
}

pub fn format_client_error_text(payload: &FailLittlemiceCheckPayload, info_max_bytes: usize) -> (r:
    Result<String, DomainProblem>)
    ensures
        encode_utf8(client_error_text_spec(payload.error_message@, payload.stacktrace)).len()
            > info_max_bytes ==> fails_as(
            r,
            DomainKind::BadRequest,
            "client error payload exceeds size limit"@,
        ),
        encode_utf8(client_error_text_spec(payload.error_message@, payload.stacktrace)).len()
            <= info_max_bytes ==> (r matches Ok(t) && t@ == client_error_text_spec(
            payload.error_message@,
            payload.stacktrace,
        )),
{
    let mut out: Vec<char> = Vec::new();
    push_str(&mut out, "clientError: ");
    let message = trim(payload.error_message.as_str());
    push_str(&mut out, message.as_str());
    if let Some(s) = &payload.stacktrace {
        let t = trim(s.as_str());
        if crate::text::chars_of(t.as_str()).len() > 0 {
            push_str(&mut out, "\nstacktrace:\n");
            push_str(&mut out, t.as_str());
        }
    }
    let text = string_of(out.as_slice());
    if text.as_str().as_bytes().len() > info_max_bytes {
        return Err(
            DomainProblem::new(DomainKind::BadRequest, "client error payload exceeds size limit"),
        );
    }
    Ok(text)
}

/// The one-time secret of a push URL: `lm_`, a random version-4 UUID, `_`,
/// and another random version-4 UUID without hyphens.
pub fn generate_push_secret() -> (s: String)
    ensures
        exists|a: u128, b: u128|
            is_random_v4(a) && is_random_v4(b) && s@ == "lm_"@ + uuid_hyphenated(a) + "_"@ + uuid_simple(b),
{
    let a = random_uuid();
    let b = random_uuid();
    let mut out: Vec<char> = Vec::new();
    push_str(&mut out, "lm_");
    push_uuid(&mut out, a);
    push_str(&mut out, "_");
    let simple = crate::ids::uuid_simple_string(b);
    push_str(&mut out, simple.as_str());
    let s = string_of(out.as_slice());
    assert(s@ == "lm_"@ + uuid_hyphenated(a) + "_"@ + uuid_simple(b));
    s
}

/// The stored hash of a push secret: SHA-256 over the signing secret,
/// `:littlemice:` and the push secret, in hexadecimal.
pub open spec fn push_secret_hash(secret: Seq<char>, jwt_secret: Seq<char>) -> Seq<char> {
    hex_bytes(sha256_of(encode_utf8(jwt_secret) + encode_utf8(":littlemice:"@) + encode_utf8(secret)))
}

fn append_bytes(data: &mut Vec<u8>, bytes: &[u8])
    ensures
        final(data)@ == old(data)@ + bytes@,
{
    let ghost start = data@;
    let mut k: usize = 0;
    while k < bytes.len()
        invariant
            0 <= k <= bytes@.len(),
            data@ == start + bytes@.subrange(0, k as int),
        decreases bytes@.len() - k,
    {
        data.push(bytes[k]);
        assert(data@ =~= start + bytes@.subrange(0, k + 1));
        k = k + 1;
    }
    assert(bytes@.subrange(0, bytes@.len() as int) =~= bytes@);
}

pub fn hash_push_secret(secret: &str, jwt_secret: &str) -> (r: String)
    ensures
        r@ == push_secret_hash(secret@, jwt_secret@),
{
    let mut data: Vec<u8> = Vec::new();
    append_bytes(&mut data, jwt_secret.as_bytes());
    append_bytes(&mut data, ":littlemice:".as_bytes());
    append_bytes(&mut data, secret.as_bytes());
    assert(data@ =~= encode_utf8(jwt_secret@) + encode_utf8(":littlemice:"@) + encode_utf8(secret@));
    let digest = sha256(data.as_slice());
    hex_string(digest.as_slice())
}

/// `littlemice/<check id>/<name>`, where the files of a check are stored.
pub open spec fn object_key_spec(check_id: u128, name: Seq<char>) -> Seq<char> {
    "littlemice/"@ + uuid_hyphenated(check_id) + "/"@ + name
}

fn object_key(check_id: u128, name: &str) -> (r: String)
    ensures
        r@ == object_key_spec(check_id, name@),
{
    let mut out: Vec<char> = Vec::new();
    push_str(&mut out, "littlemice/");
    push_uuid(&mut out, check_id);
    push_str(&mut out, "/");
    push_str(&mut out, name);
    string_of(out.as_slice())
}

pub fn screenshot_key(check_id: u128) -> (r: String)
    ensures
        r@ == object_key_spec(check_id, "screenshot"@),
{
    object_key(check_id, "screenshot")
}

pub fn screenshot2_key(check_id: u128) -> (r: String)
    ensures
        r@ == object_key_spec(check_id, "screenshot2"@),
{
    object_key(check_id, "screenshot2")
}

pub fn log_key(check_id: u128) -> (r: String)
    ensures
        r@ == object_key_spec(check_id, "log"@),
{
    object_key(check_id, "log")
}

/// The URL a client pushes to.
pub fn push_url(public_base_url: &str, push_secret: &str) -> (r: String)
    ensures
        r@ == public_base_url@ + "/api/littlemice/push/"@ + push_secret@,
{
    let mut out: Vec<char> = Vec::new();
    push_str(&mut out, public_base_url);
    push_str(&mut out, "/api/littlemice/push/");
    push_str(&mut out, push_secret);
    string_of(out.as_slice())
}

/// The last `max_bytes` bytes of a log (all of it when shorter).
pub fn truncate_log_bytes(log_bytes: Vec<u8>, max_bytes: usize) -> (r: Vec<u8>)
    ensures
        log_bytes@.len() <= max_bytes ==> r@ == log_bytes@,
        log_bytes@.len() > max_bytes ==> r@ == log_bytes@.subrange(
            log_bytes@.len() - max_bytes,
            log_bytes@.len() as int,
        ),
{
    let n: usize = log_bytes.len();
    if n <= max_bytes {
        return log_bytes;
    }
    let start: usize = n - max_bytes;
    let mut out: Vec<u8> = Vec::new();
    let mut k: usize = start;
    while k < n
        invariant
            start <= k <= n,
            n == log_bytes@.len(),
            out@ == log_bytes@.subrange(start as int, k as int),
        decreases n - k,
    {
        out.push(log_bytes[k]);
        assert(out@ =~= log_bytes@.subrange(start as int, k + 1));
        k = k + 1;
    }
    out
}

/// Where and how much of a push is stored.
#[derive(Clone, Debug)]
pub struct StoredPush {
    pub screenshot_key: String,
    pub screenshot_content_type: String,
    pub screenshot_size_bytes: i64,
    pub screenshot2_key: Option<String>,
    pub screenshot2_content_type: String,
    pub screenshot2_size_bytes: Option<i64>,
    pub log_key: Option<String>,
    pub log_content_type: String,
    pub log_size_bytes: Option<i64>,
    pub client_info_size_bytes: Option<i64>,
}

/// The storage plan of an accepted push: object keys for the parts that
/// were sent, their content types (with defaults) and sizes in bytes.
pub fn stored_push(check_id: u128, payload: &PushLittlemicePayload) -> (r: StoredPush)
    requires
        payload.screenshot_bytes@.len() <= i64::MAX,
        payload.screenshot2_bytes matches Some(b) ==> b@.len() <= i64::MAX,
        payload.log_bytes matches Some(b) ==> b@.len() <= i64::MAX,
        payload.client_info_text matches Some(t) ==> encode_utf8(t@).len() <= i64::MAX,
    ensures
        r.screenshot_key@ == object_key_spec(check_id, "screenshot"@),
        r.screenshot_content_type@ == payload.screenshot_content_type@,
        r.screenshot_size_bytes == payload.screenshot_bytes@.len(),
        match payload.screenshot2_bytes {
            Some(b) => r.screenshot2_key matches Some(k) && k@ == object_key_spec(
                check_id,
                "screenshot2"@,
            ) && r.screenshot2_size_bytes == Some(b@.len() as i64),
            None => r.screenshot2_key is None && r.screenshot2_size_bytes is None,
        },
        r.screenshot2_content_type@ == match payload.screenshot2_content_type {
            Some(t) => t@,
            None => "application/octet-stream"@,
        },
        match payload.log_bytes {
            Some(b) => r.log_key matches Some(k) && k@ == object_key_spec(check_id, "log"@)
                && r.log_size_bytes == Some(b@.len() as i64),
            None => r.log_key is None && r.log_size_bytes is None,
        },
        r.log_content_type@ == match payload.log_content_type {
            Some(t) => t@,
            None => "text/plain; charset=utf-8"@,
        },
        r.client_info_size_bytes == match payload.client_info_text {
            Some(t) => Some(encode_utf8(t@).len() as i64),
            None => None::<i64>,
        },
{
    let (screenshot2_key_v, screenshot2_size) = match &payload.screenshot2_bytes {
        Some(b) => (Some(screenshot2_key(check_id)), Some(b.len() as i64)),
        None => (None, None),
    };
    let (log_key_v, log_size) = match &payload.log_bytes {
        Some(b) => (Some(log_key(check_id)), Some(b.len() as i64)),
        None => (None, None),
    };
    StoredPush {
        screenshot_key: screenshot_key(check_id),
        screenshot_content_type: payload.screenshot_content_type.clone(),
        screenshot_size_bytes: payload.screenshot_bytes.len() as i64,
        screenshot2_key: screenshot2_key_v,
        screenshot2_content_type: match &payload.screenshot2_content_type {
            Some(t) => t.clone(),
            None => "application/octet-stream".to_string(),
        },
        screenshot2_size_bytes: screenshot2_size,
        log_key: log_key_v,
        log_content_type: match &payload.log_content_type {
            Some(t) => t.clone(),
            None => "text/plain; charset=utf-8".to_string(),
        },
        log_size_bytes: log_size,
        client_info_size_bytes: match &payload.client_info_text {
            Some(t) => Some(t.as_str().as_bytes().len() as i64),
            None => None,
        },
    }
}

/// The Discord line logged when a check times out.
pub open spec fn timeout_message_spec(
    player_uuid: u128,
    check_id: u128,
    service_system_name: Seq<char>,
    expires_at_text: Seq<char>,
) -> Seq<char> {
    "Littlemice timeout: player `"@ + uuid_hyphenated(player_uuid)
        + "` did not upload snapshot in time. Check `"@ + uuid_hyphenated(check_id)
        + "` requested by service `"@ + service_system_name + "` expired at `"@ + expires_at_text + "`."@
}

pub fn timeout_message(
    player_uuid: u128,
    check_id: u128,
    service_system_name: &str,
    expires_at_text: &str,
) -> (r: String)
    ensures
        r@ == timeout_message_spec(player_uuid, check_id, service_system_name@, expires_at_text@),
{
    let mut out: Vec<char> = Vec::new();
    push_str(&mut out, "Littlemice timeout: player `");
    push_uuid(&mut out, player_uuid);
    push_str(&mut out, "` did not upload snapshot in time. Check `");
    push_uuid(&mut out, check_id);
    push_str(&mut out, "` requested by service `");
    push_str(&mut out, service_system_name);
    push_str(&mut out, "` expired at `");
    push_str(&mut out, expires_at_text);
    push_str(&mut out, "`.");
    string_of(out.as_slice())
}

/// The zero-based page fetched for a one-based page number.
pub fn page_index(page: u64) -> (r: u64)
    ensures
        r == (if page == 0 {
            0
        } else {
            page - 1
        }),
{
    if page == 0 {
        0
    } else {
        page - 1
    }
}

} // verus!
