//! Match timeline events: reading lines of the NDJSON timeline a game
//! server uploads, the event types, and the checks on their fields.
use vstd::prelude::*;
use vstd::utf8::{decode_utf8, encode_utf8, valid_utf8};
use crate::ids::{hex_fixed, uuid_simple, uuid_simple_string};
use crate::json::{get_member, get_spec, int_of, json_document, json_view, text_of, JsonModel, JsonValue};
use crate::text::{is_blank, is_blank_str, push_str, push_decimal, decimal, str_equal, string_of, trim_spec};

verus! {

// ---------------------------------------------------------------------------
// Problems.
// ---------------------------------------------------------------------------

/// Why a timeline line was refused.
#[derive(Clone, Debug)]
pub enum ParseError {
    InvalidJson { line: u64, detail: String },
    MissingType { line: u64 },
    InvalidEvent { line: u64, event_type: String, detail: String },
}

impl ParseError {
    pub open spec fn text_spec(self) -> Seq<char> {
        match self {
            ParseError::InvalidJson { line, detail } => "line "@ + decimal(line as nat) + ": invalid JSON: "@
                + detail@,
            ParseError::MissingType { line } => "line "@ + decimal(line as nat)
                + ": missing or invalid event type"@,
            ParseError::InvalidEvent { line, event_type, detail } => "line "@ + decimal(line as nat)
                + ": invalid "@ + event_type@ + " event: "@ + detail@,
        }
    }

    /// The problem as text.
    pub fn text(&self) -> (r: String)
        ensures
            r@ == self.text_spec(),
    {
        let mut out: Vec<char> = Vec::new();
        push_str(&mut out, "line ");
        match self {
            ParseError::InvalidJson { line, detail } => {
                push_decimal(&mut out, *line);
                push_str(&mut out, ": invalid JSON: ");
                push_str(&mut out, detail.as_str());
            },
            ParseError::MissingType { line } => {
                push_decimal(&mut out, *line);
                push_str(&mut out, ": missing or invalid event type");
            },
            ParseError::InvalidEvent { line, event_type, detail } => {
                push_decimal(&mut out, *line);
                push_str(&mut out, ": invalid ");
                push_str(&mut out, event_type.as_str());
                push_str(&mut out, " event: ");
                push_str(&mut out, detail.as_str());
            },
        }
        string_of(out.as_slice())
    }
}

pub open spec fn invalid_is<T>(r: Result<T, ParseError>, line: u64, event_type: Seq<char>, detail: Seq<char>) -> bool {
    r matches Err(ParseError::InvalidEvent { line: l, event_type: t, detail: d }) && l == line && t@
        == event_type && d@ == detail
}

fn invalid(line: u64, event_type: &str, detail: String) -> (e: ParseError)
    ensures
        e matches ParseError::InvalidEvent { line: l, event_type: t, detail: d } && l == line && t@
            == event_type@ && d@ == detail@,
{
    ParseError::InvalidEvent { line, event_type: event_type.to_string(), detail }
}

fn field_message(field: &str, tail: &str) -> (r: String)
    ensures
        r@ == field@ + tail@,
{
    crate::text::concat_str(field, tail)
}

// ---------------------------------------------------------------------------
// Lines.
// ---------------------------------------------------------------------------

/// The line without a leading UTF-8 byte order mark.
pub open spec fn without_bom(bytes: Seq<u8>) -> Seq<u8> {
    if bytes.len() >= 3 && bytes[0] == 0xef && bytes[1] == 0xbb && bytes[2] == 0xbf {
        bytes.subrange(3, bytes.len() as int)
    } else {
        bytes
    }
}

pub fn strip_utf8_bom(bytes: &[u8]) -> (r: Vec<u8>)
    ensures
        r@ == without_bom(bytes@),
{
    let n: usize = bytes.len();
    let start: usize = if n >= 3 && bytes[0] == 0xef && bytes[1] == 0xbb && bytes[2] == 0xbf {
        3
    } else {
        0
    };
    let mut out: Vec<u8> = Vec::new();
    let mut k: usize = start;
    while k < n
        invariant
            start <= k <= n,
            n == bytes@.len(),
            out@ == bytes@.subrange(start as int, k as int),
        decreases n - k,
    {
        out.push(bytes[k]);
        assert(out@ =~= bytes@.subrange(start as int, k + 1));
        k = k + 1;
    }
    assert(bytes@.subrange(0, n as int) =~= bytes@);
    out
}

/// `u8::is_ascii_whitespace`: space, tab, line feed, form feed, carriage
/// return.
pub open spec fn is_ascii_ws(b: u8) -> bool {
    b == 0x20 || b == 0x09 || b == 0x0a || b == 0x0c || b == 0x0d
}

/// A line of only ASCII whitespace carries no event.
pub fn is_blank_line(bytes: &[u8]) -> (r: bool)
    ensures
        r == (forall|i: int| 0 <= i < bytes@.len() ==> is_ascii_ws(#[trigger] bytes@[i])),
{
    let n: usize = bytes.len();
    let mut k: usize = 0;
    while k < n
        invariant
            0 <= k <= n,
            n == bytes@.len(),
            forall|i: int| 0 <= i < k ==> is_ascii_ws(#[trigger] bytes@[i]),
        decreases n - k,
    {
        let b = bytes[k];
        if !(b == 0x20 || b == 0x09 || b == 0x0a || b == 0x0c || b == 0x0d) {
            assert(!is_ascii_ws(bytes@[k as int]));
            return false;
        }
        k = k + 1;
    }
    true
}

// ---------------------------------------------------------------------------
// Event types.
// ---------------------------------------------------------------------------

#[derive(Clone, Copy, Debug, PartialEq, Eq, Structural)]
pub enum EventKind {
    GameStarted,
    GameEnded,
    PlayerJoined,
    PlayerLeft,
    PlayerTeamChanged,
    PlayerDamage,
    PlayerDeath,
    VehicleDamage,
    VehicleDestroyed,
    /// Known to the game server but not counted.
    MoneyMovement,
    /// Not known; ignored with a warning.
    Unknown,
}

impl EventKind {
    pub open spec fn from_type(t: Seq<char>) -> EventKind {
        if t == "game_started"@ {
            EventKind::GameStarted
        } else if t == "game_ended"@ {
            EventKind::GameEnded
        } else if t == "player_joined"@ {
            EventKind::PlayerJoined
        } else if t == "player_left"@ {
            EventKind::PlayerLeft
        } else if t == "player_team_changed"@ {
            EventKind::PlayerTeamChanged
        } else if t == "player_damage"@ {
            EventKind::PlayerDamage
        } else if t == "player_death"@ {
            EventKind::PlayerDeath
        } else if t == "vehicle_damage"@ {
            EventKind::VehicleDamage
        } else if t == "vehicle_destroyed"@ {
            EventKind::VehicleDestroyed
        } else if t == "money_movement"@ {
            EventKind::MoneyMovement
        } else {
            EventKind::Unknown
        }
    }

    pub fn classify(t: &str) -> (r: EventKind)
        ensures
            r == EventKind::from_type(t@),
    {
        if str_equal(t, "game_started") {
            EventKind::GameStarted
        } else if str_equal(t, "game_ended") {
            EventKind::GameEnded
        } else if str_equal(t, "player_joined") {
            EventKind::PlayerJoined
        } else if str_equal(t, "player_left") {
            EventKind::PlayerLeft
        } else if str_equal(t, "player_team_changed") {
            EventKind::PlayerTeamChanged
        } else if str_equal(t, "player_damage") {
            EventKind::PlayerDamage
        } else if str_equal(t, "player_death") {
            EventKind::PlayerDeath
        } else if str_equal(t, "vehicle_damage") {
            EventKind::VehicleDamage
        } else if str_equal(t, "vehicle_destroyed") {
            EventKind::VehicleDestroyed
        } else if str_equal(t, "money_movement") {
            EventKind::MoneyMovement
        } else {
            EventKind::Unknown
        }
    }
}

/// The head of a line: its text, its event type and, for events that are
/// not read further, the timestamp when it is an integer.
#[derive(Clone, Debug)]
pub struct EventHead {
    pub text: String,
    pub event_type: String,
    pub kind: EventKind,
    pub timestamp_ms: Option<i64>,
}

/// Reads bytes as UTF-8 with `std::str::from_utf8`: the text they encode,
/// or `None` when they are not UTF-8.
#[verifier::external_body]
fn utf8_text(bytes: &[u8]) -> (r: Option<&str>)
    ensures
        match r {
            Some(t) => encode_utf8(t@) == bytes@,
            None => !valid_utf8(bytes@),
        },
{
    std::str::from_utf8(bytes).ok()
}

/// Every byte of the line is ASCII whitespace.
pub open spec fn is_blank_bytes(body: Seq<u8>) -> bool {
    forall|i: int| 0 <= i < body.len() ==> is_ascii_ws(#[trigger] body[i])
}

/// What reading the head of a line body (the line without its byte order
/// mark) gives: nothing for a blank line; invalid JSON for bytes that are not
/// UTF-8 or not a JSON document (the error's text is not fixed); a missing
/// type when `type` is not a string; else the head.
pub open spec fn head_outcome(body: Seq<u8>, line: u64, r: Result<Option<EventHead>, ParseError>) -> bool {
    if is_blank_bytes(body) {
        r matches Ok(None)
    } else if !valid_utf8(body) {
        r matches Err(ParseError::InvalidJson { line: l, .. }) && l == line
    } else {
        match json_document(decode_utf8(body)) {
            None => r matches Err(ParseError::InvalidJson { line: l, .. }) && l == line,
            Some(doc) => match text_of(get_spec(doc, "type"@)) {
                None => r matches Err(ParseError::MissingType { line: l }) && l == line,
                Some(ty) => r matches Ok(Some(h)) && h.text@ == decode_utf8(body) && h.event_type@ == ty
                    && h.kind == EventKind::from_type(ty) && h.timestamp_ms == int_of(
                    get_spec(doc, "timestampMs"@),
                ),
            },
        }
    }
}

/// Reads the head of a line, after a leading byte order mark.
pub fn read_event_head(bytes: &[u8], line: u64) -> (r: Result<Option<EventHead>, ParseError>)
    ensures
        head_outcome(without_bom(bytes@), line, r),
{
    let body = strip_utf8_bom(bytes);
    let blank = is_blank_line(body.as_slice());
    if blank {
        return Ok(None);
    }
    let t = match utf8_text(body.as_slice()) {
        Some(t) => t,
        None => {
            return Err(
                ParseError::InvalidJson {
                    line,
                    detail: "invalid UTF-8 in the line".to_string(),
                },
            );
        },
    };
    proof {
        vstd::utf8::encode_utf8_valid_utf8(t@);
        vstd::utf8::encode_utf8_decode_utf8(t@);
    }
    let doc = match crate::json::parse_json(t) {
        Some(d) => d,
        None => {
            return Err(ParseError::InvalidJson { line, detail: "the line is not a JSON document".to_string() });
        },
    };
    let ty = match crate::json::as_text(get_member(&doc, "type")) {
        Some(ty) => ty.to_string(),
        None => {
            return Err(ParseError::MissingType { line });
        },
    };
    let kind = EventKind::classify(ty.as_str());
    let timestamp_ms = crate::json::as_int(get_member(&doc, "timestampMs"));
    Ok(Some(EventHead { text: t.to_string(), event_type: ty, kind, timestamp_ms }))
}

/// A leading byte order mark changes nothing: a line read with one has
/// exactly the outcomes of the same line read without it.
pub proof fn lemma_bom_changes_nothing(line_bytes: Seq<u8>, line: u64, r: Result<Option<EventHead>, ParseError>)
    requires
        without_bom(line_bytes) == line_bytes,
    ensures
        head_outcome(without_bom(seq![0xefu8, 0xbbu8, 0xbfu8] + line_bytes), line, r) == head_outcome(
            without_bom(line_bytes),
            line,
            r,
        ),
{
    let with = seq![0xefu8, 0xbbu8, 0xbfu8] + line_bytes;
    assert(with.subrange(3, with.len() as int) =~= line_bytes);
}

// ---------------------------------------------------------------------------
// Fields.
// ---------------------------------------------------------------------------

/// Timestamps are non-negative.
pub fn check_timestamp(value: i64, line: u64, event_type: &str) -> (r: Result<i64, ParseError>)
    ensures
        value >= 0 ==> r == Ok::<i64, ParseError>(value),
        value < 0 ==> invalid_is(r, line, event_type@, "timestampMs must be non-negative"@),
{
    if value < 0 {
        return Err(invalid(line, event_type, "timestampMs must be non-negative".to_string()));
    }
    Ok(value)
}

/// Required texts must not be blank; the text is kept as it is.
pub fn check_non_empty(value: String, line: u64, event_type: &str, field: &str) -> (r: Result<
    String,
    ParseError,
>)
    ensures
        is_blank(value@) ==> invalid_is(r, line, event_type@, field@ + " must not be empty"@),
        !is_blank(value@) ==> (r matches Ok(v) && v@ == value@),
{
    if is_blank_str(value.as_str()) {
        return Err(invalid(line, event_type, field_message(field, " must not be empty")));
    }
    Ok(value)
}

/// Optional texts are dropped when blank.
pub fn normalize_optional(value: Option<String>) -> (r: Option<String>)
    ensures
        match value {
            Some(v) => if is_blank(v@) {
                r is None
            } else {
                r matches Some(x) && x@ == v@
            },
            None => r is None,
        },
{
    match value {
        Some(v) => if is_blank_str(v.as_str()) {
            None
        } else {
            Some(v)
        },
        None => None,
    }
}

/// What `Uuid::parse_str` gives for a text, as the UUID's value.
pub uninterp spec fn uuid_of_text(s: Seq<char>) -> Option<u128>;

/// Calls `uuid::Uuid::parse_str` and returns `Uuid::as_u128`; the outcome is
/// named by `uuid_of_text`.
#[verifier::external_body]
fn parse_uuid_text(s: &str) -> (r: Option<u128>)
    ensures
        r == uuid_of_text(s@),
{
    uuid::Uuid::parse_str(s).ok().map(|u| u.as_u128())
}

/// A UUID field.
pub fn check_uuid(value: &str, line: u64, event_type: &str, field: &str) -> (r: Result<u128, ParseError>)
    ensures
        match uuid_of_text(value@) {
            Some(u) => r == Ok::<u128, ParseError>(u),
            None => invalid_is(r, line, event_type@, field@ + " must be a UUID"@),
        },
{
    match parse_uuid_text(value) {
        Some(u) => Ok(u),
        None => Err(invalid(line, event_type, field_message(field, " must be a UUID"))),
    }
}

/// An optional UUID field.
pub fn check_optional_uuid(value: Option<String>, line: u64, event_type: &str, field: &str) -> (r: Result<
    Option<u128>,
    ParseError,
>)
    ensures
        match value {
            None => r == Ok::<Option<u128>, ParseError>(None),
            Some(v) => match uuid_of_text(v@) {
                Some(u) => r == Ok::<Option<u128>, ParseError>(Some(u)),
                None => invalid_is(r, line, event_type@, field@ + " must be a UUID"@),
            },
        },
{
    match value {
        None => Ok(None),
        Some(v) => match check_uuid(v.as_str(), line, event_type, field) {
            Ok(u) => Ok(Some(u)),
            Err(e) => Err(e),
        },
    }
}

/// The source of damage or of a death.
#[derive(Clone, Debug)]
pub struct DamageSource {
    pub kind: String,
    pub weapon_id: Option<String>,
}

/// The key damage and kills are broken down by: the weapon when named,
/// else the kind of source.
pub open spec fn breakdown_key_spec(kind: Seq<char>, weapon_id: Option<String>) -> Seq<char> {
    match weapon_id {
        Some(w) if w@.len() > 0 => w@,
        _ => kind,
    }
}

impl DamageSource {
    pub fn breakdown_key(&self) -> (r: String)
        ensures
            r@ == breakdown_key_spec(self.kind@, self.weapon_id),
    {
        match &self.weapon_id {
            Some(w) => {
                if crate::text::chars_of(w.as_str()).len() > 0 {
                    return w.clone();
                }
            },
            None => {},
        }
        self.kind.clone()
    }
}

/// A source has a non-blank kind; a blank weapon id is dropped.
pub fn check_source(kind: String, weapon_id: Option<String>, line: u64, event_type: &str) -> (r: Result<
    DamageSource,
    ParseError,
>)
    ensures
        is_blank(kind@) ==> invalid_is(r, line, event_type@, "source.type must not be empty"@),
        !is_blank(kind@) ==> (r matches Ok(s) && s.kind@ == kind@ && match weapon_id {
            Some(w) => if is_blank(w@) {
                s.weapon_id is None
            } else {
                s.weapon_id matches Some(x) && x@ == w@
            },
            None => s.weapon_id is None,
        }),
{
    proof {
        reveal_strlit("source.type");
        reveal_strlit(" must not be empty");
        reveal_strlit("source.type must not be empty");
        assert("source.type"@ + " must not be empty"@ =~= "source.type must not be empty"@);
    }
    match check_non_empty(kind, line, event_type, "source.type") {
        Ok(kind) => Ok(DamageSource { kind, weapon_id: normalize_optional(weapon_id) }),
        Err(e) => Err(e),
    }
}

/// A team that takes part: named, and not the spectators.
pub open spec fn valid_team_spec(team: Option<Seq<char>>) -> Option<Seq<char>> {
    match team {
        Some(t) => if t.len() > 0 && t != "Spectators"@ {
            Some(t)
        } else {
            None
        },
        None => None,
    }
}

pub fn valid_team(team: Option<&str>) -> (r: Option<&str>)
    ensures
        match r {
            Some(t) => valid_team_spec(
                match team {
                    Some(x) => Some(x@),
                    None => None,
                },
            ) == Some(t@),
            None => valid_team_spec(
                match team {
                    Some(x) => Some(x@),
                    None => None,
                },
            ) is None,
        },
{
    match team {
        Some(t) => if crate::text::chars_of(t).len() > 0 && !str_equal(t, "Spectators") {
            Some(t)
        } else {
            None
        },
        None => None,
    }
}

/// The name shown for a player who never joined: `Unknown-` and the first
/// eight hexadecimal digits of the id.
pub open spec fn fallback_nickname_spec(player_id: u128) -> Seq<char> {
    "Unknown-"@ + uuid_simple(player_id).subrange(0, 8)
}

pub fn fallback_nickname(player_id: u128) -> (r: String)
    ensures
        r@ == fallback_nickname_spec(player_id),
{
    let simple = uuid_simple_string(player_id);
    proof {
        crate::ids::lemma_uuid_simple_len(player_id);
    }
    let cs = crate::text::chars_of(simple.as_str());
    let head = crate::text::slice_copy(cs.as_slice(), 0, 8);
    let mut out: Vec<char> = Vec::new();
    push_str(&mut out, "Unknown-");
    crate::text::push_chars(&mut out, head.as_slice());
    string_of(out.as_slice())
}

} // verus!
