//! Service tokens: the `svcs_<prefix>_<secret>` format, issuing tokens,
//! hashing their secrets and the checks made when a service authenticates.
use vstd::prelude::*;
use vstd::utf8::encode_utf8;
use crate::ids::{hex_fixed, random_uuid, uuid_simple, uuid_simple_string};
use crate::ownership::{asset_key_outcome, result_view, validate_asset_key, OwnershipError};
use crate::text::{
    chars_of, hex_char, is_blank, is_blank_str, is_ws, push_str, str_equal, string_of, trim,
    trim_spec,
};

verus! {

pub const ACTION_SERVICE_TOKEN_CREATED: &'static str = "service_token.created";

pub const ACTION_SERVICE_TOKEN_ROTATED: &'static str = "service_token.rotated";

pub const ACTION_SERVICE_TOKEN_REVOKED: &'static str = "service_token.revoked";

/// The prefix by which a token is looked up has 12 bytes.
pub const TOKEN_PREFIX_LEN: usize = 12;

#[derive(Clone, Copy, Debug, PartialEq, Eq, Structural)]
pub enum TokenError {
    InvalidToken,
    NotFound,
    Inactive,
    Expired,
    SecretMismatch,
    AlreadyInactive,
    SystemNameTaken,
}

impl TokenError {
    pub open spec fn message_spec(self) -> Seq<char> {
        match self {
            TokenError::InvalidToken => "Invalid service token"@,
            TokenError::NotFound => "Service token not found"@,
            TokenError::Inactive => "Service token is inactive"@,
            TokenError::Expired => "Service token expired"@,
            TokenError::SecretMismatch => "Service token invalid"@,
            TokenError::AlreadyInactive => "Service token is already inactive"@,
            TokenError::SystemNameTaken => "System name is already taken"@,
        }
    }

    pub fn message(&self) -> (r: &'static str)
        ensures
            r@ == self.message_spec(),
    {
        match self {
            TokenError::InvalidToken => "Invalid service token",
            TokenError::NotFound => "Service token not found",
            TokenError::Inactive => "Service token is inactive",
            TokenError::Expired => "Service token expired",
            TokenError::SecretMismatch => "Service token invalid",
            TokenError::AlreadyInactive => "Service token is already inactive",
            TokenError::SystemNameTaken => "System name is already taken",
        }
    }
}

/// System names follow the asset key rules.
pub fn validate_system_name(value: &str) -> (r: Result<String, OwnershipError>)
    ensures
        result_view(r) == asset_key_outcome(value@),
{
    validate_asset_key(value)
}

// ---------------------------------------------------------------------------
// The token format.
// ---------------------------------------------------------------------------

/// The pieces of `s` between occurrences of `sep` (`str::split`).
pub open spec fn split_parts(s: Seq<char>, sep: char) -> Seq<Seq<char>>
    decreases s.len(),
{
    if s.len() == 0 {
        seq![Seq::empty()]
    } else {
        let rest = split_parts(s.drop_last(), sep);
        if s.last() == sep {
            rest.push(Seq::empty())
        } else {
            rest.update(rest.len() - 1, rest.last().push(s.last()))
        }
    }
}

pub(crate) proof fn lemma_split_parts_nonempty(s: Seq<char>, sep: char)
    ensures
        split_parts(s, sep).len() >= 1,
    decreases s.len(),
{
    if s.len() > 0 {
        lemma_split_parts_nonempty(s.drop_last(), sep);
    }
}

/// A token is `svcs`, a 12-byte prefix and a non-blank secret, separated
/// by underscores.
pub open spec fn token_outcome(token: Seq<char>) -> Option<(Seq<char>, Seq<char>)> {
    let parts = split_parts(token, '_');
    if parts.len() == 3 && parts[0] == "svcs"@ && encode_utf8(parts[1]).len() == 12 && !is_blank(
        parts[2],
    ) {
        Some((parts[1], parts[2]))
    } else {
        None
    }
}

/// Splits the characters at `sep`.
pub(crate) fn split_chars(cs: &Vec<char>, sep: char) -> (parts: Vec<Vec<char>>)
    ensures
        parts@.len() == split_parts(cs@, sep).len(),
        forall|k: int| 0 <= k < parts@.len() ==> (#[trigger] parts@[k])@ == split_parts(cs@, sep)[k],
{
    let n: usize = cs.len();
    let mut parts: Vec<Vec<char>> = Vec::new();
    parts.push(Vec::new());
    let mut i: usize = 0;
    assert(cs@.subrange(0, 0) =~= Seq::<char>::empty());
    while i < n
        invariant
            0 <= i <= n,
            n == cs@.len(),
            parts@.len() >= 1,
            parts@.len() == split_parts(cs@.subrange(0, i as int), sep).len(),
            forall|k: int|
                0 <= k < parts@.len() ==> (#[trigger] parts@[k])@ == split_parts(
                    cs@.subrange(0, i as int),
                    sep,
                )[k],
        decreases n - i,
    {
        let c = cs[i];
        let ghost prev = split_parts(cs@.subrange(0, i as int), sep);
        assert(cs@.subrange(0, i + 1).drop_last() =~= cs@.subrange(0, i as int));
        assert(cs@.subrange(0, i + 1).last() == c);
        if c == sep {
            parts.push(Vec::new());
        } else {
            let last: usize = parts.len() - 1;
            let mut piece = parts.pop().unwrap();
            piece.push(c);
            parts.push(piece);
            proof {
                assert forall|k: int| 0 <= k < parts@.len() implies (#[trigger] parts@[k])@
                    == split_parts(cs@.subrange(0, i + 1), sep)[k] by {
                    if k < last {
                    } else {
                    }
                }
            }
        }
        i = i + 1;
    }
    assert(cs@.subrange(0, n as int) =~= cs@);
    parts
}

/// Splits a token into its prefix and secret.
pub fn parse_plaintext_token(token: &str) -> (r: Result<(String, String), TokenError>)
    ensures
        match token_outcome(token@) {
            Some((p, s)) => r matches Ok((a, b)) && a@ == p && b@ == s,
            None => r == Err::<(String, String), TokenError>(TokenError::InvalidToken),
        },
{
    let cs = chars_of(token);
    let parts = split_chars(&cs, '_');
    if parts.len() != 3 {
        return Err(TokenError::InvalidToken);
    }
    let kind = string_of(parts[0].as_slice());
    let prefix = string_of(parts[1].as_slice());
    let secret = string_of(parts[2].as_slice());
    if !str_equal(kind.as_str(), "svcs") || prefix.as_str().as_bytes().len() != TOKEN_PREFIX_LEN || is_blank_str(
        secret.as_str(),
    ) {
        return Err(TokenError::InvalidToken);
    }
    assert(split_parts(token@, '_')[1] == prefix@);
    assert(split_parts(token@, '_')[2] == secret@);
    assert(split_parts(token@, '_')[0] == kind@);
    Ok((prefix, secret))
}

// ---------------------------------------------------------------------------
// Issuing tokens.
// ---------------------------------------------------------------------------

pub open spec fn is_hex_text(s: Seq<char>) -> bool {
    forall|i: int| 0 <= i < s.len() ==> ('0' <= #[trigger] s[i] <= '9' || 'a' <= s[i] <= 'f')
}

proof fn lemma_hex_fixed_is_hex(v: nat, width: nat)
    ensures
        is_hex_text(hex_fixed(v, width)),
        hex_fixed(v, width).len() == width,
    decreases width,
{
    if width > 0 {
        lemma_hex_fixed_is_hex(v / 16, (width - 1) as nat);
        let d = (v % 16) as int;
        assert('0' <= hex_char(d) <= '9' || 'a' <= hex_char(d) <= 'f');
    }
}

/// Splitting a text without the separator gives the text itself.
proof fn lemma_split_without_sep(s: Seq<char>, sep: char)
    requires
        forall|i: int| 0 <= i < s.len() ==> s[i] != sep,
    ensures
        split_parts(s, sep) == seq![s],
    decreases s.len(),
{
    if s.len() > 0 {
        lemma_split_without_sep(s.drop_last(), sep);
        assert(s.drop_last().push(s.last()) =~= s);
        let rest = seq![s.drop_last()];
        assert(rest.update(rest.len() - 1, rest.last().push(s.last())) =~= seq![s]);
    } else {
        assert(s =~= Seq::<char>::empty());
    }
}

/// Splitting `a + sep + b` where `b` has no separator adds `b` as the last
/// piece.
proof fn lemma_split_append(a: Seq<char>, b: Seq<char>, sep: char)
    requires
        forall|i: int| 0 <= i < b.len() ==> b[i] != sep,
    ensures
        split_parts(a + seq![sep] + b, sep) == split_parts(a, sep).push(b),
    decreases b.len(),
{
    let w = a + seq![sep] + b;
    if b.len() == 0 {
        assert(w.drop_last() =~= a);
        assert(w.last() == sep);
        assert(b =~= Seq::<char>::empty());
    } else {
        lemma_split_append(a, b.drop_last(), sep);
        assert(w.drop_last() =~= a + seq![sep] + b.drop_last());
        assert(w.last() == b.last());
        assert(b.drop_last().push(b.last()) =~= b);
        lemma_split_parts_nonempty(a, sep);
        let r = split_parts(a, sep).push(b.drop_last());
        assert(r.update(r.len() - 1, r.last().push(b.last())) =~= split_parts(a, sep).push(b));
    }
}

/// A token built from `svcs`, a 12-digit hexadecimal prefix and a
/// non-empty hexadecimal secret is read back as that prefix and secret.
pub proof fn lemma_issued_token_parses(prefix: Seq<char>, secret: Seq<char>)
    requires
        is_hex_text(prefix),
        prefix.len() == 12,
        is_hex_text(secret),
        secret.len() > 0,
    ensures
        token_outcome("svcs"@ + seq!['_'] + prefix + seq!['_'] + secret) == Some((prefix, secret)),
{
    reveal_strlit("svcs");
    let kind = "svcs"@;
    assert(forall|i: int| 0 <= i < kind.len() ==> kind[i] != '_');
    assert(forall|i: int| 0 <= i < prefix.len() ==> prefix[i] != '_');
    assert(forall|i: int| 0 <= i < secret.len() ==> secret[i] != '_');
    lemma_split_without_sep(kind, '_');
    lemma_split_append(kind, prefix, '_');
    lemma_split_append(kind + seq!['_'] + prefix, secret, '_');
    let parts = split_parts("svcs"@ + seq!['_'] + prefix + seq!['_'] + secret, '_');
    assert(parts =~= seq![kind, prefix, secret]);
    assert(vstd::utf8::is_ascii_chars(prefix));
    vstd::utf8::is_ascii_chars_encode_utf8(prefix);
    assert(!is_ws(secret[0]));
}


/// A freshly issued token: its plaintext (shown once), the prefix it is
/// looked up by, and the secret whose hash is stored.
#[derive(Clone, Debug)]
pub struct IssuedToken {
    pub plaintext_token: String,
    pub token_prefix: String,
    pub secret: String,
}

/// Issues a token `svcs_<prefix>_<secret>`: the first 12 digits of a random
/// UUID, then the 96 digits of three more.
pub fn generate_plaintext_token() -> (t: IssuedToken)
    ensures
        t.token_prefix@.len() == 12,
        is_hex_text(t.token_prefix@),
        t.secret@.len() == 96,
        is_hex_text(t.secret@),
        t.plaintext_token@ == "svcs"@ + seq!['_'] + t.token_prefix@ + seq!['_'] + t.secret@,
        token_outcome(t.plaintext_token@) == Some((t.token_prefix@, t.secret@)),
{
    let ua = random_uuid();
    let ub = random_uuid();
    let uc = random_uuid();
    let ud = random_uuid();
    let a = uuid_simple_string(ua);
    let b = uuid_simple_string(ub);
    let c = uuid_simple_string(uc);
    let d = uuid_simple_string(ud);
    proof {
        lemma_hex_fixed_is_hex(ua as nat, 32);
        lemma_hex_fixed_is_hex(ub as nat, 32);
        lemma_hex_fixed_is_hex(uc as nat, 32);
        lemma_hex_fixed_is_hex(ud as nat, 32);
    }
    let a_chars = chars_of(a.as_str());
    let mut prefix_chars: Vec<char> = Vec::new();
    let mut i: usize = 0;
    while i < 12
        invariant
            0 <= i <= 12,
            a_chars@ == a@,
            a@.len() == 32,
            is_hex_text(a@),
            prefix_chars@ == a@.subrange(0, i as int),
        decreases 12 - i,
    {
        prefix_chars.push(a_chars[i]);
        assert(prefix_chars@ =~= a@.subrange(0, i + 1));
        i = i + 1;
    }
    let prefix = string_of(prefix_chars.as_slice());
    let mut secret_chars: Vec<char> = Vec::new();
    push_str(&mut secret_chars, b.as_str());
    push_str(&mut secret_chars, c.as_str());
    push_str(&mut secret_chars, d.as_str());
    let secret = string_of(secret_chars.as_slice());
    let mut out: Vec<char> = Vec::new();
    push_str(&mut out, "svcs_");
    push_str(&mut out, prefix.as_str());
    push_str(&mut out, "_");
    push_str(&mut out, secret.as_str());
    proof {
        reveal_strlit("svcs_");
        reveal_strlit("svcs");
        reveal_strlit("_");
        assert("svcs_"@ =~= "svcs"@ + seq!['_']);
        assert(out@ =~= "svcs"@ + seq!['_'] + prefix@ + seq!['_'] + secret@);
        assert(is_hex_text(prefix@));
        assert(secret@ =~= b@ + c@ + d@);
        assert(is_hex_text(secret@)) by {
            assert forall|k: int| 0 <= k < secret@.len() implies ('0' <= #[trigger] secret@[k] <= '9'
                || 'a' <= secret@[k] <= 'f') by {
                if k < 32 {
                    assert(secret@[k] == b@[k]);
                } else if k < 64 {
                    assert(secret@[k] == c@[k - 32]);
                } else {
                    assert(secret@[k] == d@[k - 64]);
                }
            }
        }
        lemma_issued_token_parses(prefix@, secret@);
    }
    IssuedToken { plaintext_token: string_of(out.as_slice()), token_prefix: prefix, secret }
}

// ---------------------------------------------------------------------------
// Hashing and authentication.
// ---------------------------------------------------------------------------

/// The SHA-256 digest of a byte sequence.
pub uninterp spec fn sha256_of(data: Seq<u8>) -> Seq<u8>;

/// Calls `sha2::Sha256::digest`; the digest is named by `sha256_of` and,
/// as SHA-256 digests are, 32 bytes long.
#[verifier::external_body]
pub(crate) fn sha256(data: &[u8]) -> (r: Vec<u8>)
    ensures
        r@ == sha256_of(data@),
        r@.len() == 32,
{
    <sha2::Sha256 as sha2::Digest>::digest(data).to_vec()
}

/// Two lower-case hexadecimal digits per byte (`format!("{byte:02x}")`).
pub open spec fn hex_bytes(bytes: Seq<u8>) -> Seq<char>
    decreases bytes.len(),
{
    if bytes.len() == 0 {
        Seq::empty()
    } else {
        hex_bytes(bytes.drop_last()).push(hex_char((bytes.last() / 16) as int)).push(
            hex_char((bytes.last() % 16) as int),
        )
    }
}

pub fn hex_string(bytes: &[u8]) -> (r: String)
    ensures
        r@ == hex_bytes(bytes@),
{
    let n: usize = bytes.len();
    let mut out: Vec<char> = Vec::new();
    let mut i: usize = 0;
    while i < n
        invariant
            0 <= i <= n,
            n == bytes@.len(),
            out@ == hex_bytes(bytes@.subrange(0, i as int)),
        decreases n - i,
    {
        let b: u8 = bytes[i];
        out.push(crate::text::hex_digit(b / 16));
        out.push(crate::text::hex_digit(b % 16));
        assert(bytes@.subrange(0, i + 1).drop_last() =~= bytes@.subrange(0, i as int));
        i = i + 1;
    }
    assert(bytes@.subrange(0, n as int) =~= bytes@);
    string_of(out.as_slice())
}

/// The stored hash of a secret: SHA-256 over the signing secret,
/// `:service_token:` and the token secret, in hexadecimal.
pub open spec fn secret_hash(secret: Seq<char>, jwt_secret: Seq<char>) -> Seq<char> {
    hex_bytes(sha256_of(encode_utf8(jwt_secret) + encode_utf8(":service_token:"@) + encode_utf8(secret)))
}

pub fn hash_service_secret(secret: &str, jwt_secret: &str) -> (r: String)
    ensures
        r@ == secret_hash(secret@, jwt_secret@),
{
    let mut data: Vec<u8> = Vec::new();
    let a = jwt_secret.as_bytes();
    let b = ":service_token:".as_bytes();
    let c = secret.as_bytes();
    let mut k: usize = 0;
    while k < a.len()
        invariant
            0 <= k <= a@.len(),
            data@ == a@.subrange(0, k as int),
        decreases a@.len() - k,
    {
        data.push(a[k]);
        assert(data@ =~= a@.subrange(0, k + 1));
        k = k + 1;
    }
    assert(a@.subrange(0, a@.len() as int) =~= a@);
    let ghost da = data@;
    k = 0;
    while k < b.len()
        invariant
            0 <= k <= b@.len(),
            data@ == da + b@.subrange(0, k as int),
        decreases b@.len() - k,
    {
        data.push(b[k]);
        assert(data@ =~= da + b@.subrange(0, k + 1));
        k = k + 1;
    }
    assert(b@.subrange(0, b@.len() as int) =~= b@);
    let ghost db = data@;
    k = 0;
    while k < c.len()
        invariant
            0 <= k <= c@.len(),
            data@ == db + c@.subrange(0, k as int),
        decreases c@.len() - k,
    {
        data.push(c[k]);
        assert(data@ =~= db + c@.subrange(0, k + 1));
        k = k + 1;
    }
    assert(c@.subrange(0, c@.len() as int) =~= c@);
    let digest = sha256(data.as_slice());
    hex_string(digest.as_slice())
}

/// A service that has presented a valid token.
#[derive(Clone, Debug)]
pub struct AuthenticatedServiceToken {
    pub id: u128,
    pub system_name: String,
}

/// The checks on a stored token found by its prefix: it must be active, not
/// expired, and its stored hash must be the hash of the presented secret.
/// The service it belongs to is then authenticated.
pub fn check_stored_token(
    id: u128,
    system_name: String,
    is_active: bool,
    expires_at: Option<i64>,
    now: i64,
    expected_hash: &str,
    stored_hash: &str,
) -> (r: Result<AuthenticatedServiceToken, TokenError>)
    ensures
        match r {
            Ok(t) => {
                &&& is_active
                &&& !(expires_at matches Some(e) && e <= now)
                &&& expected_hash@ == stored_hash@
                &&& t.id == id
                &&& t.system_name@ == system_name@
            },
            Err(e) => e == (if !is_active {
                TokenError::Inactive
            } else if expires_at matches Some(x) && x <= now {
                TokenError::Expired
            } else {
                TokenError::SecretMismatch
            }),
        },
        r is Ok <==> (is_active && !(expires_at matches Some(e) && e <= now)
            && expected_hash@ == stored_hash@),
{
    if !is_active {
        return Err(TokenError::Inactive);
    }
    if let Some(e) = expires_at {
        if e <= now {
            return Err(TokenError::Expired);
        }
    }
    if !str_equal(expected_hash, stored_hash) {
        return Err(TokenError::SecretMismatch);
    }
    Ok(AuthenticatedServiceToken { id, system_name })
}

/// A system name is free unless another token holds it.
pub fn system_name_available(existing_token_id: Option<u128>, exclude_token_id: Option<u128>) -> (r:
    Result<(), TokenError>)
    ensures
        r is Err <==> (existing_token_id matches Some(id) && Some(id) != exclude_token_id),
        r matches Err(e) ==> e == TokenError::SystemNameTaken,
{
    if let Some(id) = existing_token_id {
        if Some(id) != exclude_token_id {
            return Err(TokenError::SystemNameTaken);
        }
    }
    Ok(())
}

/// A token can be rotated only while active; the new token keeps the old
/// expiry unless a new one is given.
pub fn rotation_expiry(is_active: bool, new_expires_at: Option<i64>, old_expires_at: Option<i64>) -> (r:
    Result<Option<i64>, TokenError>)
    ensures
        !is_active ==> r == Err::<Option<i64>, TokenError>(TokenError::AlreadyInactive),
        is_active ==> r == Ok::<Option<i64>, TokenError>(
            if new_expires_at is Some {
                new_expires_at
            } else {
                old_expires_at
            },
        ),
{
    if !is_active {
        return Err(TokenError::AlreadyInactive);
    }
    Ok(
        match new_expires_at {
            Some(e) => Some(e),
            None => old_expires_at,
        },
    )
}

/// A trimmed text, dropped when empty.
pub fn normalize_optional_string(value: Option<String>) -> (r: Option<String>)
    ensures
        match value {
            Some(v) => if trim_spec(v@).len() == 0 {
                r is None
            } else {
                r matches Some(t) && t@ == trim_spec(v@)
            },
            None => r is None,
        },
{
    match value {
        Some(v) => {
            let t = trim(v.as_str());
            if chars_of(t.as_str()).len() == 0 {
                None
            } else {
                Some(t)
            }
        },
        None => None,
    }
}

} // verus!
