//! Squads: their names, the storage key and processing of their images,
//! and the proof-of-work that guards registration.
use vstd::prelude::*;
use vstd::utf8::encode_utf8;
use crate::ids::{push_uuid, uuid_hyphenated};
use crate::pattern::{pattern_compiles, pattern_matches, regex_matches, SQUAD_NAME_PATTERN};
use crate::service_tokens::{sha256, sha256_of};
use crate::text::{chars_of, push_str, string_of, trim, trim_spec};

verus! {

pub const SQUAD_MAX_MEMBERS: u64 = 4;

pub const SQUAD_INVITE_TTL_HOURS: i64 = 24;

pub const SQUAD_NAME_MIN_CHARS: usize = 4;

pub const SQUAD_NAME_MAX_CHARS: usize = 16;

pub const SQUAD_IMAGE_MAX_BYTES: usize = 2097152;

pub const SQUAD_IMAGE_MAX_WIDTH: u32 = 1024;

pub const SQUAD_IMAGE_MAX_HEIGHT: u32 = 1024;

pub const SQUAD_IMAGES_PREFIX: &'static str = "squad_images";

#[derive(Clone, Debug, PartialEq, Eq)]
pub enum SquadError {
    NameLength,
    NamePatternUnavailable,
    NameCharacters,
    NameEdges,
    ImageEmpty,
    ImageTooLarge,
    ImageUnreadable(String),
    ImageResolution,
    ImageEncoding(String),
}

impl SquadError {
    pub open spec fn message_spec(self) -> Seq<char> {
        match self {
            SquadError::NameLength => "Squad name must be between 4 and 16 characters long"@,
            SquadError::NamePatternUnavailable => "Squad name pattern could not be compiled"@,
            SquadError::NameCharacters => "Squad name contains unsupported characters"@,
            SquadError::NameEdges => "Squad name cannot start or end with a space or hyphen"@,
            SquadError::ImageEmpty => "Image file is empty"@,
            SquadError::ImageTooLarge => "Image exceeds maximum size of 2097152 bytes"@,
            SquadError::ImageUnreadable(m) => m@,
            SquadError::ImageResolution => "Image exceeds maximum resolution of 1024x1024"@,
            SquadError::ImageEncoding(m) => m@,
        }
    }

    pub fn message(&self) -> (r: String)
        ensures
            r@ == self.message_spec(),
    {
        match self {
            SquadError::NameLength => "Squad name must be between 4 and 16 characters long".to_string(),
            SquadError::NamePatternUnavailable => "Squad name pattern could not be compiled".to_string(),
            SquadError::NameCharacters => "Squad name contains unsupported characters".to_string(),
            SquadError::NameEdges => "Squad name cannot start or end with a space or hyphen".to_string(),
            SquadError::ImageEmpty => "Image file is empty".to_string(),
            SquadError::ImageTooLarge => "Image exceeds maximum size of 2097152 bytes".to_string(),
            SquadError::ImageUnreadable(m) => m.clone(),
            SquadError::ImageResolution => "Image exceeds maximum resolution of 1024x1024".to_string(),
            SquadError::ImageEncoding(m) => m.clone(),
        }
    }
}

/// A squad name is trimmed and must have 4 to 16 characters, all latin or
/// cyrillic letters, spaces or hyphens, and must not start or end with a
/// space or a hyphen.
pub open spec fn squad_name_outcome(name: Seq<char>) -> Result<Seq<char>, SquadError> {
    let t = trim_spec(name);
    if !(SQUAD_NAME_MIN_CHARS <= t.len() <= SQUAD_NAME_MAX_CHARS) {
        Err(SquadError::NameLength)
    } else if !pattern_compiles(SQUAD_NAME_PATTERN@) {
        Err(SquadError::NamePatternUnavailable)
    } else if !pattern_matches(SQUAD_NAME_PATTERN@, t) {
        Err(SquadError::NameCharacters)
    } else if t[0] == '-' || t.last() == '-' || t[0] == ' ' || t.last() == ' ' {
        Err(SquadError::NameEdges)
    } else {
        Ok(t)
    }
}

pub fn validate_squad_name(name: &str) -> (r: Result<String, SquadError>)
    ensures
        match squad_name_outcome(name@) {
            Ok(t) => r matches Ok(s) && s@ == t,
            Err(e) => r == Err::<String, SquadError>(e),
        },
{
    let trimmed = trim(name);
    let cs = chars_of(trimmed.as_str());
    let len: usize = cs.len();
    if len < SQUAD_NAME_MIN_CHARS || len > SQUAD_NAME_MAX_CHARS {
        return Err(SquadError::NameLength);
    }
    match regex_matches(SQUAD_NAME_PATTERN, trimmed.as_str()) {
        Err(_) => {
            return Err(SquadError::NamePatternUnavailable);
        },
        Ok(false) => {
            return Err(SquadError::NameCharacters);
        },
        Ok(true) => {},
    }
    let first = cs[0];
    let last = cs[len - 1];
    if first == '-' || last == '-' || first == ' ' || last == ' ' {
        return Err(SquadError::NameEdges);
    }
    Ok(trimmed)
}

/// Where a squad's image is stored: `squad_images/<squad id>.png`.
pub fn squad_image_key(squad_id: u128) -> (r: String)
    ensures
        r@ == "squad_images/"@ + uuid_hyphenated(squad_id) + ".png"@,
{
    let mut out: Vec<char> = Vec::new();
    push_str(&mut out, "squad_images/");
    push_uuid(&mut out, squad_id);
    push_str(&mut out, ".png");
    string_of(out.as_slice())
}

/// The width and height of the image the bytes hold, as the `image` crate
/// reads them (format guessed from the bytes); `None` when it cannot.
pub uninterp spec fn image_dimensions(data: Seq<u8>) -> Option<(u32, u32)>;

/// The PNG encoding, by the `image` crate, of the image the bytes hold;
/// `None` when it cannot be read or encoded.
pub uninterp spec fn png_reencoding(data: Seq<u8>) -> Option<Seq<u8>>;

/// Calls `image::guess_format` and `image::load_from_memory_with_format`,
/// then reads the width and height; the outcome is named by
/// `image_dimensions`. The text of the `image` error is not stated.
#[verifier::external_body]
fn read_image_dimensions(data: &[u8]) -> (r: Result<(u32, u32), String>)
    ensures
        match r {
            Ok(d) => image_dimensions(data@) == Some(d),
            Err(_) => image_dimensions(data@) is None,
        },
{
    let format = image::guess_format(data).map_err(|e| e.to_string())?;
    let img = image::load_from_memory_with_format(data, format).map_err(|e| e.to_string())?;
    Ok((img.width(), img.height()))
}

/// Reads the image as above and writes it as PNG (`DynamicImage::write_to`
/// with `ImageFormat::Png`); the outcome is named by `png_reencoding`. The
/// text of the `image` error is not stated.
#[verifier::external_body]
fn reencode_png(data: &[u8]) -> (r: Result<Vec<u8>, String>)
    ensures
        match r {
            Ok(png) => png_reencoding(data@) == Some(png@),
            Err(_) => png_reencoding(data@) is None,
        },
{
    let format = image::guess_format(data).map_err(|e| e.to_string())?;
    let img = image::load_from_memory_with_format(data, format).map_err(|e| e.to_string())?;
    let mut cursor = std::io::Cursor::new(Vec::new());
    img.write_to(&mut cursor, image::ImageFormat::Png).map_err(|e| e.to_string())?;
    Ok(cursor.into_inner())
}

/// An uploaded squad image: non-empty, at most 2 MiB, at most 1024x1024,
/// stored as PNG.
pub fn process_squad_image(data: &[u8]) -> (r: Result<Vec<u8>, SquadError>)
    ensures
        data@.len() == 0 ==> r == Err::<Vec<u8>, SquadError>(SquadError::ImageEmpty),
        data@.len() > SQUAD_IMAGE_MAX_BYTES ==> r == Err::<Vec<u8>, SquadError>(
            SquadError::ImageTooLarge,
        ),
        0 < data@.len() <= SQUAD_IMAGE_MAX_BYTES ==> match image_dimensions(data@) {
            None => r matches Err(SquadError::ImageUnreadable(_)),
            Some((w, h)) => if w > SQUAD_IMAGE_MAX_WIDTH || h > SQUAD_IMAGE_MAX_HEIGHT {
                r == Err::<Vec<u8>, SquadError>(SquadError::ImageResolution)
            } else {
                match png_reencoding(data@) {
                    Some(png) => r matches Ok(v) && v@ == png,
                    None => r matches Err(SquadError::ImageEncoding(_)),
                }
            },
        },
{
    if data.len() == 0 {
        return Err(SquadError::ImageEmpty);
    }
    if data.len() > SQUAD_IMAGE_MAX_BYTES {
        return Err(SquadError::ImageTooLarge);
    }
    let (w, h) = match read_image_dimensions(data) {
        Ok(d) => d,
        Err(m) => {
            return Err(SquadError::ImageUnreadable(m));
        },
    };
    if w > SQUAD_IMAGE_MAX_WIDTH || h > SQUAD_IMAGE_MAX_HEIGHT {
        return Err(SquadError::ImageResolution);
    }
    match reencode_png(data) {
        Ok(png) => Ok(png),
        Err(m) => Err(SquadError::ImageEncoding(m)),
    }
}

// ---------------------------------------------------------------------------
// Proof of work.
// ---------------------------------------------------------------------------

pub const POW_CHARSET: &'static str = "abcdefghijklmnopqrstuvwxyzABCDEFGHIJKLMNOPQRSTUVWXYZ0123456789";

pub const POW_PREFIX_LEN: usize = 32;

/// A solution is accepted for an hour after the challenge was created.
pub const POW_MAX_AGE_SECONDS: u64 = 3600;

/// A challenge prefix: 32 random letters and digits.
pub fn generate_pow_prefix() -> (r: String)
    ensures
        r@.len() == POW_PREFIX_LEN,
        forall|i: int| 0 <= i < r@.len() ==> POW_CHARSET@.contains(#[trigger] r@[i]),
{
    let charset = chars_of(POW_CHARSET);
    proof {
        reveal_strlit("abcdefghijklmnopqrstuvwxyzABCDEFGHIJKLMNOPQRSTUVWXYZ0123456789");
    }
    let mut out: Vec<char> = Vec::new();
    let mut k: usize = 0;
    while k < POW_PREFIX_LEN
        invariant
            0 <= k <= POW_PREFIX_LEN,
            charset@ == POW_CHARSET@,
            charset@.len() == 62,
            out@.len() == k,
            forall|i: int| 0 <= i < out@.len() ==> POW_CHARSET@.contains(#[trigger] out@[i]),
        decreases POW_PREFIX_LEN - k,
    {
        let idx = crate::lootbox::random_below(62);
        let c = charset[idx as usize];
        let ghost before = out@;
        out.push(c);
        proof {
            assert(POW_CHARSET@[idx as int] == c);
            assert forall|i: int| 0 <= i < out@.len() implies POW_CHARSET@.contains(#[trigger] out@[i]) by {
                if i < before.len() {
                    assert(out@[i] == before[i]);
                }
            }
        }
        k = k + 1;
    }
    string_of(out.as_slice())
}

/// The number of leading zero bits of a byte.
pub open spec fn byte_leading_zeros(b: u8) -> nat {
    if b >= 128 {
        0
    } else if b >= 64 {
        1
    } else if b >= 32 {
        2
    } else if b >= 16 {
        3
    } else if b >= 8 {
        4
    } else if b >= 4 {
        5
    } else if b >= 2 {
        6
    } else if b >= 1 {
        7
    } else {
        8
    }
}

/// The number of leading zero bits of a digest.
pub open spec fn leading_zero_bits(d: Seq<u8>) -> nat
    decreases d.len(),
{
    if d.len() == 0 {
        0
    } else if d[0] == 0 {
        8 + leading_zero_bits(d.drop_first())
    } else {
        byte_leading_zeros(d[0])
    }
}

fn leading_zeros_of(b: u8) -> (r: u32)
    ensures
        r == byte_leading_zeros(b),
{
    if b >= 128 {
        0
    } else if b >= 64 {
        1
    } else if b >= 32 {
        2
    } else if b >= 16 {
        3
    } else if b >= 8 {
        4
    } else if b >= 4 {
        5
    } else if b >= 2 {
        6
    } else if b >= 1 {
        7
    } else {
        8
    }
}

pub fn count_leading_zero_bits(d: &[u8]) -> (r: u64)
    requires
        d@.len() <= 0x1000_0000,
    ensures
        r == leading_zero_bits(d@),
{
    let n: usize = d.len();
    let mut i: usize = 0;
    let mut bits: u64 = 0;
    assert(d@.subrange(0, n as int) =~= d@);
    while i < n
        invariant
            0 <= i <= n,
            n == d@.len(),
            n <= 0x1000_0000,
            bits == 8 * i,
            forall|k: int| 0 <= k < i ==> d@[k] == 0,
            leading_zero_bits(d@) == bits + leading_zero_bits(d@.subrange(i as int, n as int)),
        decreases n - i,
    {
        let ghost rest = d@.subrange(i as int, n as int);
        assert(rest[0] == d@[i as int]);
        assert(rest.drop_first() =~= d@.subrange(i + 1, n as int));
        if d[i] != 0 {
            let z = leading_zeros_of(d[i]);
            return bits + z as u64;
        }
        bits = bits + 8;
        i = i + 1;
    }
    bits
}

/// The digest a solution is judged by: SHA-256 of `"<prefix>:<solution>"`.
pub open spec fn pow_digest(prefix: Seq<char>, solution: Seq<char>) -> Seq<u8> {
    sha256_of(encode_utf8(prefix + ":"@ + solution))
}

/// A solution is valid within an hour of the challenge (the age counted in
/// whole seconds, rounded toward zero; a challenge a second or more in the
/// future is refused) when its digest starts with at least `complexity`
/// zero bits.
pub open spec fn pow_valid(prefix: Seq<char>, solution: Seq<char>, complexity: i16, created_at: int, now: int) -> bool {
    let elapsed = now - created_at;
    &&& (if elapsed >= 0 {
        elapsed / 1000 <= POW_MAX_AGE_SECONDS
    } else {
        (-elapsed) / 1000 == 0
    })
    &&& complexity >= 0
    &&& leading_zero_bits(pow_digest(prefix, solution)) >= complexity
}

pub fn verify_pow(solution: &str, prefix: &str, complexity: i16, created_at: i64, now: i64) -> (r: bool)
    requires
        i64::MIN < now - created_at <= i64::MAX,
    ensures
        r == pow_valid(prefix@, solution@, complexity, created_at as int, now as int),
{
    let elapsed: i64 = now - created_at;
    let age_ok = if elapsed >= 0 {
        elapsed / 1000 <= POW_MAX_AGE_SECONDS as i64
    } else {
        (-elapsed) / 1000 == 0
    };
    if !age_ok {
        return false;
    }
    let mut text: Vec<char> = Vec::new();
    push_str(&mut text, prefix);
    push_str(&mut text, ":");
    push_str(&mut text, solution);
    let input = string_of(text.as_slice());
    let digest = sha256(input.as_str().as_bytes());
    let bits = count_leading_zero_bits(digest.as_slice());
    complexity >= 0 && bits >= complexity as u64
}

} // verus!
