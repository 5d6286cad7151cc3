//! Identifiers. The services identify users, players, orders and checks by
//! UUIDs; the library holds a UUID as its 128-bit value (`Uuid::as_u128`)
//! and renders it the way `uuid` displays it.
use vstd::prelude::*;
use crate::text::{hex_char, hex_digit, string_of};

verus! {

/// `width` lower-case hexadecimal digits of `v`, most significant first.
pub open spec fn hex_fixed(v: nat, width: nat) -> Seq<char>
    decreases width,
{
    if width == 0 {
        Seq::empty()
    } else {
        hex_fixed(v / 16, (width - 1) as nat).push(hex_char((v % 16) as int))
    }
}

/// The "simple" form: 32 hexadecimal digits.
pub open spec fn uuid_simple(u: u128) -> Seq<char> {
    hex_fixed(u as nat, 32)
}

/// The hyphenated form `8-4-4-4-12`, which `Display for Uuid` prints.
pub open spec fn uuid_hyphenated(u: u128) -> Seq<char> {
    let s = uuid_simple(u);
    s.subrange(0, 8) + seq!['-'] + s.subrange(8, 12) + seq!['-'] + s.subrange(12, 16) + seq!['-']
        + s.subrange(16, 20) + seq!['-'] + s.subrange(20, 32)
}

/// Version 4 with the RFC 4122 variant, as `Uuid::new_v4` produces.
pub open spec fn is_random_v4(u: u128) -> bool {
    &&& (u as nat / 0x1_0000_0000_0000_0000_000) % 16 == 4
    &&& (u as nat / 0x4000_0000_0000_0000) % 4 == 2
}

proof fn lemma_hex_fixed_len(v: nat, width: nat)
    ensures
        hex_fixed(v, width).len() == width,
    decreases width,
{
    if width > 0 {
        lemma_hex_fixed_len(v / 16, (width - 1) as nat);
    }
}

pub proof fn lemma_uuid_simple_len(u: u128)
    ensures
        uuid_simple(u).len() == 32,
{
    lemma_hex_fixed_len(u as nat, 32);
}

fn push_hex_fixed(out: &mut Vec<char>, v: u128, width: u32)
    requires
        width <= 32,
    ensures
        final(out)@ == old(out)@ + hex_fixed(v as nat, width as nat),
    decreases width,
{
    if width == 0 {
        assert(final(out)@ =~= old(out)@ + hex_fixed(v as nat, 0));
        return;
    }
    push_hex_fixed(out, v / 16, width - 1);
    let d: u8 = (v % 16) as u8;
    out.push(hex_digit(d));
    proof {
        assert(hex_fixed(v as nat, width as nat) == hex_fixed((v / 16) as nat, (width - 1) as nat).push(
            hex_char((v % 16) as int),
        ));
    }
}

/// The UUID as 32 hexadecimal digits (`Uuid::as_simple().to_string()`).
pub fn uuid_simple_string(u: u128) -> (s: String)
    ensures
        s@ == uuid_simple(u),
{
    let mut out: Vec<char> = Vec::new();
    push_hex_fixed(&mut out, u, 32);
    assert(out@ =~= uuid_simple(u));
    string_of(out.as_slice())
}

/// Appends the hyphenated form of the UUID.
pub fn push_uuid(out: &mut Vec<char>, u: u128)
    ensures
        final(out)@ == old(out)@ + uuid_hyphenated(u),
{
    let mut digits: Vec<char> = Vec::new();
    push_hex_fixed(&mut digits, u, 32);
    proof {
        lemma_uuid_simple_len(u);
        assert(digits@ =~= uuid_simple(u));
    }
    let ghost start = out@;
    let mut i: usize = 0;
    while i < 32
        invariant
            0 <= i <= 32,
            digits@ == uuid_simple(u),
            digits@.len() == 32,
            out@ == start + hyphenated_prefix(digits@, i as int),
        decreases 32 - i,
    {
        if i == 8 || i == 12 || i == 16 || i == 20 {
            out.push('-');
        }
        out.push(digits[i]);
        proof {
            lemma_hyphenated_prefix_step(digits@, i as int);
        }
        i = i + 1;
    }
    proof {
        lemma_hyphenated_prefix_full(digits@);
    }
}

/// The hyphenated rendering of the first `i` digits.
spec fn hyphenated_prefix(d: Seq<char>, i: int) -> Seq<char>
    decreases i,
{
    if i <= 0 {
        Seq::empty()
    } else if i == 8 || i == 12 || i == 16 || i == 20 {
        hyphenated_prefix(d, i - 1).push(d[i - 1])
    } else if i == 9 || i == 13 || i == 17 || i == 21 {
        hyphenated_prefix(d, i - 1).push('-').push(d[i - 1])
    } else {
        hyphenated_prefix(d, i - 1).push(d[i - 1])
    }
}

proof fn lemma_hyphenated_prefix_step(d: Seq<char>, i: int)
    requires
        0 <= i < 32,
    ensures
        hyphenated_prefix(d, i + 1) == (if i == 8 || i == 12 || i == 16 || i == 20 {
            hyphenated_prefix(d, i).push('-').push(d[i])
        } else {
            hyphenated_prefix(d, i).push(d[i])
        }),
{
}

proof fn lemma_hyphenated_prefix_full(d: Seq<char>)
    requires
        d.len() == 32,
    ensures
        hyphenated_prefix(d, 32) == d.subrange(0, 8) + seq!['-'] + d.subrange(8, 12) + seq!['-']
            + d.subrange(12, 16) + seq!['-'] + d.subrange(16, 20) + seq!['-'] + d.subrange(20, 32),
{
    reveal_with_fuel(hyphenated_prefix, 33);
    assert(hyphenated_prefix(d, 32) =~= d.subrange(0, 8) + seq!['-'] + d.subrange(8, 12) + seq!['-']
        + d.subrange(12, 16) + seq!['-'] + d.subrange(16, 20) + seq!['-'] + d.subrange(20, 32));
}

/// The UUID in its hyphenated form (`Uuid::to_string()`).
pub fn uuid_string(u: u128) -> (s: String)
    ensures
        s@ == uuid_hyphenated(u),
{
    let mut out: Vec<char> = Vec::new();
    push_uuid(&mut out, u);
    assert(out@ =~= uuid_hyphenated(u));
    string_of(out.as_slice())
}

/// Calls `Uuid::new_v4` and returns its 128-bit value; the value is random,
/// and all that is stated of it is that it carries version 4 and the
/// RFC 4122 variant, as the `uuid` documentation says.
#[verifier::external_body]
pub(crate) fn random_uuid() -> (u: u128)
    ensures
        is_random_v4(u),
{
    uuid::Uuid::new_v4().as_u128()
}

} // verus!
