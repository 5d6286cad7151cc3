//! Character-level text helpers shared by the services: trimming, case
//! mapping, decimal and hexadecimal rendering, prefix handling and
//! truncation. Every helper is specified over `Seq<char>`.
use vstd::prelude::*;

verus! {

// ---------------------------------------------------------------------------
// Conversions between strings and character sequences (std calls).
// ---------------------------------------------------------------------------

/// Calls `str::chars` and collects the characters; the result holds exactly
/// the characters of `s`, in order.
#[verifier::external_body]
pub(crate) fn chars_of(s: &str) -> (v: Vec<char>)
    ensures
        v@ == s@,
{
    s.chars().collect()
}

/// Collects characters into a `String` (`FromIterator<&char> for String`);
/// the string holds exactly the given characters, in order.
#[verifier::external_body]
pub(crate) fn string_of(v: &[char]) -> (s: String)
    ensures
        s@ == v@,
{
    v.iter().collect()
}

/// Whether two texts hold the same characters.
pub fn str_equal(a: &str, b: &str) -> (r: bool)
    ensures
        r == (a@ == b@),
{
    let x = chars_of(a);
    let y = chars_of(b);
    if x.len() != y.len() {
        return false;
    }
    let n: usize = x.len();
    let mut i: usize = 0;
    while i < n
        invariant
            0 <= i <= n,
            n == x@.len(),
            n == y@.len(),
            x@ == a@,
            y@ == b@,
            forall|k: int| 0 <= k < i ==> x@[k] == y@[k],
        decreases n - i,
    {
        if x[i] != y[i] {
            return false;
        }
        i = i + 1;
    }
    assert(a@ =~= b@);
    true
}

/// What `str::to_lowercase` returns for the given characters (the Unicode
/// lowercase mapping).
pub uninterp spec fn lowercase_of(s: Seq<char>) -> Seq<char>;

/// What `str::to_uppercase` returns for the given characters (the Unicode
/// uppercase mapping).
pub uninterp spec fn uppercase_of(s: Seq<char>) -> Seq<char>;

/// Calls `str::to_lowercase`; the result is named by `lowercase_of`.
#[verifier::external_body]
pub(crate) fn to_lowercase(s: &str) -> (r: String)
    ensures
        r@ == lowercase_of(s@),
{
    s.to_lowercase()
}

/// Calls `str::to_uppercase`; the result is named by `uppercase_of`.
#[verifier::external_body]
pub(crate) fn to_uppercase(s: &str) -> (r: String)
    ensures
        r@ == uppercase_of(s@),
{
    s.to_uppercase()
}

// ---------------------------------------------------------------------------
// Whitespace and trimming.
// ---------------------------------------------------------------------------

/// The Unicode `White_Space` property, which `char::is_whitespace` and
/// `str::trim` use.
pub open spec fn is_ws(c: char) -> bool {
    let u = c as u32;
    ||| 0x9 <= u <= 0xD
    ||| u == 0x20
    ||| u == 0x85
    ||| u == 0xA0
    ||| u == 0x1680
    ||| 0x2000 <= u <= 0x200A
    ||| u == 0x2028
    ||| u == 0x2029
    ||| u == 0x202F
    ||| u == 0x205F
    ||| u == 0x3000
}

pub fn is_whitespace(c: char) -> (r: bool)
    ensures
        r == is_ws(c),
{
    let u: u32 = c as u32;
    (0x9 <= u && u <= 0xD) || u == 0x20 || u == 0x85 || u == 0xA0 || u == 0x1680 || (0x2000 <= u
        && u <= 0x200A) || u == 0x2028 || u == 0x2029 || u == 0x202F || u == 0x205F || u == 0x3000
}

/// Drops leading whitespace.
pub open spec fn trim_start_spec(s: Seq<char>) -> Seq<char>
    decreases s.len(),
{
    if s.len() > 0 && is_ws(s[0]) {
        trim_start_spec(s.drop_first())
    } else {
        s
    }
}

/// Drops trailing whitespace.
pub open spec fn trim_end_spec(s: Seq<char>) -> Seq<char>
    decreases s.len(),
{
    if s.len() > 0 && is_ws(s.last()) {
        trim_end_spec(s.drop_last())
    } else {
        s
    }
}

/// What `str::trim` returns: the characters without leading and trailing
/// whitespace.
pub open spec fn trim_spec(s: Seq<char>) -> Seq<char> {
    trim_end_spec(trim_start_spec(s))
}

/// Every character is whitespace (so the trimmed text is empty).
pub open spec fn is_blank(s: Seq<char>) -> bool {
    forall|i: int| 0 <= i < s.len() ==> is_ws(#[trigger] s[i])
}

proof fn lemma_trim_start_skip(s: Seq<char>, i: int)
    requires
        0 <= i <= s.len(),
        forall|k: int| 0 <= k < i ==> is_ws(#[trigger] s[k]),
    ensures
        trim_start_spec(s) == trim_start_spec(s.subrange(i, s.len() as int)),
    decreases i,
{
    if i > 0 {
        assert(s.drop_first().subrange(i - 1, s.drop_first().len() as int) =~= s.subrange(
            i,
            s.len() as int,
        ));
        lemma_trim_start_skip(s.drop_first(), i - 1);
    } else {
        assert(s.subrange(0, s.len() as int) =~= s);
    }
}

proof fn lemma_trim_end_cut(s: Seq<char>, j: int)
    requires
        0 <= j <= s.len(),
        forall|k: int| j <= k < s.len() ==> is_ws(#[trigger] s[k]),
    ensures
        trim_end_spec(s) == trim_end_spec(s.subrange(0, j)),
    decreases s.len() - j,
{
    if j < s.len() {
        assert(s.drop_last().subrange(0, j) =~= s.subrange(0, j));
        lemma_trim_end_cut(s.drop_last(), j);
    } else {
        assert(s.subrange(0, s.len() as int) =~= s);
    }
}

/// Trimming the start drops only leading whitespace: what is left is a suffix of the input.
pub proof fn lemma_trim_start_is_suffix(s: Seq<char>)
    ensures
        exists|i: int|
            0 <= i <= s.len() && trim_start_spec(s) == s.subrange(i, s.len() as int) && (forall|
                k: int,
            | 0 <= k < i ==> is_ws(#[trigger] s[k])),
    decreases s.len(),
{
    if s.len() > 0 && is_ws(s[0]) {
        lemma_trim_start_is_suffix(s.drop_first());
        let i = choose|i: int|
            0 <= i <= s.drop_first().len() && trim_start_spec(s.drop_first())
                == s.drop_first().subrange(i, s.drop_first().len() as int) && (forall|k: int|
                0 <= k < i ==> is_ws(#[trigger] s.drop_first()[k]));
        assert(s.drop_first().subrange(i, s.drop_first().len() as int) =~= s.subrange(
            i + 1,
            s.len() as int,
        ));
        assert forall|k: int| 0 <= k < i + 1 implies is_ws(#[trigger] s[k]) by {
            if k > 0 {
                assert(s[k] == s.drop_first()[k - 1]);
            }
        }
    } else {
        assert(s.subrange(0, s.len() as int) =~= s);
    }
}

/// Trimming gives the empty text exactly on blank input.
pub proof fn lemma_trim_empty_iff_blank(s: Seq<char>)
    ensures
        (trim_spec(s).len() == 0) == is_blank(s),
    decreases s.len(),
{
    lemma_trim_start_blank(s);
    lemma_trim_end_empty(trim_start_spec(s));
}

proof fn lemma_trim_start_blank(s: Seq<char>)
    ensures
        (trim_start_spec(s).len() == 0) == is_blank(s),
        trim_start_spec(s).len() > 0 ==> !is_ws(trim_start_spec(s)[0]),
    decreases s.len(),
{
    if s.len() > 0 && is_ws(s[0]) {
        lemma_trim_start_blank(s.drop_first());
        if is_blank(s.drop_first()) {
            assert forall|i: int| 0 <= i < s.len() implies is_ws(#[trigger] s[i]) by {
                if i > 0 {
                    assert(s[i] == s.drop_first()[i - 1]);
                }
            }
        } else {
            let k = choose|k: int| 0 <= k < s.drop_first().len() && !is_ws(s.drop_first()[k]);
            assert(s[k + 1] == s.drop_first()[k]);
        }
    }
}

proof fn lemma_trim_end_empty(s: Seq<char>)
    requires
        s.len() > 0 ==> !is_ws(s[0]),
    ensures
        (trim_end_spec(s).len() == 0) == (s.len() == 0),
    decreases s.len(),
{
    if s.len() > 0 && is_ws(s.last()) {
        if s.len() == 1 {
            assert(s.last() == s[0]);
        } else {
            assert(s.drop_last()[0] == s[0]);
            lemma_trim_end_empty(s.drop_last());
        }
    }
}

/// `str::trim`, written over characters.
pub fn trim_chars(s: &[char]) -> (r: Vec<char>)
    ensures
        r@ == trim_spec(s@),
{
    let n: usize = s.len();
    let mut i: usize = 0;
    while i < n && is_whitespace(s[i])
        invariant
            0 <= i <= n,
            n == s@.len(),
            forall|k: int| 0 <= k < i ==> is_ws(#[trigger] s@[k]),
        decreases n - i,
    {
        i = i + 1;
    }
    proof {
        lemma_trim_start_skip(s@, i as int);
        if i < n {
            assert(!is_ws(s@[i as int]));
        }
        assert(trim_start_spec(s@.subrange(i as int, n as int)) == s@.subrange(i as int, n as int));
    }
    let mut j: usize = n;
    while j > i && is_whitespace(s[j - 1])
        invariant
            i <= j <= n,
            n == s@.len(),
            forall|k: int| j <= k < n ==> is_ws(#[trigger] s@[k]),
        decreases j,
    {
        j = j - 1;
    }
    let ghost mid = s@.subrange(i as int, n as int);
    proof {
        assert forall|k: int| (j - i) <= k < mid.len() implies is_ws(#[trigger] mid[k]) by {
            assert(mid[k] == s@[k + i]);
        }
        lemma_trim_end_cut(mid, (j - i) as int);
        assert(mid.subrange(0, (j - i) as int) =~= s@.subrange(i as int, j as int));
        if j > i {
            assert(!is_ws(s@[j - 1]));
            assert(s@.subrange(i as int, j as int).last() == s@[j - 1]);
        }
    }
    let mut out: Vec<char> = Vec::new();
    let mut k: usize = i;
    while k < j
        invariant
            i <= k <= j <= n,
            n == s@.len(),
            out@ == s@.subrange(i as int, k as int),
        decreases j - k,
    {
        out.push(s[k]);
        assert(out@ =~= s@.subrange(i as int, k + 1));
        k = k + 1;
    }
    out
}

/// `str::trim` on a string slice, returning an owned copy.
pub fn trim(s: &str) -> (r: String)
    ensures
        r@ == trim_spec(s@),
{
    let cs = chars_of(s);
    let t = trim_chars(cs.as_slice());
    string_of(t.as_slice())
}

/// Whether the trimmed text is empty (`value.trim().is_empty()`).
pub fn is_blank_str(s: &str) -> (r: bool)
    ensures
        r == is_blank(s@),
        r == (trim_spec(s@).len() == 0),
{
    let cs = chars_of(s);
    let n: usize = cs.len();
    let mut i: usize = 0;
    while i < n
        invariant
            0 <= i <= n,
            n == cs@.len(),
            cs@ == s@,
            forall|k: int| 0 <= k < i ==> is_ws(#[trigger] s@[k]),
        decreases n - i,
    {
        if !is_whitespace(cs[i]) {
            proof {
                lemma_trim_empty_iff_blank(s@);
            }
            return false;
        }
        i = i + 1;
    }
    proof {
        lemma_trim_empty_iff_blank(s@);
    }
    true
}

/// A non-empty trimmed text is not blank.
pub proof fn lemma_trimmed_not_blank(s: Seq<char>)
    requires
        trim_spec(s).len() > 0,
    ensures
        !is_blank(trim_spec(s)),
{
    lemma_trim_empty_iff_blank(s);
    lemma_trim_keeps_non_ws(s);
}

proof fn lemma_trim_keeps_non_ws(s: Seq<char>)
    requires
        trim_spec(s).len() > 0,
    ensures
        !is_ws(trim_spec(s)[0]),
{
    lemma_trim_start_first(s);
    lemma_trim_end_first(trim_start_spec(s));
}

proof fn lemma_trim_start_first(s: Seq<char>)
    ensures
        trim_start_spec(s).len() > 0 ==> !is_ws(trim_start_spec(s)[0]),
    decreases s.len(),
{
    if s.len() > 0 && is_ws(s[0]) {
        lemma_trim_start_first(s.drop_first());
    }
}

proof fn lemma_trim_end_first(s: Seq<char>)
    requires
        s.len() > 0 ==> !is_ws(s[0]),
    ensures
        trim_end_spec(s).len() > 0 ==> trim_end_spec(s)[0] == s[0],
    decreases s.len(),
{
    if s.len() > 0 && is_ws(s.last()) {
        if s.len() > 1 {
            assert(s.drop_last()[0] == s[0]);
            lemma_trim_end_first(s.drop_last());
        }
    }
}

/// A trimmed text is blank exactly when it is empty.
pub proof fn lemma_trimmed_blank_iff_empty(s: Seq<char>)
    ensures
        is_blank(trim_spec(s)) <==> trim_spec(s).len() == 0,
{
    if trim_spec(s).len() > 0 {
        lemma_trimmed_not_blank(s);
    }
}

// ---------------------------------------------------------------------------
// Building text.
// ---------------------------------------------------------------------------

/// Appends the characters of `s`.
pub fn push_str(out: &mut Vec<char>, s: &str)
    ensures
        final(out)@ == old(out)@ + s@,
{
    let mut cs = chars_of(s);
    out.append(&mut cs);
}

/// `a` followed by `b`.
pub fn concat_str(a: &str, b: &str) -> (r: String)
    ensures
        r@ == a@ + b@,
{
    let mut out: Vec<char> = Vec::new();
    push_str(&mut out, a);
    push_str(&mut out, b);
    string_of(out.as_slice())
}

/// Appends a character sequence held in a slice.
pub fn push_chars(out: &mut Vec<char>, s: &[char])
    ensures
        final(out)@ == old(out)@ + s@,
{
    let n: usize = s.len();
    let mut i: usize = 0;
    let ghost start = out@;
    while i < n
        invariant
            0 <= i <= n,
            n == s@.len(),
            out@ == start + s@.subrange(0, i as int),
        decreases n - i,
    {
        out.push(s[i]);
        assert(out@ =~= start + s@.subrange(0, i + 1));
        i = i + 1;
    }
    assert(s@.subrange(0, n as int) =~= s@);
}

/// The decimal digit character for `d` in `0..10`.
pub open spec fn digit_char(d: int) -> char {
    if d == 0 {
        '0'
    } else if d == 1 {
        '1'
    } else if d == 2 {
        '2'
    } else if d == 3 {
        '3'
    } else if d == 4 {
        '4'
    } else if d == 5 {
        '5'
    } else if d == 6 {
        '6'
    } else if d == 7 {
        '7'
    } else if d == 8 {
        '8'
    } else {
        '9'
    }
}

/// The hexadecimal digit character (lower case) for `d` in `0..16`.
pub open spec fn hex_char(d: int) -> char {
    if d < 10 {
        digit_char(d)
    } else if d == 10 {
        'a'
    } else if d == 11 {
        'b'
    } else if d == 12 {
        'c'
    } else if d == 13 {
        'd'
    } else if d == 14 {
        'e'
    } else {
        'f'
    }
}

pub fn hex_digit(d: u8) -> (c: char)
    requires
        d < 16,
    ensures
        c == hex_char(d as int),
{
    if d == 0 {
        '0'
    } else if d == 1 {
        '1'
    } else if d == 2 {
        '2'
    } else if d == 3 {
        '3'
    } else if d == 4 {
        '4'
    } else if d == 5 {
        '5'
    } else if d == 6 {
        '6'
    } else if d == 7 {
        '7'
    } else if d == 8 {
        '8'
    } else if d == 9 {
        '9'
    } else if d == 10 {
        'a'
    } else if d == 11 {
        'b'
    } else if d == 12 {
        'c'
    } else if d == 13 {
        'd'
    } else if d == 14 {
        'e'
    } else {
        'f'
    }
}

/// The decimal representation of a natural number, as `Display` renders it.
pub open spec fn decimal(n: nat) -> Seq<char>
    decreases n,
{
    if n < 10 {
        seq![digit_char(n as int)]
    } else {
        decimal(n / 10).push(digit_char((n % 10) as int))
    }
}

/// The decimal representation of an integer, with a leading `-` when negative.
pub open spec fn int_text(n: int) -> Seq<char> {
    if n < 0 {
        seq!['-'] + decimal((-n) as nat)
    } else {
        decimal(n as nat)
    }
}

/// Appends the decimal digits of `n`.
pub fn push_decimal(out: &mut Vec<char>, n: u64)
    ensures
        final(out)@ == old(out)@ + decimal(n as nat),
    decreases n,
{
    if n >= 10 {
        push_decimal(out, n / 10);
    }
    let d: u64 = n % 10;
    let c: char = if d < 10 {
        hex_digit(d as u8)
    } else {
        '0'
    };
    out.push(c);
    proof {
        if n >= 10 {
            assert(decimal(n as nat) == decimal((n / 10) as nat).push(digit_char((n % 10) as int)));
        }
    }
}

/// Appends `n` as `Display for i64` renders it.
pub fn push_i64(out: &mut Vec<char>, n: i64)
    ensures
        final(out)@ == old(out)@ + int_text(n as int),
{
    if n < 0 {
        out.push('-');
        let magnitude: u64 = if n == i64::MIN {
            9223372036854775808u64
        } else {
            (-n) as u64
        };
        let ghost mid = out@;
        push_decimal(out, magnitude);
        assert(out@ =~= old(out)@ + (seq!['-'] + decimal((-(n as int)) as nat)));
    } else {
        push_decimal(out, n as u64);
    }
}

/// `n.to_string()` for an `i64`.
pub fn i64_to_string(n: i64) -> (s: String)
    ensures
        s@ == int_text(n as int),
{
    let mut out: Vec<char> = Vec::new();
    push_i64(&mut out, n);
    assert(out@ =~= int_text(n as int));
    string_of(out.as_slice())
}

// ---------------------------------------------------------------------------
// Prefixes, truncation, search.
// ---------------------------------------------------------------------------

pub open spec fn has_prefix(s: Seq<char>, prefix: Seq<char>) -> bool {
    prefix.len() <= s.len() && s.subrange(0, prefix.len() as int) == prefix
}

/// `str::strip_prefix` over characters.
pub fn strip_prefix_chars(s: &[char], prefix: &[char]) -> (r: Option<Vec<char>>)
    ensures
        r is Some <==> has_prefix(s@, prefix@),
        r matches Some(rest) ==> rest@ == s@.subrange(prefix@.len() as int, s@.len() as int),
{
    let n: usize = s.len();
    let m: usize = prefix.len();
    if m > n {
        return None;
    }
    let mut i: usize = 0;
    while i < m
        invariant
            0 <= i <= m <= n,
            n == s@.len(),
            m == prefix@.len(),
            forall|k: int| 0 <= k < i ==> s@[k] == prefix@[k],
        decreases m - i,
    {
        if s[i] != prefix[i] {
            assert(s@.subrange(0, m as int)[i as int] != prefix@[i as int]);
            return None;
        }
        i = i + 1;
    }
    assert(s@.subrange(0, m as int) =~= prefix@);
    let mut rest: Vec<char> = Vec::new();
    let mut k: usize = m;
    while k < n
        invariant
            m <= k <= n,
            n == s@.len(),
            rest@ == s@.subrange(m as int, k as int),
        decreases n - k,
    {
        rest.push(s[k]);
        assert(rest@ =~= s@.subrange(m as int, k + 1));
        k = k + 1;
    }
    Some(rest)
}

/// `str::strip_prefix` on string slices.
pub fn strip_prefix(s: &str, prefix: &str) -> (r: Option<String>)
    ensures
        r is Some <==> has_prefix(s@, prefix@),
        r matches Some(rest) ==> rest@ == s@.subrange(prefix@.len() as int, s@.len() as int),
{
    let cs = chars_of(s);
    let ps = chars_of(prefix);
    match strip_prefix_chars(cs.as_slice(), ps.as_slice()) {
        Some(rest) => Some(string_of(rest.as_slice())),
        None => None,
    }
}

/// The first `limit` characters, followed by `…` when characters were cut.
pub open spec fn truncate_chars_spec(s: Seq<char>, limit: nat) -> Seq<char> {
    if s.len() > limit {
        s.subrange(0, limit as int).push('…')
    } else {
        s
    }
}

pub fn truncate_chars(value: &str, limit: usize) -> (r: String)
    ensures
        r@ == truncate_chars_spec(value@, limit as nat),
{
    let cs = chars_of(value);
    let n: usize = cs.len();
    if n <= limit {
        return string_of(cs.as_slice());
    }
    let mut out: Vec<char> = Vec::new();
    let mut i: usize = 0;
    while i < limit
        invariant
            0 <= i <= limit < n,
            n == cs@.len(),
            cs@ == value@,
            out@ == cs@.subrange(0, i as int),
        decreases limit - i,
    {
        out.push(cs[i]);
        assert(out@ =~= cs@.subrange(0, i + 1));
        i = i + 1;
    }
    out.push('…');
    string_of(out.as_slice())
}

/// The first `limit` characters (`chars().take(limit).collect()`).
pub open spec fn take_chars_spec(s: Seq<char>, limit: nat) -> Seq<char> {
    if s.len() > limit {
        s.subrange(0, limit as int)
    } else {
        s
    }
}

pub fn take_chars(value: &str, limit: usize) -> (r: String)
    ensures
        r@ == take_chars_spec(value@, limit as nat),
{
    let cs = chars_of(value);
    let n: usize = cs.len();
    if n <= limit {
        return string_of(cs.as_slice());
    }
    let mut out: Vec<char> = Vec::new();
    let mut i: usize = 0;
    while i < limit
        invariant
            0 <= i <= limit < n,
            n == cs@.len(),
            cs@ == value@,
            out@ == cs@.subrange(0, i as int),
        decreases limit - i,
    {
        out.push(cs[i]);
        assert(out@ =~= cs@.subrange(0, i + 1));
        i = i + 1;
    }
    string_of(out.as_slice())
}

/// `needle` occurs at position `i` of `s`.
pub open spec fn occurs_at(s: Seq<char>, needle: Seq<char>, i: int) -> bool {
    0 <= i && i + needle.len() <= s.len() && s.subrange(i, i + needle.len()) == needle
}

/// `str::contains` for a text needle.
pub open spec fn contains_spec(s: Seq<char>, needle: Seq<char>) -> bool {
    exists|i: int| occurs_at(s, needle, i)
}

fn occurs_at_exec(s: &[char], needle: &[char], i: usize) -> (r: bool)
    requires
        i + needle@.len() <= s@.len(),
    ensures
        r == occurs_at(s@, needle@, i as int),
{
    let m: usize = needle.len();
    let n: usize = s.len();
    let mut k: usize = 0;
    while k < m
        invariant
            0 <= k <= m,
            m == needle@.len(),
            n == s@.len(),
            i + m <= s@.len(),
            forall|j: int| 0 <= j < k ==> s@[i + j] == needle@[j],
        decreases m - k,
    {
        let idx: usize = i + k;
        if s[idx] != needle[k] {
            assert(s@.subrange(i as int, i + m)[k as int] != needle@[k as int]);
            return false;
        }
        k = k + 1;
    }
    assert(s@.subrange(i as int, i + m) =~= needle@);
    true
}

pub fn contains_chars(s: &[char], needle: &[char]) -> (r: bool)
    ensures
        r == contains_spec(s@, needle@),
{
    let n: usize = s.len();
    let m: usize = needle.len();
    if m > n {
        return false;
    }
    let mut i: usize = 0;
    while i <= n - m
        invariant
            m <= n,
            n == s@.len(),
            m == needle@.len(),
            forall|j: int| 0 <= j < i ==> !occurs_at(s@, needle@, j),
        decreases n - m + 1 - i,
    {
        if occurs_at_exec(s, needle, i) {
            return true;
        }
        if i == n - m {
            return false;
        }
        i = i + 1;
    }
    false
}

/// `str::contains` on string slices.
pub fn contains(s: &str, needle: &str) -> (r: bool)
    ensures
        r == contains_spec(s@, needle@),
{
    let cs = chars_of(s);
    let ns = chars_of(needle);
    contains_chars(cs.as_slice(), ns.as_slice())
}

/// Position of the first occurrence of `c`, if any.
pub open spec fn first_index_of(s: Seq<char>, c: char) -> Option<int> {
    if exists|i: int| 0 <= i < s.len() && s[i] == c {
        Some(choose|i: int| 0 <= i < s.len() && s[i] == c && forall|k: int| 0 <= k < i ==> s[k] != c)
    } else {
        None
    }
}

pub fn find_char(s: &[char], c: char) -> (r: Option<usize>)
    ensures
        r matches Some(i) ==> i < s@.len() && s@[i as int] == c && forall|k: int|
            0 <= k < i ==> s@[k] != c,
        r is None ==> forall|k: int| 0 <= k < s@.len() ==> s@[k] != c,
{
    let n: usize = s.len();
    let mut i: usize = 0;
    while i < n
        invariant
            0 <= i <= n,
            n == s@.len(),
            forall|k: int| 0 <= k < i ==> s@[k] != c,
        decreases n - i,
    {
        if s[i] == c {
            return Some(i);
        }
        i = i + 1;
    }
    None
}

/// Copies `s[from..to]`.
pub fn slice_copy(s: &[char], from: usize, to: usize) -> (r: Vec<char>)
    requires
        from <= to <= s@.len(),
    ensures
        r@ == s@.subrange(from as int, to as int),
{
    let mut out: Vec<char> = Vec::new();
    let mut k: usize = from;
    while k < to
        invariant
            from <= k <= to <= s@.len(),
            out@ == s@.subrange(from as int, k as int),
        decreases to - k,
    {
        out.push(s[k]);
        assert(out@ =~= s@.subrange(from as int, k + 1));
        k = k + 1;
    }
    out
}

/// Joins the parts with the separator between consecutive parts
/// (`[String]::join`).
pub open spec fn join_spec(parts: Seq<Seq<char>>, sep: Seq<char>) -> Seq<char>
    decreases parts.len(),
{
    if parts.len() == 0 {
        Seq::empty()
    } else if parts.len() == 1 {
        parts[0]
    } else {
        join_spec(parts.drop_last(), sep) + sep + parts.last()
    }
}

pub open spec fn views_of(parts: Seq<String>) -> Seq<Seq<char>> {
    parts.map_values(|p: String| p@)
}

pub fn join(parts: &Vec<String>, sep: &str) -> (r: String)
    ensures
        r@ == join_spec(views_of(parts@), sep@),
{
    let mut out: Vec<char> = Vec::new();
    let n: usize = parts.len();
    let mut i: usize = 0;
    while i < n
        invariant
            0 <= i <= n,
            n == parts@.len(),
            out@ == join_spec(views_of(parts@).subrange(0, i as int), sep@),
        decreases n - i,
    {
        let ghost prev = views_of(parts@).subrange(0, i as int);
        let ghost next = views_of(parts@).subrange(0, i + 1);
        assert(next.drop_last() =~= prev);
        if i > 0 {
            push_str(&mut out, sep);
        } else {
            assert(prev.len() == 0);
        }
        push_str(&mut out, parts[i].as_str());
        assert(next.last() == parts@[i as int]@);
        assert(out@ =~= join_spec(next, sep@));
        i = i + 1;
    }
    assert(views_of(parts@).subrange(0, n as int) =~= views_of(parts@));
    string_of(out.as_slice())
}

// ---------------------------------------------------------------------------
// Reading decimal integers, as `str::parse` does for integer types.
// ---------------------------------------------------------------------------

pub open spec fn is_digit(c: char) -> bool {
    '0' <= c && c <= '9'
}

/// At least one character, and every one an ASCII digit.
pub open spec fn all_digits(s: Seq<char>) -> bool {
    s.len() > 0 && forall|i: int| 0 <= i < s.len() ==> is_digit(#[trigger] s[i])
}

/// The value of a run of ASCII digits, most significant first.
pub open spec fn digits_value(s: Seq<char>) -> int
    decreases s.len(),
{
    if s.len() == 0 {
        0
    } else {
        digits_value(s.drop_last()) * 10 + (s.last() as int - '0' as int)
    }
}

/// The integer a text spells as `str::parse` reads integers: an optional
/// `+` or `-` sign followed by one or more ASCII digits, nothing else.
pub open spec fn decimal_int(s: Seq<char>) -> Option<int> {
    if s.len() > 0 && s[0] == '-' {
        if all_digits(s.drop_first()) {
            Some(-digits_value(s.drop_first()))
        } else {
            None
        }
    } else if s.len() > 0 && s[0] == '+' {
        if all_digits(s.drop_first()) {
            Some(digits_value(s.drop_first()))
        } else {
            None
        }
    } else if all_digits(s) {
        Some(digits_value(s))
    } else {
        None
    }
}

/// What `str::parse` gives for an integer type ranging from `lo` to `hi`:
/// the integer spelled, when it is in range.
pub open spec fn decimal_in_range(s: Seq<char>, lo: int, hi: int) -> Option<int> {
    match decimal_int(s) {
        Some(v) => if lo <= v <= hi {
            Some(v)
        } else {
            None
        },
        None => None,
    }
}

proof fn lemma_digits_value_step(s: Seq<char>, i: int)
    requires
        0 <= i < s.len(),
    ensures
        digits_value(s.subrange(0, i + 1)) == digits_value(s.subrange(0, i)) * 10 + (s[i] as int - '0' as int),
{
    assert(s.subrange(0, i + 1).drop_last() =~= s.subrange(0, i));
}

proof fn lemma_digits_value_nonneg(s: Seq<char>)
    requires
        forall|i: int| 0 <= i < s.len() ==> is_digit(#[trigger] s[i]),
    ensures
        digits_value(s) >= 0,
    decreases s.len(),
{
    if s.len() > 0 {
        lemma_digits_value_nonneg(s.drop_last());
    }
}

/// Reads `chars[start..]` as digits: their value when it is at most
/// `bound`; `None` when a character is not a digit or the value is larger.
fn read_digits(chars: &[char], start: usize, bound: i128) -> (r: Option<i128>)
    requires
        start <= chars@.len(),
        0 <= bound <= 0x1_0000_0000_0000_0000,
    ensures
        ({
            let d = chars@.subrange(start as int, chars@.len() as int);
            match r {
                Some(v) => (forall|i: int| 0 <= i < d.len() ==> is_digit(#[trigger] d[i])) && v == digits_value(d)
                    && 0 <= v <= bound,
                None => !(forall|i: int| 0 <= i < d.len() ==> is_digit(#[trigger] d[i])) || digits_value(d) > bound,
            }
        }),
{
    let n: usize = chars.len();
    let ghost d = chars@.subrange(start as int, n as int);
    let mut acc: i128 = 0;
    let mut over: bool = false;
    let mut i: usize = start;
    while i < n
        invariant
            start <= i <= n,
            n == chars@.len(),
            0 <= bound <= 0x1_0000_0000_0000_0000,
            d == chars@.subrange(start as int, n as int),
            forall|k: int| 0 <= k < i - start ==> is_digit(#[trigger] d[k]),
            !over ==> acc == digits_value(d.subrange(0, i - start)) && 0 <= acc <= bound,
            over ==> digits_value(d.subrange(0, i - start)) > bound,
        decreases n - i,
    {
        let c = chars[i];
        if !('0' <= c && c <= '9') {
            proof {
                assert(d[i - start] == c);
            }
            return None;
        }
        proof {
            assert(d[i - start] == c);
            lemma_digits_value_step(d, i - start);
            lemma_digits_value_nonneg(d.subrange(0, i - start));
        }
        if !over {
            let digit: i128 = (c as u32 - '0' as u32) as i128;
            acc = acc * 10 + digit;
            if acc > bound {
                over = true;
            }
        }
        i = i + 1;
    }
    proof {
        assert(d.subrange(0, n - start) =~= d);
    }
    if over {
        None
    } else {
        Some(acc)
    }
}

/// Reads a decimal integer of a type ranging from `lo` to `hi`, as
/// `str::parse` does.
pub fn parse_decimal(s: &str, lo: i128, hi: i128) -> (r: Option<i128>)
    requires
        -0x1_0000_0000_0000_0000 <= lo <= 0 <= hi <= 0x1_0000_0000_0000_0000,
    ensures
        match r {
            Some(v) => decimal_in_range(s@, lo as int, hi as int) == Some(v as int),
            None => decimal_in_range(s@, lo as int, hi as int) is None,
        },
{
    let cs = chars_of(s);
    let n: usize = cs.len();
    if n == 0 {
        return None;
    }
    let neg: bool = cs[0] == '-';
    let start: usize = if cs[0] == '-' || cs[0] == '+' {
        1
    } else {
        0
    };
    if start == n {
        return None;
    }
    let bound: i128 = if neg {
        -lo
    } else {
        hi
    };
    let ghost d = cs@.subrange(start as int, n as int);
    proof {
        if start == 1 {
            assert(d =~= s@.drop_first());
        } else {
            assert(d =~= s@);
        }
    }
    let r = read_digits(cs.as_slice(), start, bound);
    proof {
        assert(d.len() > 0);
        if neg {
            assert(s@.len() > 0 && s@[0] == '-');
        } else if start == 1 {
            assert(s@.len() > 0 && s@[0] == '+');
        } else {
            assert(!(s@.len() > 0 && s@[0] == '-') && !(s@.len() > 0 && s@[0] == '+'));
        }
        if r is Some {
            assert(all_digits(d));
        } else if forall|i: int| 0 <= i < d.len() ==> is_digit(#[trigger] d[i]) {
            assert(all_digits(d));
            assert(digits_value(d) > bound);
        }
    }
    match r {
        Some(v) => {
            if neg {
                Some(-v)
            } else {
                Some(v)
            }
        },
        None => None,
    }
}

} // verus!
