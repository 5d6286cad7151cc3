//! Localized shop product texts: normalizing the locales an administrator
//! enters, and choosing the text shown for a requested locale.
use vstd::prelude::*;
use crate::lootbox::primary_language;
use crate::lootbox::primary_language_of;
use crate::shop_order::{ProblemKind, ShopProblem};
use crate::text::{
    chars_of, concat_str, is_blank, is_blank_str, lowercase_of, push_str, str_equal, string_of,
    to_lowercase, trim, trim_spec,
};

verus! {

// ---------------------------------------------------------------------------
// Locale keys.
// ---------------------------------------------------------------------------

/// Locale keys are made of lower-case latin letters, digits and hyphens.
pub open spec fn is_locale_char(c: char) -> bool {
    ('a' <= c && c <= 'z') || ('0' <= c && c <= '9') || c == '-'
}

/// A locale is trimmed, lower-cased, and must then be non-empty and made of
/// locale characters.
pub open spec fn locale_outcome(locale: Seq<char>) -> Result<Seq<char>, (ProblemKind, Seq<char>)> {
    let n = lowercase_of(trim_spec(locale));
    if n.len() == 0 {
        Err((ProblemKind::BadRequest, "locale cannot be empty"@))
    } else if !(forall|i: int| 0 <= i < n.len() ==> is_locale_char(#[trigger] n[i])) {
        Err(
            (
                ProblemKind::BadRequest,
                "locale must contain only lowercase latin letters, numbers, and hyphens"@,
            ),
        )
    } else {
        Ok(n)
    }
}

pub open spec fn problem_view(p: ShopProblem) -> (ProblemKind, Seq<char>) {
    (p.kind, p.message@)
}

pub open spec fn string_result_view(r: Result<String, ShopProblem>) -> Result<
    Seq<char>,
    (ProblemKind, Seq<char>),
> {
    match r {
        Ok(s) => Ok(s@),
        Err(p) => Err(problem_view(p)),
    }
}

pub fn normalize_required_locale(locale: String) -> (r: Result<String, ShopProblem>)
    ensures
        string_result_view(r) == locale_outcome(locale@),
{
    let trimmed = trim(locale.as_str());
    let normalized = to_lowercase(trimmed.as_str());
    let cs = chars_of(normalized.as_str());
    let n: usize = cs.len();
    if n == 0 {
        return Err(ShopProblem::new(ProblemKind::BadRequest, "locale cannot be empty"));
    }
    let mut i: usize = 0;
    while i < n
        invariant
            0 <= i <= n,
            n == cs@.len(),
            cs@ == normalized@,
            normalized@ == lowercase_of(trim_spec(locale@)),
            forall|k: int| 0 <= k < i ==> is_locale_char(#[trigger] cs@[k]),
        decreases n - i,
    {
        let c = cs[i];
        if !(('a' <= c && c <= 'z') || ('0' <= c && c <= '9') || c == '-') {
            assert(!is_locale_char(cs@[i as int]));
            assert(!is_locale_char(lowercase_of(trim_spec(locale@))[i as int]));
            return Err(
                ShopProblem::new(
                    ProblemKind::BadRequest,
                    "locale must contain only lowercase latin letters, numbers, and hyphens",
                ),
            );
        }
        i = i + 1;
    }
    Ok(normalized)
}

/// A missing locale stays missing; a given one is normalized.
pub fn normalize_optional_locale(locale: Option<String>) -> (r: Result<Option<String>, ShopProblem>)
    ensures
        match locale {
            None => r matches Ok(None),
            Some(l) => match locale_outcome(l@) {
                Ok(n) => r matches Ok(Some(v)) && v@ == n,
                Err(e) => r matches Err(p) && problem_view(p) == e,
            },
        },
{
    match locale {
        None => Ok(None),
        Some(l) => match normalize_required_locale(l) {
            Ok(n) => Ok(Some(n)),
            Err(p) => Err(p),
        },
    }
}

// ---------------------------------------------------------------------------
// Locale inputs.
// ---------------------------------------------------------------------------

/// A localized product text as an administrator enters it.
#[derive(Clone, Debug)]
pub struct ProductLocaleInput {
    pub locale: String,
    pub name: String,
    pub description: Option<String>,
}

/// A localized product text after normalization.
#[derive(Clone, Debug)]
pub struct NormalizedLocaleInput {
    pub locale: String,
    pub name: String,
    pub description: Option<String>,
}

/// The value of a normalized locale text.
pub struct LocaleTextModel {
    pub locale: Seq<char>,
    pub name: Seq<char>,
    pub description: Option<Seq<char>>,
}

pub open spec fn normalized_view(n: NormalizedLocaleInput) -> LocaleTextModel {
    LocaleTextModel {
        locale: n.locale@,
        name: n.name@,
        description: match n.description {
            Some(d) => Some(d@),
            None => None,
        },
    }
}

pub open spec fn normalized_views(v: Seq<NormalizedLocaleInput>) -> Seq<LocaleTextModel> {
    v.map_values(|n: NormalizedLocaleInput| normalized_view(n))
}

/// A trimmed description, dropped when blank.
pub open spec fn description_spec(d: Option<String>) -> Option<Seq<char>> {
    match d {
        Some(s) => if trim_spec(s@).len() == 0 {
            None
        } else {
            Some(trim_spec(s@))
        },
        None => None,
    }
}

pub open spec fn has_locale(acc: Seq<LocaleTextModel>, key: Seq<char>) -> bool {
    exists|j: int| 0 <= j < acc.len() && (#[trigger] acc[j]).locale == key
}

pub open spec fn duplicate_message(key: Seq<char>) -> Seq<char> {
    "Duplicate locale '"@ + key + "' in shop product locales"@
}

pub open spec fn empty_name_message(key: Seq<char>) -> Seq<char> {
    "Localized product name for '"@ + key + "' cannot be empty"@
}

/// One input added to the texts normalized so far.
pub open spec fn locale_step(acc: Seq<LocaleTextModel>, input: ProductLocaleInput) -> Result<
    Seq<LocaleTextModel>,
    (ProblemKind, Seq<char>),
> {
    match locale_outcome(input.locale@) {
        Err(e) => Err(e),
        Ok(key) => if has_locale(acc, key) {
            Err((ProblemKind::BadRequest, duplicate_message(key)))
        } else if trim_spec(input.name@).len() == 0 {
            Err((ProblemKind::BadRequest, empty_name_message(key)))
        } else {
            Ok(
                acc.push(
                    LocaleTextModel {
                        locale: key,
                        name: trim_spec(input.name@),
                        description: description_spec(input.description),
                    },
                ),
            )
        },
    }
}

/// The first `i` inputs, normalized in order; the first problem met wins.
pub open spec fn locales_prefix(inputs: Seq<ProductLocaleInput>, i: int) -> Result<
    Seq<LocaleTextModel>,
    (ProblemKind, Seq<char>),
>
    decreases i,
{
    if i <= 0 {
        Ok(Seq::empty())
    } else {
        match locales_prefix(inputs, i - 1) {
            Err(e) => Err(e),
            Ok(acc) => locale_step(acc, inputs[i - 1]),
        }
    }
}

/// All inputs normalized; at least one is required.
pub open spec fn locales_outcome(inputs: Seq<ProductLocaleInput>) -> Result<
    Seq<LocaleTextModel>,
    (ProblemKind, Seq<char>),
> {
    if inputs.len() == 0 {
        Err((ProblemKind::BadRequest, "At least one localized shop product title is required"@))
    } else {
        locales_prefix(inputs, inputs.len() as int)
    }
}

fn contains_locale(acc: &Vec<NormalizedLocaleInput>, key: &str) -> (r: bool)
    ensures
        r == has_locale(normalized_views(acc@), key@),
{
    let n: usize = acc.len();
    let mut i: usize = 0;
    while i < n
        invariant
            0 <= i <= n,
            n == acc@.len(),
            forall|j: int| 0 <= j < i ==> (#[trigger] acc@[j]).locale@ != key@,
        decreases n - i,
    {
        if str_equal(acc[i].locale.as_str(), key) {
            assert(normalized_views(acc@)[i as int].locale == key@);
            return true;
        }
        i = i + 1;
    }
    proof {
        assert forall|j: int| 0 <= j < normalized_views(acc@).len() implies (#[trigger] normalized_views(
            acc@,
        )[j]).locale != key@ by {
            assert(acc@[j].locale@ != key@);
        }
    }
    false
}

fn trimmed_description(d: &Option<String>) -> (r: Option<String>)
    ensures
        match r {
            Some(s) => description_spec(*d) == Some(s@),
            None => description_spec(*d) is None,
        },
{
    match d {
        Some(s) => {
            let t = trim(s.as_str());
            if is_blank_str(t.as_str()) {
                proof {
                    crate::text::lemma_trimmed_blank_iff_empty(s@);
                }
                None
            } else {
                proof {
                    crate::text::lemma_trimmed_blank_iff_empty(s@);
                }
                Some(t)
            }
        },
        None => None,
    }
}

fn quoted_message(head: &str, key: &str, tail: &str) -> (r: String)
    ensures
        r@ == head@ + key@ + tail@,
{
    let mut out: Vec<char> = Vec::new();
    push_str(&mut out, head);
    push_str(&mut out, key);
    push_str(&mut out, tail);
    string_of(out.as_slice())
}

/// Normalizes the localized texts of a product: each locale normalized and
/// used once, each name trimmed and non-empty, blank descriptions dropped.
pub fn normalize_locale_inputs(locales: Vec<ProductLocaleInput>) -> (r: Result<
    Vec<NormalizedLocaleInput>,
    ShopProblem,
>)
    ensures
        match locales_outcome(locales@) {
            Ok(v) => r matches Ok(out) && normalized_views(out@) == v,
            Err(e) => r matches Err(p) && problem_view(p) == e,
        },
{
    let n: usize = locales.len();
    if n == 0 {
        return Err(
            ShopProblem::new(
                ProblemKind::BadRequest,
                "At least one localized shop product title is required",
            ),
        );
    }
    let mut out: Vec<NormalizedLocaleInput> = Vec::new();
    let mut i: usize = 0;
    assert(normalized_views(out@) =~= Seq::<LocaleTextModel>::empty());
    while i < n
        invariant
            0 <= i <= n,
            n == locales@.len(),
            out@.len() == i,
            locales_prefix(locales@, i as int) == Ok::<
                Seq<LocaleTextModel>,
                (ProblemKind, Seq<char>),
            >(normalized_views(out@)),
        decreases n - i,
    {
        let input = &locales[i];
        let key = match normalize_required_locale(input.locale.clone()) {
            Ok(k) => k,
            Err(p) => {
                assert(locales_prefix(locales@, i + 1) == locale_step(
                    normalized_views(out@),
                    locales@[i as int],
                ));
                proof {
                    lemma_locales_prefix_err_stays(locales@, i + 1, n as int);
                }
                return Err(p);
            },
        };
        if contains_locale(&out, key.as_str()) {
            let msg = quoted_message("Duplicate locale '", key.as_str(), "' in shop product locales");
            proof {
                lemma_locales_prefix_err_stays(locales@, i + 1, n as int);
            }
            return Err(ShopProblem { kind: ProblemKind::BadRequest, message: msg });
        }
        let name = trim(input.name.as_str());
        if is_blank_str(name.as_str()) {
            proof {
                crate::text::lemma_trimmed_blank_iff_empty(input.name@);
                lemma_locales_prefix_err_stays(locales@, i + 1, n as int);
            }
            let msg = quoted_message("Localized product name for '", key.as_str(), "' cannot be empty");
            return Err(ShopProblem { kind: ProblemKind::BadRequest, message: msg });
        }
        proof {
            crate::text::lemma_trimmed_blank_iff_empty(input.name@);
        }
        let description = trimmed_description(&input.description);
        assert(trim_spec(locales@[i as int].name@).len() > 0);
        let ghost before = out@;
        out.push(NormalizedLocaleInput { locale: key, name, description });
        assert(normalized_views(out@) =~= normalized_views(before).push(normalized_view(out@[i as int])));
        i = i + 1;
    }
    Ok(out)
}

/// Once the prefix has failed, every longer prefix fails the same way.
proof fn lemma_locales_prefix_err_stays(inputs: Seq<ProductLocaleInput>, i: int, n: int)
    requires
        0 <= i <= n,
        locales_prefix(inputs, i) is Err,
    ensures
        locales_prefix(inputs, n) == locales_prefix(inputs, i),
    decreases n - i,
{
    if i < n {
        lemma_locales_prefix_err_stays(inputs, i + 1, n);
    }
}

/// Normalized locales never repeat a locale key.
pub proof fn lemma_normalized_locales_distinct(inputs: Seq<ProductLocaleInput>, i: int)
    requires
        locales_prefix(inputs, i) is Ok,
    ensures
        forall|a: int, b: int|
            0 <= a < b < locales_prefix(inputs, i)->Ok_0.len() ==> (#[trigger] locales_prefix(
                inputs,
                i,
            )->Ok_0[a]).locale != (#[trigger] locales_prefix(inputs, i)->Ok_0[b]).locale,
    decreases i,
{
    if i > 0 {
        lemma_normalized_locales_distinct(inputs, i - 1);
        let acc = locales_prefix(inputs, i - 1)->Ok_0;
        let res = locales_prefix(inputs, i)->Ok_0;
        assert forall|a: int, b: int| 0 <= a < b < res.len() implies (#[trigger] res[a]).locale
            != (#[trigger] res[b]).locale by {
            if b == acc.len() {
                if res[a].locale == res[b].locale {
                    assert(acc[a] == res[a]);
                    assert(has_locale(acc, res[b].locale));
                }
            } else {
                assert(acc[a] == res[a]);
                assert(acc[b] == res[b]);
            }
        }
    }
}

// ---------------------------------------------------------------------------
// Choosing the shown text.
// ---------------------------------------------------------------------------

/// A stored localized text of a product.
#[derive(Clone, Debug)]
pub struct ProductLocale {
    pub product_id: u128,
    pub locale: String,
    pub name: String,
    pub description: Option<String>,
}

/// The name and description shown to a client.
#[derive(Clone, Debug)]
pub struct LocalizedProductContent {
    pub name: String,
    pub description: Option<String>,
}

/// The index of the first text stored for `key`.
pub open spec fn first_with_locale(locales: Seq<ProductLocale>, key: Seq<char>) -> Option<int>
    decreases locales.len(),
{
    if locales.len() == 0 {
        None
    } else if locales.last().locale@ == key && first_with_locale(locales.drop_last(), key) is None {
        Some(locales.len() - 1)
    } else {
        first_with_locale(locales.drop_last(), key)
    }
}

/// The text shown: the requested locale, its primary language, English, the
/// first stored text, else the product's own name and description.
pub open spec fn localized_index(locales: Seq<ProductLocale>, requested: Option<Seq<char>>) -> Option<
    int,
> {
    match requested {
        Some(l) if first_with_locale(locales, l) is Some => first_with_locale(locales, l),
        Some(l) if first_with_locale(locales, primary_language(l)) is Some => first_with_locale(
            locales,
            primary_language(l),
        ),
        _ => if first_with_locale(locales, "en"@) is Some {
            first_with_locale(locales, "en"@)
        } else if locales.len() > 0 {
            Some(0)
        } else {
            None
        },
    }
}

proof fn lemma_first_with_locale(locales: Seq<ProductLocale>, key: Seq<char>, i: int)
    requires
        0 <= i <= locales.len(),
        forall|j: int| 0 <= j < i ==> (#[trigger] locales[j]).locale@ != key,
    ensures
        first_with_locale(locales.subrange(0, i), key) is None,
        i < locales.len() && locales[i].locale@ == key ==> first_with_locale(
            locales.subrange(0, i + 1),
            key,
        ) == Some(i),
    decreases i,
{
    if i > 0 {
        lemma_first_with_locale(locales, key, i - 1);
        assert(locales.subrange(0, i).drop_last() =~= locales.subrange(0, i - 1));
    }
    if i < locales.len() {
        assert(locales.subrange(0, i + 1).drop_last() =~= locales.subrange(0, i));
    }
}

fn find_locale(locales: &Vec<ProductLocale>, key: &str) -> (r: Option<usize>)
    ensures
        match r {
            Some(i) => first_with_locale(locales@, key@) == Some(i as int),
            None => first_with_locale(locales@, key@) is None,
        },
{
    let n: usize = locales.len();
    let mut i: usize = 0;
    while i < n
        invariant
            0 <= i <= n,
            n == locales@.len(),
            forall|j: int| 0 <= j < i ==> (#[trigger] locales@[j]).locale@ != key@,
        decreases n - i,
    {
        if str_equal(locales[i].locale.as_str(), key) {
            proof {
                lemma_first_with_locale(locales@, key@, i as int);
                lemma_first_with_locale_extend(locales@, key@, i + 1);
            }
            return Some(i);
        }
        i = i + 1;
    }
    proof {
        lemma_first_with_locale(locales@, key@, n as int);
        assert(locales@.subrange(0, n as int) =~= locales@);
    }
    None
}

/// Appending texts keeps the first match of a prefix.
proof fn lemma_first_with_locale_extend(locales: Seq<ProductLocale>, key: Seq<char>, i: int)
    requires
        0 <= i <= locales.len(),
        first_with_locale(locales.subrange(0, i), key) is Some,
    ensures
        first_with_locale(locales, key) == first_with_locale(locales.subrange(0, i), key),
    decreases locales.len() - i,
{
    if i < locales.len() {
        assert(locales.subrange(0, i + 1).drop_last() =~= locales.subrange(0, i));
        lemma_first_with_locale_extend(locales, key, i + 1);
    } else {
        assert(locales.subrange(0, i) =~= locales);
    }
}

fn content_at(locales: &Vec<ProductLocale>, i: usize) -> (c: LocalizedProductContent)
    requires
        i < locales@.len(),
    ensures
        c.name@ == locales@[i as int].name@,
        c.description == locales@[i as int].description,
{
    LocalizedProductContent {
        name: locales[i].name.clone(),
        description: locales[i].description.clone(),
    }
}

pub fn localize_product(
    locales: &Vec<ProductLocale>,
    requested_locale: Option<&str>,
    fallback_name: &str,
    fallback_description: Option<&str>,
) -> (r: LocalizedProductContent)
    ensures
        match localized_index(
            locales@,
            match requested_locale {
                Some(l) => Some(l@),
                None => None,
            },
        ) {
            Some(i) => 0 <= i < locales@.len() && r.name@ == locales@[i].name@ && r.description
                == locales@[i].description,
            None => r.name@ == fallback_name@ && match fallback_description {
                Some(d) => r.description matches Some(rd) && rd@ == d@,
                None => r.description is None,
            },
        },
{
    if let Some(l) = requested_locale {
        if let Some(i) = find_locale(locales, l) {
            proof {
                lemma_first_with_locale_in_range(locales@, l@);
            }
            return content_at(locales, i);
        }
        let primary = primary_language_of(l);
        if let Some(i) = find_locale(locales, primary.as_str()) {
            proof {
                lemma_first_with_locale_in_range(locales@, primary@);
            }
            return content_at(locales, i);
        }
    }
    if let Some(i) = find_locale(locales, "en") {
        proof {
            lemma_first_with_locale_in_range(locales@, "en"@);
        }
        return content_at(locales, i);
    }
    if locales.len() > 0 {
        return content_at(locales, 0);
    }
    LocalizedProductContent {
        name: fallback_name.to_string(),
        description: match fallback_description {
            Some(d) => Some(d.to_string()),
            None => None,
        },
    }
}

proof fn lemma_first_with_locale_in_range(locales: Seq<ProductLocale>, key: Seq<char>)
    ensures
        first_with_locale(locales, key) matches Some(i) ==> 0 <= i < locales.len(),
    decreases locales.len(),
{
    if locales.len() > 0 {
        lemma_first_with_locale_in_range(locales.drop_last(), key);
    }
}

/// The stored texts of one product, in their stored order.
pub fn locales_for_product(locales: &Vec<ProductLocale>, product_id: u128) -> (r: Vec<ProductLocale>)
    ensures
        r@.len() <= locales@.len(),
        forall|k: int| 0 <= k < r@.len() ==> (#[trigger] r@[k]).product_id == product_id,
        forall|j: int|
            0 <= j < locales@.len() && (#[trigger] locales@[j]).product_id == product_id ==> exists|
                k: int,
            | 0 <= k < r@.len() && r@[k].locale@ == locales@[j].locale@ && r@[k].name@
                == locales@[j].name@,
{
    let n: usize = locales.len();
    let mut out: Vec<ProductLocale> = Vec::new();
    let mut i: usize = 0;
    let ghost mut origin: Seq<int> = Seq::empty();
    while i < n
        invariant
            0 <= i <= n,
            n == locales@.len(),
            out@.len() <= i,
            origin.len() == out@.len(),
            forall|k: int| 0 <= k < out@.len() ==> (#[trigger] out@[k]).product_id == product_id,
            forall|k: int|
                0 <= k < out@.len() ==> 0 <= #[trigger] origin[k] < i && out@[k].locale@
                    == locales@[origin[k]].locale@ && out@[k].name@ == locales@[origin[k]].name@,
            forall|j: int|
                0 <= j < i && (#[trigger] locales@[j]).product_id == product_id ==> exists|k: int|
                    0 <= k < out@.len() && origin[k] == j,
        decreases n - i,
    {
        let ghost old_origin = origin;
        let ghost old_len = out@.len();
        if locales[i].product_id == product_id {
            let item = ProductLocale {
                product_id: locales[i].product_id,
                locale: locales[i].locale.clone(),
                name: locales[i].name.clone(),
                description: locales[i].description.clone(),
            };
            out.push(item);
            proof {
                origin = origin.push(i as int);
                assert(origin[out@.len() - 1] == i);
            }
        }
        proof {
            assert forall|j: int|
                0 <= j < i + 1 && (#[trigger] locales@[j]).product_id == product_id implies exists|k: int|
                0 <= k < out@.len() && origin[k] == j by {
                if j == i {
                    assert(origin[old_len as int] == j);
                } else {
                    let k = choose|k: int| 0 <= k < old_len && old_origin[k] == j;
                    assert(origin[k] == j);
                }
            }
        }
        i = i + 1;
    }
    proof {
        assert forall|j: int|
            0 <= j < locales@.len() && (#[trigger] locales@[j]).product_id == product_id implies exists|
                k: int,
            | 0 <= k < out@.len() && out@[k].locale@ == locales@[j].locale@ && out@[k].name@
                == locales@[j].name@ by {
            let k = choose|k: int| 0 <= k < out@.len() && origin[k] == j;
            assert(out@[k].locale@ == locales@[origin[k]].locale@);
        }
    }
    out
}

} // verus!
