//! Lootboxes: which assets may be lootboxes or rewards, how drops are
//! configured, how a drop is drawn by weight, how the opening feed is built
//! and how the won reward is granted.
use vstd::prelude::*;
use crate::ownership::{
    asset_key_outcome, validate_asset_key, AssetDefinitionRecord, AssetKind, OwnershipActor,
    OwnershipActorKind, OwnershipError, OwnershipModel, DEFAULT_COIN_ASSET_KEY,
};
use crate::text::{chars_of, find_char, is_blank, is_blank_str, slice_copy, str_equal, string_of};
use crate::json::{json_view, JsonModel, JsonValue};

verus! {

pub const DEFAULT_FEED_LENGTH: usize = 100;

pub const MAX_FEED_LENGTH: usize = 200;

#[derive(Clone, Copy, Debug, PartialEq, Eq, Structural)]
pub enum LootboxError {
    Ownership(OwnershipError),
    AssetInactive,
    NotLootboxKind,
    LootboxNotStackable,
    LootboxIsCurrency,
    RewardAssetInactive,
    WeightNotPositive,
    StackableAmountRequired,
    AmountNotPositive,
    DurationNotAllowedForStackable,
    CompensationOnlyForEntitlement,
    CurrencyRewardKindMismatch,
    DurationRequired,
    DurationNotPositive,
    AmountNotAllowedForExpirable,
    EntitlementAmountOrDuration,
    CompensationRequired,
    CompensationNotPositive,
    FeedLengthOutOfRange,
    NoActiveDrops,
    TotalWeightNotPositive,
    MissingCurrencyAmount,
    MissingStackableAmount,
    MissingExpirableDuration,
    MissingCompensationAmount,
    DefaultCurrencyMissing,
    TitleTranslationsNotObject,
}

impl LootboxError {
    pub open spec fn message_spec(self) -> Seq<char> {
        match self {
            LootboxError::Ownership(e) => e.message_spec(),
            LootboxError::AssetInactive => "Asset is inactive"@,
            LootboxError::NotLootboxKind => "Asset must be of lootbox kind"@,
            LootboxError::LootboxNotStackable => "Lootbox asset must use stackable ownership"@,
            LootboxError::LootboxIsCurrency => "Lootbox asset cannot be currency"@,
            LootboxError::RewardAssetInactive => "Reward asset is inactive"@,
            LootboxError::WeightNotPositive => "Drop weight must be positive"@,
            LootboxError::StackableAmountRequired => "amount is required for stackable rewards"@,
            LootboxError::AmountNotPositive => "amount must be positive"@,
            LootboxError::DurationNotAllowedForStackable => "durationSeconds is not allowed for stackable rewards"@,
            LootboxError::CompensationOnlyForEntitlement => "duplicateCompensationAmount is allowed only for entitlement rewards"@,
            LootboxError::CurrencyRewardKindMismatch => "Currency reward asset must use asset_kind = currency"@,
            LootboxError::DurationRequired => "durationSeconds is required for expirable rewards"@,
            LootboxError::DurationNotPositive => "durationSeconds must be positive"@,
            LootboxError::AmountNotAllowedForExpirable => "amount is not allowed for expirable rewards"@,
            LootboxError::EntitlementAmountOrDuration => "amount and durationSeconds are not allowed for entitlement rewards"@,
            LootboxError::CompensationRequired => "duplicateCompensationAmount is required for entitlement rewards"@,
            LootboxError::CompensationNotPositive => "duplicateCompensationAmount must be positive"@,
            LootboxError::FeedLengthOutOfRange => "feedLength must be between 1 and 200"@,
            LootboxError::TitleTranslationsNotObject => "titleI18n must be a JSON object"@,
            LootboxError::NoActiveDrops => "Lootbox has no active drops"@,
            LootboxError::TotalWeightNotPositive => "Lootbox total weight must be positive"@,
            LootboxError::MissingCurrencyAmount => "Missing currency amount"@,
            LootboxError::MissingStackableAmount => "Missing stackable amount"@,
            LootboxError::MissingExpirableDuration => "Missing expirable duration"@,
            LootboxError::MissingCompensationAmount => "Missing duplicate compensation amount"@,
            LootboxError::DefaultCurrencyMissing => "Default currency asset not found"@,
        }
    }

    /// The problem as text.
    pub fn message(&self) -> (r: &'static str)
        ensures
            r@ == self.message_spec(),
    {
        match self {
            LootboxError::Ownership(e) => e.message(),
            LootboxError::AssetInactive => "Asset is inactive",
            LootboxError::NotLootboxKind => "Asset must be of lootbox kind",
            LootboxError::LootboxNotStackable => "Lootbox asset must use stackable ownership",
            LootboxError::LootboxIsCurrency => "Lootbox asset cannot be currency",
            LootboxError::RewardAssetInactive => "Reward asset is inactive",
            LootboxError::WeightNotPositive => "Drop weight must be positive",
            LootboxError::StackableAmountRequired => "amount is required for stackable rewards",
            LootboxError::AmountNotPositive => "amount must be positive",
            LootboxError::DurationNotAllowedForStackable =>
                "durationSeconds is not allowed for stackable rewards",
            LootboxError::CompensationOnlyForEntitlement =>
                "duplicateCompensationAmount is allowed only for entitlement rewards",
            LootboxError::CurrencyRewardKindMismatch =>
                "Currency reward asset must use asset_kind = currency",
            LootboxError::DurationRequired => "durationSeconds is required for expirable rewards",
            LootboxError::DurationNotPositive => "durationSeconds must be positive",
            LootboxError::AmountNotAllowedForExpirable => "amount is not allowed for expirable rewards",
            LootboxError::EntitlementAmountOrDuration =>
                "amount and durationSeconds are not allowed for entitlement rewards",
            LootboxError::CompensationRequired =>
                "duplicateCompensationAmount is required for entitlement rewards",
            LootboxError::CompensationNotPositive => "duplicateCompensationAmount must be positive",
            LootboxError::FeedLengthOutOfRange => "feedLength must be between 1 and 200",
            LootboxError::TitleTranslationsNotObject => "titleI18n must be a JSON object",
            LootboxError::NoActiveDrops => "Lootbox has no active drops",
            LootboxError::TotalWeightNotPositive => "Lootbox total weight must be positive",
            LootboxError::MissingCurrencyAmount => "Missing currency amount",
            LootboxError::MissingStackableAmount => "Missing stackable amount",
            LootboxError::MissingExpirableDuration => "Missing expirable duration",
            LootboxError::MissingCompensationAmount => "Missing duplicate compensation amount",
            LootboxError::DefaultCurrencyMissing => "Default currency asset not found",
        }
    }
}

// ---------------------------------------------------------------------------
// Which assets qualify.
// ---------------------------------------------------------------------------

pub open spec fn lootbox_asset_outcome(asset: AssetDefinitionRecord) -> Result<(), LootboxError> {
    if !asset.is_active {
        Err(LootboxError::AssetInactive)
    } else if AssetKind::from_name(asset.asset_kind@) is None {
        Err(LootboxError::Ownership(OwnershipError::UnsupportedAssetKind))
    } else if AssetKind::from_name(asset.asset_kind@) != Some(AssetKind::Lootbox) {
        Err(LootboxError::NotLootboxKind)
    } else if OwnershipModel::from_name(asset.ownership_model@) is None {
        Err(LootboxError::Ownership(OwnershipError::UnsupportedOwnershipModel))
    } else if OwnershipModel::from_name(asset.ownership_model@) != Some(OwnershipModel::Stackable) {
        Err(LootboxError::LootboxNotStackable)
    } else if asset.is_currency {
        Err(LootboxError::LootboxIsCurrency)
    } else {
        Ok(())
    }
}

/// A lootbox is an active, non-currency, stackable asset of the lootbox kind.
pub fn validate_lootbox_asset(asset: &AssetDefinitionRecord) -> (r: Result<(), LootboxError>)
    ensures
        r == lootbox_asset_outcome(*asset),
{
    if !asset.is_active {
        return Err(LootboxError::AssetInactive);
    }
    let kind = match AssetKind::parse(asset.asset_kind.as_str()) {
        Ok(k) => k,
        Err(e) => return Err(LootboxError::Ownership(e)),
    };
    if kind != AssetKind::Lootbox {
        return Err(LootboxError::NotLootboxKind);
    }
    let model = match OwnershipModel::parse(asset.ownership_model.as_str()) {
        Ok(m) => m,
        Err(e) => return Err(LootboxError::Ownership(e)),
    };
    if model != OwnershipModel::Stackable {
        return Err(LootboxError::LootboxNotStackable);
    }
    if asset.is_currency {
        return Err(LootboxError::LootboxIsCurrency);
    }
    Ok(())
}

/// A reward is an active asset with a known ownership model.
pub fn validate_reward_asset(asset: &AssetDefinitionRecord) -> (r: Result<(), LootboxError>)
    ensures
        r == (if !asset.is_active {
            Err(LootboxError::RewardAssetInactive)
        } else if OwnershipModel::from_name(asset.ownership_model@) is None {
            Err(LootboxError::Ownership(OwnershipError::UnsupportedOwnershipModel))
        } else {
            Ok(())
        }),
{
    if !asset.is_active {
        return Err(LootboxError::RewardAssetInactive);
    }
    match OwnershipModel::parse(asset.ownership_model.as_str()) {
        Ok(_) => Ok(()),
        Err(e) => Err(LootboxError::Ownership(e)),
    }
}

/// The configuration rules of a drop: a positive weight, and exactly the
/// quantity the reward's ownership model needs.
pub open spec fn drop_payload_outcome(
    reward_is_currency: bool,
    reward_kind: Seq<char>,
    model: OwnershipModel,
    amount: Option<i64>,
    duration_seconds: Option<i64>,
    compensation: Option<i64>,
    weight: i64,
) -> Result<(), LootboxError> {
    if weight <= 0 {
        Err(LootboxError::WeightNotPositive)
    } else {
        match model {
            OwnershipModel::Stackable => match amount {
                None => Err(LootboxError::StackableAmountRequired),
                Some(a) => if a <= 0 {
                    Err(LootboxError::AmountNotPositive)
                } else if duration_seconds is Some {
                    Err(LootboxError::DurationNotAllowedForStackable)
                } else if compensation is Some {
                    Err(LootboxError::CompensationOnlyForEntitlement)
                } else if reward_is_currency && reward_kind != "currency"@ {
                    Err(LootboxError::CurrencyRewardKindMismatch)
                } else {
                    Ok(())
                },
            },
            OwnershipModel::Expirable => match duration_seconds {
                None => Err(LootboxError::DurationRequired),
                Some(d) => if d <= 0 {
                    Err(LootboxError::DurationNotPositive)
                } else if amount is Some {
                    Err(LootboxError::AmountNotAllowedForExpirable)
                } else if compensation is Some {
                    Err(LootboxError::CompensationOnlyForEntitlement)
                } else {
                    Ok(())
                },
            },
            OwnershipModel::Entitlement => if amount is Some || duration_seconds is Some {
                Err(LootboxError::EntitlementAmountOrDuration)
            } else {
                match compensation {
                    None => Err(LootboxError::CompensationRequired),
                    Some(c) => if c <= 0 {
                        Err(LootboxError::CompensationNotPositive)
                    } else {
                        Ok(())
                    },
                }
            },
        }
    }
}

pub fn validate_drop_payload(
    reward_asset: &AssetDefinitionRecord,
    reward_ownership_model: OwnershipModel,
    amount: Option<i64>,
    duration_seconds: Option<i64>,
    duplicate_compensation_amount: Option<i64>,
    weight: i64,
) -> (r: Result<(), LootboxError>)
    ensures
        r == drop_payload_outcome(
            reward_asset.is_currency,
            reward_asset.asset_kind@,
            reward_ownership_model,
            amount,
            duration_seconds,
            duplicate_compensation_amount,
            weight,
        ),
{
    if weight <= 0 {
        return Err(LootboxError::WeightNotPositive);
    }
    match reward_ownership_model {
        OwnershipModel::Stackable => {
            let a: i64 = match amount {
                Some(a) => a,
                None => return Err(LootboxError::StackableAmountRequired),
            };
            if a <= 0 {
                return Err(LootboxError::AmountNotPositive);
            }
            if duration_seconds.is_some() {
                return Err(LootboxError::DurationNotAllowedForStackable);
            }
            if duplicate_compensation_amount.is_some() {
                return Err(LootboxError::CompensationOnlyForEntitlement);
            }
            if reward_asset.is_currency && !str_equal(
                reward_asset.asset_kind.as_str(),
                AssetKind::Currency.as_str(),
            ) {
                return Err(LootboxError::CurrencyRewardKindMismatch);
            }
        },
        OwnershipModel::Expirable => {
            let d: i64 = match duration_seconds {
                Some(d) => d,
                None => return Err(LootboxError::DurationRequired),
            };
            if d <= 0 {
                return Err(LootboxError::DurationNotPositive);
            }
            if amount.is_some() {
                return Err(LootboxError::AmountNotAllowedForExpirable);
            }
            if duplicate_compensation_amount.is_some() {
                return Err(LootboxError::CompensationOnlyForEntitlement);
            }
        },
        OwnershipModel::Entitlement => {
            if amount.is_some() || duration_seconds.is_some() {
                return Err(LootboxError::EntitlementAmountOrDuration);
            }
            let c: i64 = match duplicate_compensation_amount {
                Some(c) => c,
                None => return Err(LootboxError::CompensationRequired),
            };
            if c <= 0 {
                return Err(LootboxError::CompensationNotPositive);
            }
        },
    }
    Ok(())
}

/// The requested feed length, 100 by default, must lie in `1..=200`.
pub fn validate_feed_length(feed_length: Option<usize>) -> (r: Result<usize, LootboxError>)
    ensures
        ({
            let n = match feed_length {
                Some(n) => n,
                None => DEFAULT_FEED_LENGTH,
            };
            match r {
                Ok(v) => v == n && 1 <= n <= MAX_FEED_LENGTH,
                Err(e) => !(1 <= n <= MAX_FEED_LENGTH) && e == LootboxError::FeedLengthOutOfRange,
            }
        }),
{
    let n: usize = match feed_length {
        Some(n) => n,
        None => DEFAULT_FEED_LENGTH,
    };
    if n < 1 || n > MAX_FEED_LENGTH {
        return Err(LootboxError::FeedLengthOutOfRange);
    }
    Ok(n)
}

// ---------------------------------------------------------------------------
// Weighted draws.
// ---------------------------------------------------------------------------

pub open spec fn weight_sum(weights: Seq<i64>) -> int
    decreases weights.len(),
{
    if weights.len() == 0 {
        0
    } else {
        weight_sum(weights.drop_last()) + weights.last()
    }
}

/// The index a roll selects: walking the drops in order, the first whose
/// weight exceeds what is left of the roll; the last drop when none does.
pub open spec fn select_by_roll(weights: Seq<i64>, roll: int) -> int
    decreases weights.len(),
{
    if weights.len() <= 1 {
        0
    } else if roll < weights[0] {
        0
    } else {
        1 + select_by_roll(weights.drop_first(), roll - weights[0])
    }
}

proof fn lemma_weight_sum_first(weights: Seq<i64>)
    requires
        weights.len() > 0,
    ensures
        weight_sum(weights) == weights[0] + weight_sum(weights.drop_first()),
    decreases weights.len(),
{
    if weights.len() > 1 {
        let rest = weights.drop_first();
        lemma_weight_sum_first(weights.drop_last());
        assert(weights.drop_last().drop_first() =~= rest.drop_last());
        assert(weights.drop_last()[0] == weights[0]);
        assert(rest.last() == weights.last());
        assert(weight_sum(rest) == weight_sum(rest.drop_last()) + rest.last());
    } else {
        assert(weights.drop_first().len() == 0);
        assert(weights.drop_last().len() == 0);
        assert(weight_sum(weights) == weight_sum(weights.drop_last()) + weights.last());
    }
}

/// With positive weights, a roll in `0..total` selects the drop whose
/// cumulative weight range contains it: drop `i` is chosen for exactly
/// `weights[i]` of the `total` possible rolls.
pub proof fn lemma_select_by_roll_in_range(weights: Seq<i64>, roll: int)
    requires
        weights.len() > 0,
        forall|i: int| 0 <= i < weights.len() ==> weights[i] > 0,
        0 <= roll < weight_sum(weights),
    ensures
        0 <= select_by_roll(weights, roll) < weights.len(),
        weight_sum(weights.subrange(0, select_by_roll(weights, roll))) <= roll,
        roll < weight_sum(weights.subrange(0, select_by_roll(weights, roll) + 1)),
    decreases weights.len(),
{
    lemma_weight_sum_first(weights);
    let one = weights.subrange(0, 1);
    assert(one.drop_last().len() == 0);
    assert(weight_sum(one) == weight_sum(one.drop_last()) + one.last());
    assert(weight_sum(one) == weights[0]);
    assert(weights.subrange(0, 0).len() == 0);
    if weights.len() == 1 {
        assert(one =~= weights);
    } else if roll < weights[0] {
    } else {
        let rest = weights.drop_first();
        assert forall|k: int| 0 <= k < rest.len() implies rest[k] > 0 by {
            assert(rest[k] == weights[k + 1]);
        }
        lemma_weight_sum_first(rest);
        lemma_select_by_roll_in_range(rest, roll - weights[0]);
        let j = select_by_roll(rest, roll - weights[0]);
        let lo = weights.subrange(0, j + 1);
        let hi = weights.subrange(0, j + 2);
        assert(lo.drop_first() =~= rest.subrange(0, j));
        assert(hi.drop_first() =~= rest.subrange(0, j + 1));
        assert(lo[0] == weights[0]);
        assert(hi[0] == weights[0]);
        lemma_weight_sum_first(lo);
        lemma_weight_sum_first(hi);
    }
}

/// Calls `rand::Rng::random_range(0..bound)` on the thread-local generator;
/// the value is random and lies in `0..bound`.
#[verifier::external_body]
pub(crate) fn random_below(bound: i64) -> (r: i64)
    requires
        bound > 0,
    ensures
        0 <= r < bound,
{
    rand::Rng::random_range(&mut rand::rng(), 0..bound)
}

/// Calls `rand::Rng::random_range(low..=high)` on the thread-local generator;
/// the value is random and lies in `low..=high`.
#[verifier::external_body]
pub(crate) fn random_between(low: usize, high: usize) -> (r: usize)
    requires
        low <= high,
    ensures
        low <= r <= high,
{
    rand::Rng::random_range(&mut rand::rng(), low..=high)
}

/// The drop a given roll selects.
pub fn select_weighted(weights: &[i64], roll: i64) -> (r: usize)
    requires
        0 < weights@.len() < 0x1000_0000_0000_0000,
    ensures
        r == select_by_roll(weights@, roll as int),
        r < weights@.len(),
{
    let n: usize = weights.len();
    let mut i: usize = 0;
    let mut left: i128 = roll as i128;
    assert(weights@.subrange(0, n as int) =~= weights@);
    while i + 1 < n
        invariant
            0 <= i < n,
            n == weights@.len(),
            n < 0x1000_0000_0000_0000,
            select_by_roll(weights@, roll as int) == i + select_by_roll(
                weights@.subrange(i as int, n as int),
                left as int,
            ),
            -0x8000_0000_0000_0000 * (i + 1) <= left <= 0x8000_0000_0000_0000 * (i + 1),
        decreases n - i,
    {
        let ghost rest = weights@.subrange(i as int, n as int);
        assert(rest[0] == weights@[i as int]);
        let w: i128 = weights[i] as i128;
        if left < w {
            return i;
        }
        assert(rest.drop_first() =~= weights@.subrange(i + 1, n as int));
        left = left - w;
        i = i + 1;
    }
    i
}

/// Draws a drop by weight: every active drop is chosen with probability
/// proportional to its weight.
pub fn choose_drop_index(weights: &[i64]) -> (r: Result<usize, LootboxError>)
    requires
        weights@.len() < 0x1000_0000_0000_0000,
        -0x8000_0000_0000_0000 <= weight_sum(weights@) <= 0x7fff_ffff_ffff_ffff,
    ensures
        match r {
            Ok(i) => weights@.len() > 0 && weight_sum(weights@) > 0 && i < weights@.len() && exists|
                roll: int,
            | 0 <= roll < weight_sum(weights@) && i == select_by_roll(weights@, roll),
            Err(e) => (weights@.len() == 0 && e == LootboxError::NoActiveDrops) || (weights@.len() > 0
                && weight_sum(weights@) <= 0 && e == LootboxError::TotalWeightNotPositive),
        },
{
    let n: usize = weights.len();
    if n == 0 {
        return Err(LootboxError::NoActiveDrops);
    }
    let total: i64 = total_weight(weights);
    if total <= 0 {
        return Err(LootboxError::TotalWeightNotPositive);
    }
    let roll: i64 = random_below(total);
    let i: usize = select_weighted(weights, roll);
    Ok(i)
}

/// The sum of the weights.
pub fn total_weight(weights: &[i64]) -> (t: i64)
    requires
        -0x8000_0000_0000_0000 <= weight_sum(weights@) <= 0x7fff_ffff_ffff_ffff,
    ensures
        t == weight_sum(weights@),
{
    let n: usize = weights.len();
    let mut i: usize = 0;
    let mut total: i128 = 0;
    while i < n
        invariant
            0 <= i <= n,
            n == weights@.len(),
            total == weight_sum(weights@.subrange(0, i as int)),
            -0x8000_0000_0000_0000 * i <= total <= 0x7fff_ffff_ffff_ffff * i,
        decreases n - i,
    {
        assert(weights@.subrange(0, i + 1).drop_last() =~= weights@.subrange(0, i as int));
        total = total + weights[i] as i128;
        i = i + 1;
    }
    assert(weights@.subrange(0, n as int) =~= weights@);
    total as i64
}

/// The lowest index the winning entry may take in a feed: 65% of the way
/// through, rounded down.
pub open spec fn winner_floor(feed_length: nat) -> nat {
    feed_length * 65 / 100
}

/// Picks where the won reward appears in the opening feed: index 0 for a
/// feed of one entry, otherwise a random index from 65% of the feed to its
/// last entry.
pub fn choose_winner_index(feed_length: usize) -> (r: usize)
    requires
        feed_length <= MAX_FEED_LENGTH,
    ensures
        feed_length <= 1 ==> r == 0,
        feed_length > 1 ==> winner_floor(feed_length as nat) <= r <= feed_length - 1,
{
    if feed_length <= 1 {
        return 0;
    }
    let min: usize = feed_length * 65 / 100;
    let max: usize = feed_length - 1;
    let low: usize = if min < max {
        min
    } else {
        max
    };
    random_between(low, max)
}

// ---------------------------------------------------------------------------
// Titles.
// ---------------------------------------------------------------------------

/// The translations stored with a drop: a JSON object whose entries are
/// listed in key order (string values as `Some`, other values as `None`),
/// or any other JSON value.
#[derive(Clone, Debug)]
pub enum TitleTranslations {
    NotAnObject,
    Object(Vec<(String, Option<String>)>),
}

/// The string stored under `key`, if the entry exists and is a string.
pub open spec fn translation_for(entries: Seq<(String, Option<String>)>, key: Seq<char>) -> Option<
    Seq<char>,
>
    decreases entries.len(),
{
    if entries.len() == 0 {
        None
    } else if entries[0].0@ == key {
        match entries[0].1 {
            Some(v) => Some(v@),
            None => None,
        }
    } else {
        translation_for(entries.drop_first(), key)
    }
}

/// The first string value in key order.
pub open spec fn first_translation(entries: Seq<(String, Option<String>)>) -> Option<Seq<char>>
    decreases entries.len(),
{
    if entries.len() == 0 {
        None
    } else {
        match entries[0].1 {
            Some(v) => Some(v@),
            None => first_translation(entries.drop_first()),
        }
    }
}

/// The part of a locale before its first `-` (`"pt-BR"` gives `"pt"`).
pub open spec fn primary_language(locale: Seq<char>) -> Seq<char> {
    if exists|i: int| 0 <= i < locale.len() && locale[i] == '-' {
        let i = choose|i: int|
            0 <= i < locale.len() && locale[i] == '-' && forall|k: int| 0 <= k < i ==> locale[k] != '-';
        locale.subrange(0, i)
    } else {
        locale
    }
}

/// The title shown for a drop: the requested locale, then its primary
/// language, then English, then the first translation in key order, then
/// the asset's display name.
pub open spec fn localized_title(
    title: TitleTranslations,
    locale: Option<Seq<char>>,
    fallback: Seq<char>,
) -> Seq<char> {
    match title {
        TitleTranslations::NotAnObject => fallback,
        TitleTranslations::Object(entries) => {
            let e = entries@;
            match locale {
                Some(l) if translation_for(e, l) is Some => translation_for(e, l)->0,
                Some(l) if translation_for(e, primary_language(l)) is Some => translation_for(
                    e,
                    primary_language(l),
                )->0,
                _ => if translation_for(e, "en"@) is Some {
                    translation_for(e, "en"@)->0
                } else if first_translation(e) is Some {
                    first_translation(e)->0
                } else {
                    fallback
                },
            }
        },
    }
}

fn lookup_translation(entries: &Vec<(String, Option<String>)>, key: &str) -> (r: Option<String>)
    ensures
        match r {
            Some(v) => translation_for(entries@, key@) == Some(v@),
            None => translation_for(entries@, key@) is None,
        },
{
    let n: usize = entries.len();
    let mut i: usize = 0;
    assert(entries@.subrange(0, n as int) =~= entries@);
    while i < n
        invariant
            0 <= i <= n,
            n == entries@.len(),
            translation_for(entries@, key@) == translation_for(entries@.subrange(i as int, n as int), key@),
        decreases n - i,
    {
        let ghost rest = entries@.subrange(i as int, n as int);
        assert(rest[0] == entries@[i as int]);
        assert(rest.drop_first() =~= entries@.subrange(i + 1, n as int));
        if str_equal(entries[i].0.as_str(), key) {
            return match &entries[i].1 {
                Some(v) => Some(v.clone()),
                None => None,
            };
        }
        i = i + 1;
    }
    None
}

fn first_string_value(entries: &Vec<(String, Option<String>)>) -> (r: Option<String>)
    ensures
        match r {
            Some(v) => first_translation(entries@) == Some(v@),
            None => first_translation(entries@) is None,
        },
{
    let n: usize = entries.len();
    let mut i: usize = 0;
    assert(entries@.subrange(0, n as int) =~= entries@);
    while i < n
        invariant
            0 <= i <= n,
            n == entries@.len(),
            first_translation(entries@) == first_translation(entries@.subrange(i as int, n as int)),
        decreases n - i,
    {
        let ghost rest = entries@.subrange(i as int, n as int);
        assert(rest[0] == entries@[i as int]);
        assert(rest.drop_first() =~= entries@.subrange(i + 1, n as int));
        match &entries[i].1 {
            Some(v) => {
                return Some(v.clone());
            },
            None => {},
        }
        i = i + 1;
    }
    None
}

/// The part of the locale before its first hyphen.
pub fn primary_language_of(locale: &str) -> (r: String)
    ensures
        r@ == primary_language(locale@),
{
    let cs = chars_of(locale);
    match find_char(cs.as_slice(), '-') {
        Some(i) => {
            let head = slice_copy(cs.as_slice(), 0, i);
            proof {
                assert(locale@[i as int] == '-');
                let j = choose|j: int|
                    0 <= j < locale@.len() && locale@[j] == '-' && forall|k: int|
                        0 <= k < j ==> locale@[k] != '-';
                assert(j == i) by {
                    if j < i {
                        assert(locale@[j] != '-');
                    }
                    if j > i {
                        assert(locale@[i as int] != '-');
                    }
                }
            }
            string_of(head.as_slice())
        },
        None => string_of(cs.as_slice()),
    }
}

pub fn localize_title(title_i18n: &TitleTranslations, locale: Option<&str>, fallback: &str) -> (r:
    String)
    ensures
        r@ == localized_title(
            *title_i18n,
            match locale {
                Some(l) => Some(l@),
                None => None,
            },
            fallback@,
        ),
{
    let entries = match title_i18n {
        TitleTranslations::NotAnObject => {
            return fallback.to_string();
        },
        TitleTranslations::Object(entries) => entries,
    };
    match locale {
        Some(l) => {
            match lookup_translation(entries, l) {
                Some(t) => {
                    return t;
                },
                None => {},
            }
            let primary = primary_language_of(l);
            match lookup_translation(entries, primary.as_str()) {
                Some(t) => {
                    return t;
                },
                None => {},
            }
        },
        None => {},
    }
    match lookup_translation(entries, "en") {
        Some(t) => {
            return t;
        },
        None => {},
    }
    match first_string_value(entries) {
        Some(t) => t,
        None => fallback.to_string(),
    }
}

// ---------------------------------------------------------------------------
// Granting the won reward.
// ---------------------------------------------------------------------------

/// What opening a lootbox does to the winner's holdings.
#[derive(Clone, Copy, Debug, PartialEq, Eq, Structural)]
pub enum RewardAction {
    /// Credit the reward currency by `amount`.
    CreditCurrency { amount: i64 },
    /// Add `amount` units of a stackable asset.
    AddStackable { amount: i64 },
    /// Prolong an expirable asset by `duration_seconds`.
    ProlongExpirable { duration_seconds: i64 },
    /// Grant an entitlement the user does not hold yet.
    GrantEntitlement,
    /// The entitlement is already held: credit `amount` of the default coin.
    CompensateDuplicate { amount: i64 },
}

/// The action for a drawn drop, given whether the user already holds the
/// reward (consulted for entitlements only).
pub open spec fn reward_action_spec(
    reward_is_currency: bool,
    model: OwnershipModel,
    stackable_amount: Option<i64>,
    duration_seconds: Option<i64>,
    compensation: Option<i64>,
    already_owned: bool,
) -> Result<RewardAction, LootboxError> {
    if reward_is_currency {
        match stackable_amount {
            Some(a) => Ok(RewardAction::CreditCurrency { amount: a }),
            None => Err(LootboxError::MissingCurrencyAmount),
        }
    } else {
        match model {
            OwnershipModel::Stackable => match stackable_amount {
                Some(a) => Ok(RewardAction::AddStackable { amount: a }),
                None => Err(LootboxError::MissingStackableAmount),
            },
            OwnershipModel::Expirable => match duration_seconds {
                Some(d) => Ok(RewardAction::ProlongExpirable { duration_seconds: d }),
                None => Err(LootboxError::MissingExpirableDuration),
            },
            OwnershipModel::Entitlement => if already_owned {
                match compensation {
                    Some(c) => Ok(RewardAction::CompensateDuplicate { amount: c }),
                    None => Err(LootboxError::MissingCompensationAmount),
                }
            } else {
                Ok(RewardAction::GrantEntitlement)
            },
        }
    }
}

/// Decides how the drawn reward is granted.
pub fn plan_reward(
    reward_is_currency: bool,
    model: OwnershipModel,
    stackable_amount: Option<i64>,
    duration_seconds: Option<i64>,
    compensation: Option<i64>,
    already_owned: bool,
) -> (r: Result<RewardAction, LootboxError>)
    ensures
        r == reward_action_spec(
            reward_is_currency,
            model,
            stackable_amount,
            duration_seconds,
            compensation,
            already_owned,
        ),
{
    if reward_is_currency {
        return match stackable_amount {
            Some(a) => Ok(RewardAction::CreditCurrency { amount: a }),
            None => Err(LootboxError::MissingCurrencyAmount),
        };
    }
    match model {
        OwnershipModel::Stackable => match stackable_amount {
            Some(a) => Ok(RewardAction::AddStackable { amount: a }),
            None => Err(LootboxError::MissingStackableAmount),
        },
        OwnershipModel::Expirable => match duration_seconds {
            Some(d) => Ok(RewardAction::ProlongExpirable { duration_seconds: d }),
            None => Err(LootboxError::MissingExpirableDuration),
        },
        OwnershipModel::Entitlement => if already_owned {
            match compensation {
                Some(c) => Ok(RewardAction::CompensateDuplicate { amount: c }),
                None => Err(LootboxError::MissingCompensationAmount),
            }
        } else {
            Ok(RewardAction::GrantEntitlement)
        },
    }
}

/// The planned reward carries exactly the quantities configured on the drop:
/// a currency reward credits the drop's amount, a stackable reward adds the
/// drop's amount, an expirable reward is prolonged by the drop's duration,
/// and a held entitlement is compensated by the drop's compensation amount;
/// and the plan succeeds whenever the quantity it needs is configured.
pub proof fn lemma_planned_quantities_are_configured(
    reward_is_currency: bool,
    model: OwnershipModel,
    stackable_amount: Option<i64>,
    duration_seconds: Option<i64>,
    compensation: Option<i64>,
    already_owned: bool,
)
    ensures
        ({
            let r = reward_action_spec(
                reward_is_currency,
                model,
                stackable_amount,
                duration_seconds,
                compensation,
                already_owned,
            );
            &&& r matches Ok(RewardAction::CreditCurrency { amount }) ==> reward_is_currency && stackable_amount
                == Some(amount)
            &&& r matches Ok(RewardAction::AddStackable { amount }) ==> !reward_is_currency && model
                == OwnershipModel::Stackable && stackable_amount == Some(amount)
            &&& r matches Ok(RewardAction::ProlongExpirable { duration_seconds: d }) ==> !reward_is_currency && model
                == OwnershipModel::Expirable && duration_seconds == Some(d)
            &&& r matches Ok(RewardAction::CompensateDuplicate { amount }) ==> !reward_is_currency && model
                == OwnershipModel::Entitlement && already_owned && compensation == Some(amount)
            &&& r matches Ok(RewardAction::GrantEntitlement) ==> !reward_is_currency && model
                == OwnershipModel::Entitlement && !already_owned
            &&& (reward_is_currency || model == OwnershipModel::Stackable) && stackable_amount is Some ==> r is Ok
            &&& !reward_is_currency && model == OwnershipModel::Expirable && duration_seconds is Some ==> r is Ok
        }),
{
}

/// A reward as shown to the player: the drawn one, or what was granted in
/// its place.
#[derive(Clone, Debug)]
pub struct OpenRewardView {
    pub asset_definition_id: u128,
    pub asset_key: String,
    pub display_name: String,
    pub title: String,
    pub ownership_model: String,
    pub amount: Option<i64>,
    pub duration_seconds: Option<i64>,
    pub expires_at: Option<i64>,
}

/// What opening produced: the drawn reward, what was granted, and whether a
/// duplicate entitlement was compensated.
#[derive(Clone, Debug)]
pub struct RewardApplication {
    pub selected: OpenRewardView,
    pub granted: OpenRewardView,
    pub was_compensated: bool,
}

/// Two reward views agree on every field.
pub open spec fn same_reward(a: OpenRewardView, b: OpenRewardView) -> bool {
    &&& a.asset_definition_id == b.asset_definition_id
    &&& a.asset_key@ == b.asset_key@
    &&& a.display_name@ == b.display_name@
    &&& a.title@ == b.title@
    &&& a.ownership_model@ == b.ownership_model@
    &&& a.amount == b.amount
    &&& a.duration_seconds == b.duration_seconds
    &&& a.expires_at == b.expires_at
}

fn copy_reward(r: &OpenRewardView) -> (c: OpenRewardView)
    ensures
        same_reward(c, *r),
{
    OpenRewardView {
        asset_definition_id: r.asset_definition_id,
        asset_key: r.asset_key.clone(),
        display_name: r.display_name.clone(),
        title: r.title.clone(),
        ownership_model: r.ownership_model.clone(),
        amount: r.amount,
        duration_seconds: r.duration_seconds,
        expires_at: r.expires_at,
    }
}

/// The drawn reward as the player sees it.
pub fn selected_reward(
    reward_asset: &AssetDefinitionRecord,
    model: OwnershipModel,
    title: String,
    stackable_amount: Option<i64>,
    duration_seconds: Option<i64>,
) -> (r: OpenRewardView)
    ensures
        r.asset_definition_id == reward_asset.id,
        r.asset_key@ == reward_asset.key@,
        r.display_name@ == reward_asset.display_name@,
        r.title@ == title@,
        r.ownership_model@ == model.name(),
        r.amount == stackable_amount,
        r.duration_seconds == duration_seconds,
        r.expires_at is None,
{
    OpenRewardView {
        asset_definition_id: reward_asset.id,
        asset_key: reward_asset.key.clone(),
        display_name: reward_asset.display_name.clone(),
        title,
        ownership_model: model.as_str().to_string(),
        amount: stackable_amount,
        duration_seconds,
        expires_at: None,
    }
}

/// The wallet credit an action makes: the reward currency for a currency
/// reward, the default coin for a compensated duplicate, none otherwise.
pub open spec fn credit_spec(action: RewardAction, reward_asset_key: Seq<char>) -> Option<(Seq<char>, i64)> {
    match action {
        RewardAction::CreditCurrency { amount } => Some((reward_asset_key, amount)),
        RewardAction::CompensateDuplicate { amount } => Some((DEFAULT_COIN_ASSET_KEY@, amount)),
        _ => None,
    }
}

/// The wallet to credit, and by how much, for the drawn reward.
pub fn reward_credit(action: RewardAction, reward_asset_key: &str) -> (r: Option<(String, i64)>)
    ensures
        match r {
            Some((k, a)) => credit_spec(action, reward_asset_key@) == Some((k@, a)),
            None => credit_spec(action, reward_asset_key@) is None,
        },
{
    match action {
        RewardAction::CreditCurrency { amount } => Some((reward_asset_key.to_string(), amount)),
        RewardAction::CompensateDuplicate { amount } => Some((DEFAULT_COIN_ASSET_KEY.to_string(), amount)),
        _ => None,
    }
}

/// The views recorded for a performed action. A prolonged expirable reward
/// shows the new expiry `expires_at`; a compensation shows the default coin
/// asset (looked up by `DEFAULT_COIN_ASSET_KEY`), which must exist.
pub fn reward_application(
    selected: &OpenRewardView,
    action: RewardAction,
    expires_at: Option<i64>,
    compensation_asset: Option<&AssetDefinitionRecord>,
) -> (r: Result<RewardApplication, LootboxError>)
    requires
        compensation_asset matches Some(c) ==> c.key@ == DEFAULT_COIN_ASSET_KEY@,
    ensures
        match action {
            RewardAction::CompensateDuplicate { amount } => match compensation_asset {
                None => r == Err::<RewardApplication, LootboxError>(
                    LootboxError::DefaultCurrencyMissing,
                ),
                Some(c) => r matches Ok(app) && {
                    &&& same_reward(app.selected, *selected)
                    &&& app.was_compensated
                    &&& app.granted.asset_definition_id == c.id
                    &&& app.granted.asset_key@ == DEFAULT_COIN_ASSET_KEY@
                    &&& app.granted.display_name@ == c.display_name@
                    &&& app.granted.title@ == "Duplicate compensation"@
                    &&& app.granted.ownership_model@ == "stackable"@
                    &&& app.granted.amount == Some(amount)
                    &&& app.granted.duration_seconds is None
                    &&& app.granted.expires_at is None
                },
            },
            RewardAction::CreditCurrency { amount } => r matches Ok(app) && {
                &&& same_reward(app.selected, OpenRewardView { amount: Some(amount), ..*selected })
                &&& same_reward(app.granted, OpenRewardView { amount: Some(amount), ..*selected })
                &&& !app.was_compensated
            },
            RewardAction::AddStackable { amount } => r matches Ok(app) && {
                &&& same_reward(app.selected, *selected)
                &&& same_reward(
                    app.granted,
                    OpenRewardView {
                        amount: Some(amount),
                        duration_seconds: None,
                        expires_at: None,
                        ..*selected
                    },
                )
                &&& !app.was_compensated
            },
            RewardAction::ProlongExpirable { duration_seconds } => r matches Ok(app) && {
                &&& same_reward(app.selected, *selected)
                &&& same_reward(
                    app.granted,
                    OpenRewardView {
                        amount: None,
                        duration_seconds: Some(duration_seconds),
                        expires_at: expires_at,
                        ..*selected
                    },
                )
                &&& !app.was_compensated
            },
            RewardAction::GrantEntitlement => r matches Ok(app) && {
                &&& same_reward(app.selected, *selected)
                &&& same_reward(app.granted, *selected)
                &&& !app.was_compensated
            },
        },
{
    match action {
        RewardAction::CreditCurrency { amount } => {
            let mut sel = copy_reward(selected);
            sel.amount = Some(amount);
            let granted = copy_reward(&sel);
            Ok(RewardApplication { selected: sel, granted, was_compensated: false })
        },
        RewardAction::AddStackable { amount } => {
            let mut granted = copy_reward(selected);
            granted.amount = Some(amount);
            granted.duration_seconds = None;
            granted.expires_at = None;
            Ok(RewardApplication { selected: copy_reward(selected), granted, was_compensated: false })
        },
        RewardAction::ProlongExpirable { duration_seconds } => {
            let mut granted = copy_reward(selected);
            granted.amount = None;
            granted.duration_seconds = Some(duration_seconds);
            granted.expires_at = expires_at;
            Ok(RewardApplication { selected: copy_reward(selected), granted, was_compensated: false })
        },
        RewardAction::GrantEntitlement => {
            Ok(
                RewardApplication {
                    selected: copy_reward(selected),
                    granted: copy_reward(selected),
                    was_compensated: false,
                },
            )
        },
        RewardAction::CompensateDuplicate { amount } => {
            let c = match compensation_asset {
                Some(c) => c,
                None => {
                    return Err(LootboxError::DefaultCurrencyMissing);
                },
            };
            let granted = OpenRewardView {
                asset_definition_id: c.id,
                asset_key: c.key.clone(),
                display_name: c.display_name.clone(),
                title: "Duplicate compensation".to_string(),
                ownership_model: OwnershipModel::Stackable.as_str().to_string(),
                amount: Some(amount),
                duration_seconds: None,
                expires_at: None,
            };
            Ok(RewardApplication { selected: copy_reward(selected), granted, was_compensated: true })
        },
    }
}


// ---------------------------------------------------------------------------
// The opening feed.
// ---------------------------------------------------------------------------

/// An active drop as an opening reads it: its reward, quantities, weight and
/// translated titles.
#[derive(Clone, Debug)]
pub struct DropCandidate {
    pub reward_asset_key: String,
    pub reward_display_name: String,
    pub ownership_model: OwnershipModel,
    pub stackable_amount: Option<i64>,
    pub duration_seconds: Option<i64>,
    pub weight: i64,
    pub title_i18n: TitleTranslations,
}

/// One entry of the strip of rewards scrolled past while a lootbox opens.
#[derive(Clone, Debug)]
pub struct OpenFeedEntryView {
    pub asset_key: String,
    pub display_name: String,
    pub title: String,
    pub ownership_model: String,
    pub amount: Option<i64>,
    pub duration_seconds: Option<i64>,
}

pub open spec fn locale_view(locale: Option<&str>) -> Option<Seq<char>> {
    match locale {
        Some(l) => Some(l@),
        None => None,
    }
}

/// The feed entry shows the drop, titled for the locale.
pub open spec fn shows_drop(e: OpenFeedEntryView, d: DropCandidate, locale: Option<Seq<char>>) -> bool {
    &&& e.asset_key@ == d.reward_asset_key@
    &&& e.display_name@ == d.reward_display_name@
    &&& e.title@ == localized_title(d.title_i18n, locale, d.reward_display_name@)
    &&& e.ownership_model@ == d.ownership_model.name()
    &&& e.amount == d.stackable_amount
    &&& e.duration_seconds == d.duration_seconds
}

/// The feed entry shows the given reward.
pub open spec fn shows_reward(e: OpenFeedEntryView, r: OpenRewardView) -> bool {
    &&& e.asset_key@ == r.asset_key@
    &&& e.display_name@ == r.display_name@
    &&& e.title@ == r.title@
    &&& e.ownership_model@ == r.ownership_model@
    &&& e.amount == r.amount
    &&& e.duration_seconds == r.duration_seconds
}

pub open spec fn weights_of(drops: Seq<DropCandidate>) -> Seq<i64> {
    drops.map_values(|d: DropCandidate| d.weight)
}

/// Drop `j` is what some roll in `0..total` selects.
pub open spec fn drawable(drops: Seq<DropCandidate>, j: int) -> bool {
    exists|roll: int|
        0 <= roll < weight_sum(weights_of(drops)) && j == select_by_roll(weights_of(drops), roll)
}

/// Entry `k` of the feed shows some drawable drop.
pub open spec fn drawn_entry(
    feed: Seq<OpenFeedEntryView>,
    drops: Seq<DropCandidate>,
    locale: Option<Seq<char>>,
    k: int,
) -> bool {
    exists|j: int| 0 <= j < drops.len() && drawable(drops, j) && shows_drop(feed[k], drops[j], locale)
}

/// The feed entry for a drop.
pub fn feed_entry(d: &DropCandidate, locale: Option<&str>) -> (e: OpenFeedEntryView)
    ensures
        shows_drop(e, *d, locale_view(locale)),
{
    OpenFeedEntryView {
        asset_key: d.reward_asset_key.clone(),
        display_name: d.reward_display_name.clone(),
        title: localize_title(&d.title_i18n, locale, d.reward_display_name.as_str()),
        ownership_model: d.ownership_model.as_str().to_string(),
        amount: d.stackable_amount,
        duration_seconds: d.duration_seconds,
    }
}

fn drop_weights(drops: &Vec<DropCandidate>) -> (w: Vec<i64>)
    ensures
        w@ == weights_of(drops@),
{
    let n: usize = drops.len();
    let mut w: Vec<i64> = Vec::new();
    let mut i: usize = 0;
    while i < n
        invariant
            0 <= i <= n,
            n == drops@.len(),
            w@ == weights_of(drops@.subrange(0, i as int)),
        decreases n - i,
    {
        w.push(drops[i].weight);
        assert(weights_of(drops@.subrange(0, i + 1)) =~= weights_of(drops@.subrange(0, i as int)).push(
            drops@[i as int].weight,
        ));
        i = i + 1;
    }
    assert(drops@.subrange(0, n as int) =~= drops@);
    w
}

/// Draws `feed_length` entries independently by weight, titled for the
/// locale.
pub fn generate_feed(drops: &Vec<DropCandidate>, feed_length: usize, locale: Option<&str>) -> (r:
    Result<Vec<OpenFeedEntryView>, LootboxError>)
    requires
        drops@.len() < 0x1000_0000_0000_0000,
        -0x8000_0000_0000_0000 <= weight_sum(weights_of(drops@)) <= 0x7fff_ffff_ffff_ffff,
    ensures
        r is Err <==> feed_length > 0 && (drops@.len() == 0 || weight_sum(weights_of(drops@)) <= 0),
        r matches Err(e) ==> (if drops@.len() == 0 {
            e == LootboxError::NoActiveDrops
        } else {
            e == LootboxError::TotalWeightNotPositive
        }),
        r matches Ok(feed) ==> feed@.len() == feed_length && forall|k: int|
            0 <= k < feed_length ==> #[trigger] drawn_entry(feed@, drops@, locale_view(locale), k),
{
    let weights = drop_weights(drops);
    let mut items: Vec<OpenFeedEntryView> = Vec::new();
    let ghost mut picks: Seq<int> = Seq::empty();
    let mut k: usize = 0;
    while k < feed_length
        invariant
            0 <= k <= feed_length,
            weights@ == weights_of(drops@),
            weights@.len() == drops@.len(),
            drops@.len() < 0x1000_0000_0000_0000,
            -0x8000_0000_0000_0000 <= weight_sum(weights@) <= 0x7fff_ffff_ffff_ffff,
            items@.len() == k,
            picks.len() == k,
            k > 0 ==> drops@.len() > 0 && weight_sum(weights@) > 0,
            forall|m: int|
                0 <= m < k ==> 0 <= #[trigger] picks[m] < drops@.len() && drawable(drops@, picks[m])
                    && shows_drop(items@[m], drops@[picks[m]], locale_view(locale)),
        decreases feed_length - k,
    {
        let j: usize = match choose_drop_index(weights.as_slice()) {
            Ok(j) => j,
            Err(e) => {
                return Err(e);
            },
        };
        let entry = feed_entry(&drops[j], locale);
        items.push(entry);
        proof {
            picks = picks.push(j as int);
        }
        k = k + 1;
    }
    assert forall|m: int| 0 <= m < feed_length implies #[trigger] drawn_entry(
        items@,
        drops@,
        locale_view(locale),
        m,
    ) by {
        let j = picks[m];
        assert(0 <= j < drops@.len() && drawable(drops@, j));
    }
    Ok(items)
}

/// Puts the won reward at `index` of the feed, leaving the other entries.
pub fn place_winner(feed: &mut Vec<OpenFeedEntryView>, index: usize, selected: &OpenRewardView)
    requires
        index < old(feed)@.len(),
    ensures
        final(feed)@.len() == old(feed)@.len(),
        shows_reward(final(feed)@[index as int], *selected),
        forall|k: int| 0 <= k < old(feed)@.len() && k != index ==> final(feed)@[k] == old(feed)@[k],
{
    let entry = OpenFeedEntryView {
        asset_key: selected.asset_key.clone(),
        display_name: selected.display_name.clone(),
        title: selected.title.clone(),
        ownership_model: selected.ownership_model.clone(),
        amount: selected.amount,
        duration_seconds: selected.duration_seconds,
    };
    feed.set(index, entry);
}

/// The feed of an opening: random entries drawn by weight, with the won
/// reward at a random index from 65% of the feed to its end.
pub fn open_feed(
    drops: &Vec<DropCandidate>,
    feed_length: usize,
    locale: Option<&str>,
    selected: &OpenRewardView,
) -> (r: Result<(Vec<OpenFeedEntryView>, usize), LootboxError>)
    requires
        1 <= feed_length <= MAX_FEED_LENGTH,
        drops@.len() < 0x1000_0000_0000_0000,
        -0x8000_0000_0000_0000 <= weight_sum(weights_of(drops@)) <= 0x7fff_ffff_ffff_ffff,
    ensures
        r is Err <==> (drops@.len() == 0 || weight_sum(weights_of(drops@)) <= 0),
        r matches Err(e) ==> (if drops@.len() == 0 {
            e == LootboxError::NoActiveDrops
        } else {
            e == LootboxError::TotalWeightNotPositive
        }),
        r matches Ok((feed, w)) ==> {
            &&& feed@.len() == feed_length
            &&& (feed_length == 1 ==> w == 0)
            &&& (feed_length > 1 ==> winner_floor(feed_length as nat) <= w < feed_length)
            &&& shows_reward(feed@[w as int], *selected)
            &&& forall|k: int|
                0 <= k < feed_length && k != w ==> #[trigger] drawn_entry(
                    feed@,
                    drops@,
                    locale_view(locale),
                    k,
                )
        },
{
    let winner_index = choose_winner_index(feed_length);
    let mut feed = match generate_feed(drops, feed_length, locale) {
        Ok(f) => f,
        Err(e) => {
            return Err(e);
        },
    };
    let ghost before = feed@;
    place_winner(&mut feed, winner_index, selected);
    proof {
        assert forall|k: int| 0 <= k < feed_length && k != winner_index implies #[trigger] drawn_entry(
            feed@,
            drops@,
            locale_view(locale),
            k,
        ) by {
            assert(feed@[k] == before[k]);
            assert(drawn_entry(before, drops@, locale_view(locale), k));
        }
    }
    Ok((feed, winner_index))
}

/// The locale an opening titles rewards for: none when blank.
pub fn effective_locale(locale: Option<String>) -> (r: Option<String>)
    ensures
        match locale {
            Some(l) => if is_blank(l@) {
                r is None
            } else {
                r matches Some(v) && v@ == l@
            },
            None => r is None,
        },
{
    match locale {
        Some(l) => {
            if is_blank_str(l.as_str()) {
                None
            } else {
                Some(l)
            }
        },
        None => None,
    }
}

/// The checks an opening makes before touching any holding: a valid actor,
/// a valid lootbox key (returned normalized) and a feed length in range.
pub fn check_open_request(actor: &OwnershipActor, asset_key: &str, feed_length: Option<usize>) -> (r:
    Result<(String, usize), LootboxError>)
    ensures
        !actor.is_valid() ==> r == Err::<(String, usize), LootboxError>(LootboxError::Ownership(
            if actor.kind == OwnershipActorKind::System {
                OwnershipError::SystemActorWithoutServiceName
            } else {
                OwnershipError::UserActorWithoutUserId
            },
        )),
        actor.is_valid() ==> match asset_key_outcome(asset_key@) {
            Err(e) => r == Err::<(String, usize), LootboxError>(LootboxError::Ownership(e)),
            Ok(key) => {
                let n = match feed_length {
                    Some(n) => n,
                    None => DEFAULT_FEED_LENGTH,
                };
                if 1 <= n <= MAX_FEED_LENGTH {
                    r matches Ok((k, m)) && k@ == key && m == n
                } else {
                    r == Err::<(String, usize), LootboxError>(LootboxError::FeedLengthOutOfRange)
                }
            },
        },
{
    match actor.validate() {
        Ok(()) => {},
        Err(e) => {
            return Err(LootboxError::Ownership(e));
        },
    }
    let key = match validate_asset_key(asset_key) {
        Ok(k) => k,
        Err(e) => {
            return Err(LootboxError::Ownership(e));
        },
    };
    let n = validate_feed_length(feed_length)?;
    Ok((key, n))
}

// ---------------------------------------------------------------------------
// Opening history.
// ---------------------------------------------------------------------------

/// The asset recorded as granted: the drawn reward when none was stored
/// (the nil id).
pub fn history_granted_asset_id(granted_asset_id: u128, reward_asset_id: u128) -> (r: u128)
    ensures
        r == (if granted_asset_id == 0 {
            reward_asset_id
        } else {
            granted_asset_id
        }),
{
    if granted_asset_id == 0 {
        reward_asset_id
    } else {
        granted_asset_id
    }
}

/// The granted reward of a stored opening; blank or missing granted fields
/// fall back to those of the drawn reward.
pub fn history_granted_reward(
    selected: &OpenRewardView,
    granted_asset: &AssetDefinitionRecord,
    granted_title: String,
    granted_ownership_model: String,
    granted_amount: Option<i64>,
    granted_duration_seconds: Option<i64>,
    granted_expires_at: Option<i64>,
) -> (r: OpenRewardView)
    ensures
        r.asset_definition_id == granted_asset.id,
        r.asset_key@ == granted_asset.key@,
        r.display_name@ == granted_asset.display_name@,
        r.title@ == (if is_blank(granted_title@) {
            selected.title@
        } else {
            granted_title@
        }),
        r.ownership_model@ == (if is_blank(granted_ownership_model@) {
            selected.ownership_model@
        } else {
            granted_ownership_model@
        }),
        r.amount == (if granted_amount is Some {
            granted_amount
        } else {
            selected.amount
        }),
        r.duration_seconds == (if granted_duration_seconds is Some {
            granted_duration_seconds
        } else {
            selected.duration_seconds
        }),
        r.expires_at == (if granted_expires_at is Some {
            granted_expires_at
        } else {
            selected.expires_at
        }),
{
    let title = if is_blank_str(granted_title.as_str()) {
        selected.title.clone()
    } else {
        granted_title
    };
    let ownership_model = if is_blank_str(granted_ownership_model.as_str()) {
        selected.ownership_model.clone()
    } else {
        granted_ownership_model
    };
    OpenRewardView {
        asset_definition_id: granted_asset.id,
        asset_key: granted_asset.key.clone(),
        display_name: granted_asset.display_name.clone(),
        title,
        ownership_model,
        amount: match granted_amount {
            Some(a) => Some(a),
            None => selected.amount,
        },
        duration_seconds: match granted_duration_seconds {
            Some(d) => Some(d),
            None => selected.duration_seconds,
        },
        expires_at: match granted_expires_at {
            Some(t) => Some(t),
            None => selected.expires_at,
        },
    }
}

/// Drop titles by locale: missing reads as no titles; anything but an
/// object is refused.
pub fn normalize_title_i18n(value: Option<JsonValue>) -> (r: Result<JsonValue, LootboxError>)
    ensures
        match value {
            None => r matches Ok(v) && json_view(v) == JsonModel::Object(Seq::empty()),
            Some(v) => match json_view(v) {
                JsonModel::Object(_) => r matches Ok(x) && json_view(x) == json_view(v),
                _ => r matches Err(LootboxError::TitleTranslationsNotObject),
            },
        },
{
    match value {
        None => {
            let members: Vec<(String, JsonValue)> = Vec::new();
            let v = JsonValue::Object(members);
            proof {
                match json_view(v) {
                    JsonModel::Object(ms) => {
                        assert(ms =~= Seq::empty());
                    },
                    _ => {},
                }
            }
            Ok(v)
        },
        Some(v) => match v {
            JsonValue::Object(_) => Ok(v),
            _ => Err(LootboxError::TitleTranslationsNotObject),
        },
    }
}

} // verus!
