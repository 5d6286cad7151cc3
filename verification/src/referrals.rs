//! Referral campaigns: codes, titles, statuses and sources, when a campaign
//! is active, which rewards a campaign may carry and how they are granted,
//! and the daily registration statistics.
use vstd::prelude::*;
use crate::ownership::{AssetDefinitionRecord, OwnershipModel};
use crate::json::{json_view, JsonModel, JsonValue};
use crate::pattern::{pattern_compiles, pattern_matches, regex_matches, REFERRAL_CODE_PATTERN};
use crate::text::{
    chars_of, is_blank_str, lowercase_of, str_equal, to_lowercase, to_uppercase, trim, trim_spec,
    uppercase_of,
};

verus! {

pub const CAMPAIGN_STATUS_ACTIVE: &'static str = "active";

pub const CAMPAIGN_STATUS_DRAFT: &'static str = "draft";

pub const CAMPAIGN_STATUS_REVOKED: &'static str = "revoked";

pub const REGISTRATION_SOURCE_LINK: &'static str = "link";

pub const REGISTRATION_SOURCE_MANUAL: &'static str = "manual";

pub const REWARD_STATUS_GRANTED: &'static str = "granted";

pub const REWARD_REASON_CODE: &'static str = "referral_welcome_reward";

/// Statistics cover the last 30 days when no start is given.
pub const DEFAULT_STATS_DAYS: i64 = 30;

pub const MAX_TITLE_CHARS: usize = 120;

pub const MILLIS_PER_DAY: i64 = 86_400_000;

#[derive(Clone, Copy, Debug, PartialEq, Eq, Structural)]
pub enum ReferralError {
    CodeEmpty,
    CodeInvalid,
    CodePatternUnavailable,
    TitleEmpty,
    TitleTooLong,
    AssetKeyEmpty,
    UnsupportedStatus,
    UnsupportedSource,
    InvalidTimeWindow,
    StatsWindowReversed,
    CurrencyRewardNotStackable,
    CurrencyRewardInvalid,
    StackableRewardInvalid,
    EntitlementRewardInvalid,
    ExpirableRewardInvalid,
    UnsupportedOwnershipModel,
    RewardAssetInactive,
}

impl ReferralError {
    pub open spec fn message_spec(self) -> Seq<char> {
        match self {
            ReferralError::CodeEmpty => "Referral code cannot be empty"@,
            ReferralError::CodeInvalid =>
                "Referral code must be 3-32 characters and contain only A-Z, 0-9, underscore, or hyphen"@,
            ReferralError::CodePatternUnavailable => "Referral code pattern could not be compiled"@,
            ReferralError::TitleEmpty => "Referral campaign title cannot be empty"@,
            ReferralError::TitleTooLong => "Referral campaign title is too long"@,
            ReferralError::AssetKeyEmpty => "Reward asset key cannot be empty"@,
            ReferralError::UnsupportedStatus => "Unsupported referral campaign status"@,
            ReferralError::UnsupportedSource => "Unsupported referral source"@,
            ReferralError::InvalidTimeWindow => "Referral campaign endsAt must be after startsAt"@,
            ReferralError::StatsWindowReversed => "Stats from must be before to"@,
            ReferralError::CurrencyRewardNotStackable => "Currency reward must use stackable ownership"@,
            ReferralError::CurrencyRewardInvalid =>
                "Currency reward requires positive amount and no duration"@,
            ReferralError::StackableRewardInvalid =>
                "Stackable reward requires positive amount and no duration"@,
            ReferralError::EntitlementRewardInvalid =>
                "Entitlement reward must not include amount or duration"@,
            ReferralError::ExpirableRewardInvalid =>
                "Expirable reward requires positive duration and no amount"@,
            ReferralError::UnsupportedOwnershipModel => "Unsupported ownership model"@,
            ReferralError::RewardAssetInactive => "Reward asset is inactive"@,
        }
    }

    pub fn message(&self) -> (r: &'static str)
        ensures
            r@ == self.message_spec(),
    {
        match self {
            ReferralError::CodeEmpty => "Referral code cannot be empty",
            ReferralError::CodeInvalid =>
                "Referral code must be 3-32 characters and contain only A-Z, 0-9, underscore, or hyphen",
            ReferralError::CodePatternUnavailable => "Referral code pattern could not be compiled",
            ReferralError::TitleEmpty => "Referral campaign title cannot be empty",
            ReferralError::TitleTooLong => "Referral campaign title is too long",
            ReferralError::AssetKeyEmpty => "Reward asset key cannot be empty",
            ReferralError::UnsupportedStatus => "Unsupported referral campaign status",
            ReferralError::UnsupportedSource => "Unsupported referral source",
            ReferralError::InvalidTimeWindow => "Referral campaign endsAt must be after startsAt",
            ReferralError::StatsWindowReversed => "Stats from must be before to",
            ReferralError::CurrencyRewardNotStackable => "Currency reward must use stackable ownership",
            ReferralError::CurrencyRewardInvalid =>
                "Currency reward requires positive amount and no duration",
            ReferralError::StackableRewardInvalid =>
                "Stackable reward requires positive amount and no duration",
            ReferralError::EntitlementRewardInvalid =>
                "Entitlement reward must not include amount or duration",
            ReferralError::ExpirableRewardInvalid =>
                "Expirable reward requires positive duration and no amount",
            ReferralError::UnsupportedOwnershipModel => "Unsupported ownership model",
            ReferralError::RewardAssetInactive => "Reward asset is inactive",
        }
    }
}

pub open spec fn text_result(r: Result<String, ReferralError>) -> Result<Seq<char>, ReferralError> {
    match r {
        Ok(s) => Ok(s@),
        Err(e) => Err(e),
    }
}

// ---------------------------------------------------------------------------
// Codes, titles, statuses.
// ---------------------------------------------------------------------------

/// A code is trimmed and upper-cased, then must be 3 to 32 characters of
/// `A-Z`, `0-9`, `_` or `-`.
pub open spec fn referral_code_outcome(code: Seq<char>) -> Result<Seq<char>, ReferralError> {
    let n = uppercase_of(trim_spec(code));
    if n.len() == 0 {
        Err(ReferralError::CodeEmpty)
    } else if !pattern_compiles(REFERRAL_CODE_PATTERN@) {
        Err(ReferralError::CodePatternUnavailable)
    } else if !pattern_matches(REFERRAL_CODE_PATTERN@, n) {
        Err(ReferralError::CodeInvalid)
    } else {
        Ok(n)
    }
}

pub fn normalize_referral_code(code: &str) -> (r: Result<String, ReferralError>)
    ensures
        text_result(r) == referral_code_outcome(code@),
{
    let trimmed = trim(code);
    let normalized = to_uppercase(trimmed.as_str());
    let cs = chars_of(normalized.as_str());
    if cs.len() == 0 {
        return Err(ReferralError::CodeEmpty);
    }
    match regex_matches(REFERRAL_CODE_PATTERN, normalized.as_str()) {
        Err(_) => Err(ReferralError::CodePatternUnavailable),
        Ok(false) => Err(ReferralError::CodeInvalid),
        Ok(true) => Ok(normalized),
    }
}

/// A title is trimmed, must not be empty and may have at most 120
/// characters.
pub open spec fn title_outcome(title: Seq<char>) -> Result<Seq<char>, ReferralError> {
    let t = trim_spec(title);
    if t.len() == 0 {
        Err(ReferralError::TitleEmpty)
    } else if t.len() > MAX_TITLE_CHARS {
        Err(ReferralError::TitleTooLong)
    } else {
        Ok(t)
    }
}

pub fn normalize_title(title: &str) -> (r: Result<String, ReferralError>)
    ensures
        text_result(r) == title_outcome(title@),
{
    let t = trim(title);
    let n: usize = chars_of(t.as_str()).len();
    if n == 0 {
        return Err(ReferralError::TitleEmpty);
    }
    if n > MAX_TITLE_CHARS {
        return Err(ReferralError::TitleTooLong);
    }
    Ok(t)
}

/// Reward asset keys are trimmed and lower-cased and must not be empty.
pub open spec fn reward_key_outcome(key: Seq<char>) -> Result<Seq<char>, ReferralError> {
    let n = lowercase_of(trim_spec(key));
    if n.len() == 0 {
        Err(ReferralError::AssetKeyEmpty)
    } else {
        Ok(n)
    }
}

pub fn normalize_asset_key(asset_key: &str) -> (r: Result<String, ReferralError>)
    ensures
        text_result(r) == reward_key_outcome(asset_key@),
{
    let t = trim(asset_key);
    let n = to_lowercase(t.as_str());
    if chars_of(n.as_str()).len() == 0 {
        return Err(ReferralError::AssetKeyEmpty);
    }
    Ok(n)
}

/// The statuses a campaign may have, read after trimming.
pub open spec fn campaign_status_outcome(status: Seq<char>) -> Result<Seq<char>, ReferralError> {
    let t = trim_spec(status);
    if t == "active"@ || t == "draft"@ || t == "revoked"@ {
        Ok(t)
    } else {
        Err(ReferralError::UnsupportedStatus)
    }
}

pub fn normalize_campaign_status(status: &str) -> (r: Result<String, ReferralError>)
    ensures
        text_result(r) == campaign_status_outcome(status@),
{
    let t = trim(status);
    if str_equal(t.as_str(), CAMPAIGN_STATUS_ACTIVE) {
        Ok(CAMPAIGN_STATUS_ACTIVE.to_string())
    } else if str_equal(t.as_str(), CAMPAIGN_STATUS_DRAFT) {
        Ok(CAMPAIGN_STATUS_DRAFT.to_string())
    } else if str_equal(t.as_str(), CAMPAIGN_STATUS_REVOKED) {
        Ok(CAMPAIGN_STATUS_REVOKED.to_string())
    } else {
        Err(ReferralError::UnsupportedStatus)
    }
}

/// How a user arrived: by a link or entered manually, read after trimming.
pub open spec fn registration_source_outcome(source: Seq<char>) -> Result<Seq<char>, ReferralError> {
    let t = trim_spec(source);
    if t == "link"@ || t == "manual"@ {
        Ok(t)
    } else {
        Err(ReferralError::UnsupportedSource)
    }
}

pub fn normalize_registration_source(source: &str) -> (r: Result<String, ReferralError>)
    ensures
        text_result(r) == registration_source_outcome(source@),
{
    let t = trim(source);
    if str_equal(t.as_str(), REGISTRATION_SOURCE_LINK) {
        Ok(REGISTRATION_SOURCE_LINK.to_string())
    } else if str_equal(t.as_str(), REGISTRATION_SOURCE_MANUAL) {
        Ok(REGISTRATION_SOURCE_MANUAL.to_string())
    } else {
        Err(ReferralError::UnsupportedSource)
    }
}

/// When both ends are given, a campaign must end after it starts.
pub fn validate_time_window(starts_at: Option<i64>, ends_at: Option<i64>) -> (r: Result<(), ReferralError>)
    ensures
        r is Err <==> (starts_at matches Some(s) && ends_at matches Some(e) && e <= s),
        r matches Err(e) ==> e == ReferralError::InvalidTimeWindow,
{
    if let (Some(s), Some(e)) = (starts_at, ends_at) {
        if e <= s {
            return Err(ReferralError::InvalidTimeWindow);
        }
    }
    Ok(())
}

/// The time a campaign is revoked at when its status is set: now for the
/// revoked status, cleared otherwise.
pub fn revoked_at_for_status(status: &str, now: i64) -> (r: Option<i64>)
    ensures
        r == (if status@ == "revoked"@ {
            Some(now)
        } else {
            None::<i64>
        }),
{
    if str_equal(status, CAMPAIGN_STATUS_REVOKED) {
        Some(now)
    } else {
        None
    }
}

// ---------------------------------------------------------------------------
// Activity and registration.
// ---------------------------------------------------------------------------

/// A campaign is active when its status is active, it is not revoked, it
/// has started and it has not ended.
pub open spec fn is_campaign_active(
    status: Seq<char>,
    revoked_at: Option<i64>,
    starts_at: Option<i64>,
    ends_at: Option<i64>,
    now: i64,
) -> bool {
    &&& status == "active"@
    &&& revoked_at is None
    &&& !(starts_at matches Some(s) && s > now)
    &&& !(ends_at matches Some(e) && e < now)
}

pub fn campaign_is_active(
    status: &str,
    revoked_at: Option<i64>,
    starts_at: Option<i64>,
    ends_at: Option<i64>,
    now: i64,
) -> (r: bool)
    ensures
        r == is_campaign_active(status@, revoked_at, starts_at, ends_at, now),
{
    if !str_equal(status, CAMPAIGN_STATUS_ACTIVE) || revoked_at.is_some() {
        return false;
    }
    if let Some(s) = starts_at {
        if s > now {
            return false;
        }
    }
    if let Some(e) = ends_at {
        if e < now {
            return false;
        }
    }
    true
}

/// A content creator does not earn a registration through their own
/// campaign.
pub fn registration_applies(content_creator_user_id: Option<u128>, user_id: u128) -> (r: bool)
    ensures
        r == !(content_creator_user_id == Some(user_id)),
{
    match content_creator_user_id {
        Some(c) => c != user_id,
        None => true,
    }
}

// ---------------------------------------------------------------------------
// Rewards.
// ---------------------------------------------------------------------------

/// What a reward must carry for its asset: currencies and stackable assets
/// a positive amount and no duration, expirable assets a positive duration
/// and no amount, entitlements neither.
pub open spec fn reward_outcome(
    is_currency: bool,
    model: Option<OwnershipModel>,
    amount: Option<i64>,
    duration_seconds: Option<i64>,
) -> Result<(), ReferralError> {
    let amount_positive = match amount {
        Some(a) => a > 0,
        None => false,
    };
    let duration_positive = match duration_seconds {
        Some(d) => d > 0,
        None => false,
    };
    match model {
        None => Err(ReferralError::UnsupportedOwnershipModel),
        Some(m) => if is_currency {
            if m != OwnershipModel::Stackable {
                Err(ReferralError::CurrencyRewardNotStackable)
            } else if !amount_positive || duration_seconds is Some {
                Err(ReferralError::CurrencyRewardInvalid)
            } else {
                Ok(())
            }
        } else {
            match m {
                OwnershipModel::Stackable => if !amount_positive || duration_seconds is Some {
                    Err(ReferralError::StackableRewardInvalid)
                } else {
                    Ok(())
                },
                OwnershipModel::Entitlement => if amount is Some || duration_seconds is Some {
                    Err(ReferralError::EntitlementRewardInvalid)
                } else {
                    Ok(())
                },
                OwnershipModel::Expirable => if !duration_positive || amount is Some {
                    Err(ReferralError::ExpirableRewardInvalid)
                } else {
                    Ok(())
                },
            }
        },
    }
}

pub fn validate_reward_for_asset(
    asset: &AssetDefinitionRecord,
    amount: Option<i64>,
    duration_seconds: Option<i64>,
) -> (r: Result<(), ReferralError>)
    ensures
        r == reward_outcome(
            asset.is_currency,
            OwnershipModel::from_name(asset.ownership_model@),
            amount,
            duration_seconds,
        ),
{
    let model = match OwnershipModel::parse(asset.ownership_model.as_str()) {
        Ok(m) => m,
        Err(_) => {
            return Err(ReferralError::UnsupportedOwnershipModel);
        },
    };
    let amount_positive = match amount {
        Some(a) => a > 0,
        None => false,
    };
    let duration_positive = match duration_seconds {
        Some(d) => d > 0,
        None => false,
    };
    if asset.is_currency {
        if model != OwnershipModel::Stackable {
            return Err(ReferralError::CurrencyRewardNotStackable);
        }
        if !amount_positive || duration_seconds.is_some() {
            return Err(ReferralError::CurrencyRewardInvalid);
        }
        return Ok(());
    }
    match model {
        OwnershipModel::Stackable => {
            if !amount_positive || duration_seconds.is_some() {
                return Err(ReferralError::StackableRewardInvalid);
            }
        },
        OwnershipModel::Entitlement => {
            if amount.is_some() || duration_seconds.is_some() {
                return Err(ReferralError::EntitlementRewardInvalid);
            }
        },
        OwnershipModel::Expirable => {
            if !duration_positive || amount.is_some() {
                return Err(ReferralError::ExpirableRewardInvalid);
            }
        },
    }
    Ok(())
}

/// A reward's asset must be active and the reward must suit it.
pub fn check_reward(
    asset: &AssetDefinitionRecord,
    amount: Option<i64>,
    duration_seconds: Option<i64>,
) -> (r: Result<(), ReferralError>)
    ensures
        r == (if !asset.is_active {
            Err(ReferralError::RewardAssetInactive)
        } else {
            reward_outcome(
                asset.is_currency,
                OwnershipModel::from_name(asset.ownership_model@),
                amount,
                duration_seconds,
            )
        }),
{
    if !asset.is_active {
        return Err(ReferralError::RewardAssetInactive);
    }
    validate_reward_for_asset(asset, amount, duration_seconds)
}

/// What granting a welcome reward does.
#[derive(Clone, Copy, Debug, PartialEq, Eq, Structural)]
pub enum ReferralGrant {
    CreditCurrency { amount: i64 },
    AddStackable { amount: i64 },
    GrantEntitlement,
    ProlongExpirable { duration_seconds: i64 },
}

/// The grant for a reward of an active asset; a missing amount or duration
/// counts as zero.
pub fn referral_grant(
    asset: &AssetDefinitionRecord,
    amount: Option<i64>,
    duration_seconds: Option<i64>,
) -> (r: Result<ReferralGrant, ReferralError>)
    ensures
        !asset.is_active ==> r == Err::<ReferralGrant, ReferralError>(ReferralError::RewardAssetInactive),
        asset.is_active && asset.is_currency ==> r == Ok::<ReferralGrant, ReferralError>(
            ReferralGrant::CreditCurrency {
                amount: match amount {
                    Some(a) => a,
                    None => 0,
                },
            },
        ),
        asset.is_active && !asset.is_currency ==> match OwnershipModel::from_name(
            asset.ownership_model@,
        ) {
            None => r == Err::<ReferralGrant, ReferralError>(ReferralError::UnsupportedOwnershipModel),
            Some(OwnershipModel::Stackable) => r == Ok::<ReferralGrant, ReferralError>(
                ReferralGrant::AddStackable {
                    amount: match amount {
                        Some(a) => a,
                        None => 0,
                    },
                },
            ),
            Some(OwnershipModel::Entitlement) => r == Ok::<ReferralGrant, ReferralError>(
                ReferralGrant::GrantEntitlement,
            ),
            Some(OwnershipModel::Expirable) => r == Ok::<ReferralGrant, ReferralError>(
                ReferralGrant::ProlongExpirable {
                    duration_seconds: match duration_seconds {
                        Some(d) => d,
                        None => 0,
                    },
                },
            ),
        },
{
    if !asset.is_active {
        return Err(ReferralError::RewardAssetInactive);
    }
    let a: i64 = match amount {
        Some(a) => a,
        None => 0,
    };
    if asset.is_currency {
        return Ok(ReferralGrant::CreditCurrency { amount: a });
    }
    match OwnershipModel::parse(asset.ownership_model.as_str()) {
        Err(_) => Err(ReferralError::UnsupportedOwnershipModel),
        Ok(OwnershipModel::Stackable) => Ok(ReferralGrant::AddStackable { amount: a }),
        Ok(OwnershipModel::Entitlement) => Ok(ReferralGrant::GrantEntitlement),
        Ok(OwnershipModel::Expirable) => Ok(
            ReferralGrant::ProlongExpirable {
                duration_seconds: match duration_seconds {
                    Some(d) => d,
                    None => 0,
                },
            },
        ),
    }
}

// ---------------------------------------------------------------------------
// Statistics (timestamps in milliseconds, days counted from the epoch, UTC).
// ---------------------------------------------------------------------------

/// The earliest and latest instants the calendar covers, in milliseconds.
pub const MIN_INSTANT: i64 = -8_000_000_000_000_000;

pub const MAX_INSTANT: i64 = 8_000_000_000_000_000;

/// The day an instant falls on.
pub open spec fn day_of(t: int) -> int {
    t / (MILLIS_PER_DAY as int)
}

pub fn day_number(t: i64) -> (d: i64)
    requires
        MIN_INSTANT <= t <= MAX_INSTANT,
    ensures
        d == day_of(t as int),
        d * MILLIS_PER_DAY <= t < d * MILLIS_PER_DAY + MILLIS_PER_DAY,
{
    let q: i64 = if t >= 0 {
        t / MILLIS_PER_DAY
    } else {
        -((-t - 1) / MILLIS_PER_DAY) - 1
    };
    assert(q == day_of(t as int) && q * MILLIS_PER_DAY <= t < q * MILLIS_PER_DAY + MILLIS_PER_DAY)
        by (nonlinear_arith)
        requires
            t >= 0 ==> q == t / 86_400_000,
            t < 0 ==> q == -((-t - 1) / 86_400_000) - 1,
            MIN_INSTANT <= t <= MAX_INSTANT,
    {
    }
    q
}

/// The first and last second of the days the statistics cover: `to`
/// defaults to now and `from` to thirty days before `to`.
pub open spec fn stats_window_outcome(from: Option<i64>, to: Option<i64>, now: i64) -> Result<
    (int, int),
    ReferralError,
> {
    let t = match to {
        Some(v) => v as int,
        None => now as int,
    };
    let f = match from {
        Some(v) => v as int,
        None => t - DEFAULT_STATS_DAYS * MILLIS_PER_DAY,
    };
    if f > t {
        Err(ReferralError::StatsWindowReversed)
    } else {
        Ok((day_of(f) * MILLIS_PER_DAY, day_of(t) * MILLIS_PER_DAY + 86_399_000))
    }
}

pub fn normalize_stats_window(from: Option<i64>, to: Option<i64>, now: i64) -> (r: Result<
    (i64, i64),
    ReferralError,
>)
    requires
        from matches Some(v) ==> MIN_INSTANT <= v <= MAX_INSTANT,
        to matches Some(v) ==> MIN_INSTANT <= v <= MAX_INSTANT,
        MIN_INSTANT <= now <= MAX_INSTANT,
        from is None ==> MIN_INSTANT + DEFAULT_STATS_DAYS * MILLIS_PER_DAY <= match to {
            Some(v) => v,
            None => now,
        },
    ensures
        match stats_window_outcome(from, to, now) {
            Ok((a, b)) => r matches Ok((x, y)) && x == a && y == b,
            Err(e) => r == Err::<(i64, i64), ReferralError>(e),
        },
{
    let t: i64 = match to {
        Some(v) => v,
        None => now,
    };
    let f: i64 = match from {
        Some(v) => v,
        None => t - DEFAULT_STATS_DAYS * MILLIS_PER_DAY,
    };
    if f > t {
        return Err(ReferralError::StatsWindowReversed);
    }
    let fd = day_number(f);
    let td = day_number(t);
    Ok((fd * MILLIS_PER_DAY, td * MILLIS_PER_DAY + 86_399_000))
}

/// What `chrono` writes for the date (`NaiveDate` as `YYYY-MM-DD`) of the
/// instant `secs` seconds after the epoch, in UTC.
pub uninterp spec fn iso_date(secs: int) -> Seq<char>;

/// Formats the UTC date of an instant with `chrono`
/// (`DateTime::from_timestamp`, `date_naive`, `to_string`); the text is
/// named by `iso_date`. `from_timestamp` gives `None` only for instants
/// outside chrono's range (years -262143 to 262142), which holds every
/// instant within 8.1e12 seconds of the epoch.
#[verifier::external_body]
fn date_text_at(secs: i64) -> (r: Option<String>)
    requires
        -8_100_000_000_000 <= secs <= 8_100_000_000_000,
    ensures
        r is Some,
        r.unwrap()@ == iso_date(secs as int),
{
    let d = chrono::DateTime::from_timestamp(secs, 0)?;
    Some(d.date_naive().to_string())
}

/// The date of day `day` after the epoch.
fn day_date_text(day: i64) -> (r: String)
    requires
        MIN_INSTANT / MILLIS_PER_DAY <= day <= MAX_INSTANT / MILLIS_PER_DAY,
    ensures
        r@ == iso_date(day * 86_400),
{
    date_text_at(day * 86_400).unwrap()
}

#[derive(Clone, Debug)]
pub struct ReferralStatsBucket {
    pub date: String,
    pub registrations: u64,
}

#[derive(Clone, Debug)]
pub struct ReferralStatsResponse {
    pub total: u64,
    pub buckets: Vec<ReferralStatsBucket>,
}

/// How many registrations fall on day `day`.
pub open spec fn count_on_day(registered_at: Seq<i64>, day: int) -> nat
    decreases registered_at.len(),
{
    if registered_at.len() == 0 {
        0
    } else {
        count_on_day(registered_at.drop_last(), day) + (if day_of(registered_at.last() as int) == day {
            1nat
        } else {
            0nat
        })
    }
}

pub open spec fn bucket_sum(buckets: Seq<ReferralStatsBucket>) -> int
    decreases buckets.len(),
{
    if buckets.len() == 0 {
        0
    } else {
        bucket_sum(buckets.drop_last()) + buckets.last().registrations
    }
}

proof fn lemma_count_bounded(registered_at: Seq<i64>, day: int)
    ensures
        count_on_day(registered_at, day) <= registered_at.len(),
    decreases registered_at.len(),
{
    if registered_at.len() > 0 {
        lemma_count_bounded(registered_at.drop_last(), day);
    }
}

fn count_registrations(registered_at: &Vec<i64>, day: i64) -> (c: u64)
    requires
        forall|k: int| 0 <= k < registered_at@.len() ==> MIN_INSTANT <= #[trigger] registered_at@[k]
            <= MAX_INSTANT,
    ensures
        c == count_on_day(registered_at@, day as int),
{
    let n: usize = registered_at.len();
    let mut i: usize = 0;
    let mut c: u64 = 0;
    while i < n
        invariant
            0 <= i <= n,
            n == registered_at@.len(),
            forall|k: int| 0 <= k < registered_at@.len() ==> MIN_INSTANT <= #[trigger] registered_at@[k]
                <= MAX_INSTANT,
            c == count_on_day(registered_at@.subrange(0, i as int), day as int),
            c <= i,
        decreases n - i,
    {
        let d = day_number(registered_at[i]);
        assert(registered_at@.subrange(0, i + 1).drop_last() =~= registered_at@.subrange(0, i as int));
        if d == day {
            c = c + 1;
        }
        i = i + 1;
    }
    assert(registered_at@.subrange(0, n as int) =~= registered_at@);
    c
}

/// One bucket per day from the day of `from` to the day of `to`, each with
/// the day's date and number of registrations; the total is their sum.
pub fn build_daily_stats(registered_at: &Vec<i64>, from: i64, to: i64) -> (r: ReferralStatsResponse)
    requires
        MIN_INSTANT <= from <= to <= MAX_INSTANT,
        forall|k: int| 0 <= k < registered_at@.len() ==> MIN_INSTANT <= #[trigger] registered_at@[k]
            <= MAX_INSTANT,
        registered_at@.len() * (day_of(to as int) - day_of(from as int) + 1) <= u64::MAX,
    ensures
        r.buckets@.len() == day_of(to as int) - day_of(from as int) + 1,
        forall|k: int|
            0 <= k < r.buckets@.len() ==> (#[trigger] r.buckets@[k]).date@ == iso_date(
                (day_of(from as int) + k) * 86_400,
            ) && r.buckets@[k].registrations == count_on_day(
                registered_at@,
                day_of(from as int) + k,
            ),
        r.total == bucket_sum(r.buckets@),
{
    let first = day_number(from);
    let last = day_number(to);
    assert(first <= last) by (nonlinear_arith)
        requires
            first * 86_400_000 <= from < first * 86_400_000 + 86_400_000,
            last * 86_400_000 <= to < last * 86_400_000 + 86_400_000,
            from <= to,
    {
    }
    let mut buckets: Vec<ReferralStatsBucket> = Vec::new();
    let mut total: u64 = 0;
    let mut day: i64 = first;
    let ghost n = registered_at@.len();
    while day <= last
        invariant
            first <= day <= last + 1,
            first == day_of(from as int),
            last == day_of(to as int),
            MIN_INSTANT / MILLIS_PER_DAY <= first,
            last <= MAX_INSTANT / MILLIS_PER_DAY,
            n == registered_at@.len(),
            n * (last - first + 1) <= u64::MAX,
            forall|k: int| 0 <= k < registered_at@.len() ==> MIN_INSTANT <= #[trigger] registered_at@[k]
                <= MAX_INSTANT,
            buckets@.len() == day - first,
            forall|k: int|
                0 <= k < buckets@.len() ==> (#[trigger] buckets@[k]).date@ == iso_date((first + k) * 86_400)
                    && buckets@[k].registrations == count_on_day(registered_at@, first + k),
            total == bucket_sum(buckets@),
            total <= n * (day - first),
        decreases last + 1 - day,
    {
        let c = count_registrations(registered_at, day);
        proof {
            lemma_count_bounded(registered_at@, day as int);
            assert(n * (day - first) + n <= n * (last - first + 1)) by (nonlinear_arith)
                requires
                    day <= last,
                    n >= 0,
            {
            }
            assert(n * (day - first) + n == n * (day + 1 - first)) by (nonlinear_arith);
        }
        let ghost before = buckets@;
        buckets.push(ReferralStatsBucket { date: day_date_text(day), registrations: c });
        assert(buckets@.drop_last() =~= before);
        total = total + c;
        day = day + 1;
    }
    ReferralStatsResponse { total, buckets }
}

/// The total of the statistics is the number of registrations on the
/// covered days: every registration on one of them is counted once.
pub proof fn lemma_total_counts_every_day(
    registered_at: Seq<i64>,
    first: int,
    buckets: Seq<ReferralStatsBucket>,
)
    requires
        forall|k: int|
            0 <= k < buckets.len() ==> (#[trigger] buckets[k]).registrations == count_on_day(
                registered_at,
                first + k,
            ),
    ensures
        bucket_sum(buckets) == count_in_days(registered_at, first, buckets.len() as int),
    decreases buckets.len(),
{
    if buckets.len() > 0 {
        let prev = buckets.drop_last();
        assert forall|k: int| 0 <= k < prev.len() implies (#[trigger] prev[k]).registrations
            == count_on_day(registered_at, first + k) by {
            assert(prev[k] == buckets[k]);
        }
        lemma_total_counts_every_day(registered_at, first, prev);
    }
}

/// The registrations on the `days` days from `first`.
pub open spec fn count_in_days(registered_at: Seq<i64>, first: int, days: int) -> int
    decreases days,
{
    if days <= 0 {
        0
    } else {
        count_in_days(registered_at, first, days - 1) + count_on_day(registered_at, first + days - 1)
    }
}

/// Campaign metadata: null reads as an empty object.
pub fn normalize_metadata(metadata: JsonValue) -> (r: JsonValue)
    ensures
        json_view(metadata) == JsonModel::Null ==> json_view(r) == JsonModel::Object(Seq::empty()),
        json_view(metadata) != JsonModel::Null ==> json_view(r) == json_view(metadata),
{
    match metadata {
        JsonValue::Null => {
            let members: Vec<(String, JsonValue)> = Vec::new();
            let v = JsonValue::Object(members);
            proof {
                match json_view(v) {
                    JsonModel::Object(ms) => {
                        assert(ms =~= Seq::empty());
                    },
                    _ => {},
                }
            }
            v
        },
        v => v,
    }
}

/// A campaign is active only in its window: one that has ended, has not
/// started yet, is revoked or has another status is never active; an active,
/// unrevoked campaign whose window holds the moment is.
pub proof fn lemma_campaign_active_only_in_its_window(
    status: Seq<char>,
    revoked_at: Option<i64>,
    starts_at: Option<i64>,
    ends_at: Option<i64>,
    now: i64,
)
    ensures
        ends_at matches Some(e) && e < now ==> !is_campaign_active(status, revoked_at, starts_at, ends_at, now),
        starts_at matches Some(s) && s > now ==> !is_campaign_active(status, revoked_at, starts_at, ends_at, now),
        revoked_at is Some ==> !is_campaign_active(status, revoked_at, starts_at, ends_at, now),
        status != "active"@ ==> !is_campaign_active(status, revoked_at, starts_at, ends_at, now),
        status == "active"@ && revoked_at is None && (forall|s: i64| starts_at == Some(s) ==> s <= now) && (forall|e: i64|
            ends_at == Some(e) ==> now <= e) ==> is_campaign_active(status, revoked_at, starts_at, ends_at, now),
{
}

} // verus!
