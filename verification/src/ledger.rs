//! Arithmetic of wallet balances, stackable holdings and expirable
//! holdings: what each mutation computes from the stored state before the
//! new state and the history record are written.
use vstd::prelude::*;

verus! {

/// Milliseconds since the Unix epoch.
pub type Timestamp = i64;

pub const MILLIS_PER_SECOND: i64 = 1000;

#[derive(Clone, Copy, Debug, PartialEq, Eq, Structural)]
pub enum LedgerError {
    AmountMustBePositive,
    BalanceMustBeNonNegative,
    InsufficientWalletBalance,
    BalanceMustNotBecomeNegative,
    AmountMustBeNonNegative,
    InsufficientStackableAmount,
    AmountMustNotBecomeNegative,
    DurationMustBePositive,
}

impl LedgerError {
    pub open spec fn message_spec(self) -> Seq<char> {
        match self {
            LedgerError::AmountMustBePositive => "Amount must be positive"@,
            LedgerError::BalanceMustBeNonNegative => "Balance must be non-negative"@,
            LedgerError::InsufficientWalletBalance => "Insufficient wallet balance"@,
            LedgerError::BalanceMustNotBecomeNegative => "Balance must not become negative"@,
            LedgerError::AmountMustBeNonNegative => "Amount must be non-negative"@,
            LedgerError::InsufficientStackableAmount => "Insufficient stackable amount"@,
            LedgerError::AmountMustNotBecomeNegative => "Amount must not become negative"@,
            LedgerError::DurationMustBePositive => "Duration must be positive"@,
        }
    }

    /// The problem as text.
    pub fn message(&self) -> (r: &'static str)
        ensures
            r@ == self.message_spec(),
    {
        match self {
            LedgerError::AmountMustBePositive => "Amount must be positive",
            LedgerError::BalanceMustBeNonNegative => "Balance must be non-negative",
            LedgerError::InsufficientWalletBalance => "Insufficient wallet balance",
            LedgerError::BalanceMustNotBecomeNegative => "Balance must not become negative",
            LedgerError::AmountMustBeNonNegative => "Amount must be non-negative",
            LedgerError::InsufficientStackableAmount => "Insufficient stackable amount",
            LedgerError::AmountMustNotBecomeNegative => "Amount must not become negative",
            LedgerError::DurationMustBePositive => "Duration must be positive",
        }
    }
}

/// The new stored quantity and the signed change recorded in the history.
#[derive(Clone, Copy, Debug, PartialEq, Eq, Structural)]
pub struct QuantityChange {
    pub new_value: i64,
    pub delta: i64,
}

// ---------------------------------------------------------------------------
// Wallet.
// ---------------------------------------------------------------------------

pub open spec fn wallet_credit_spec(current: int, amount: int) -> Result<QuantityChange, LedgerError> {
    if amount <= 0 {
        Err(LedgerError::AmountMustBePositive)
    } else if current + amount < 0 {
        Err(LedgerError::BalanceMustNotBecomeNegative)
    } else {
        Ok(QuantityChange { new_value: (current + amount) as i64, delta: amount as i64 })
    }
}

pub open spec fn wallet_debit_spec(current: int, amount: int) -> Result<QuantityChange, LedgerError> {
    if amount <= 0 {
        Err(LedgerError::AmountMustBePositive)
    } else if current < amount {
        Err(LedgerError::InsufficientWalletBalance)
    } else {
        Ok(QuantityChange { new_value: (current - amount) as i64, delta: (-amount) as i64 })
    }
}

/// Crediting a wallet: the amount must be positive and is added to the
/// current balance (0 when the user holds none of the currency).
pub fn wallet_credit(current: i64, amount: i64) -> (r: Result<QuantityChange, LedgerError>)
    requires
        amount > 0 ==> current + amount <= i64::MAX,
    ensures
        r == wallet_credit_spec(current as int, amount as int),
{
    if amount <= 0 {
        return Err(LedgerError::AmountMustBePositive);
    }
    let new_balance: i64 = current + amount;
    if new_balance < 0 {
        return Err(LedgerError::BalanceMustNotBecomeNegative);
    }
    Ok(QuantityChange { new_value: new_balance, delta: amount })
}

/// Debiting a wallet: the amount must be positive and covered by the
/// current balance.
pub fn wallet_debit(current: i64, amount: i64) -> (r: Result<QuantityChange, LedgerError>)
    ensures
        r == wallet_debit_spec(current as int, amount as int),
{
    if amount <= 0 {
        return Err(LedgerError::AmountMustBePositive);
    }
    if current < amount {
        return Err(LedgerError::InsufficientWalletBalance);
    }
    let new_balance: i64 = current - amount;
    Ok(QuantityChange { new_value: new_balance, delta: -amount })
}

/// Setting a wallet balance: the target must be non-negative; the history
/// records the difference to the current balance.
pub fn wallet_adjust(current: i64, target: i64) -> (r: Result<QuantityChange, LedgerError>)
    requires
        target >= 0 ==> i64::MIN <= target - current <= i64::MAX,
    ensures
        match r {
            Ok(c) => target >= 0 && c.new_value == target && c.delta == target - current,
            Err(e) => target < 0 && e == LedgerError::BalanceMustBeNonNegative,
        },
{
    if target < 0 {
        return Err(LedgerError::BalanceMustBeNonNegative);
    }
    Ok(QuantityChange { new_value: target, delta: target - current })
}

/// A debit undoes a credit of the same amount, and the recorded changes
/// cancel out.
pub proof fn lemma_credit_then_debit_restores(current: int, amount: int)
    requires
        current >= 0,
        amount > 0,
        current + amount <= i64::MAX,
    ensures
        wallet_credit_spec(current, amount) matches Ok(c) && wallet_debit_spec(c.new_value as int, amount)
            matches Ok(d) && d.new_value == current && c.delta + d.delta == 0,
{
}

/// A successful debit never leaves a negative balance, and every successful
/// wallet change satisfies `new = current + delta`.
pub proof fn lemma_wallet_changes_balance_by_delta(current: int, amount: int)
    requires
        i64::MIN <= current <= i64::MAX,
        i64::MIN <= amount <= i64::MAX,
        current + amount <= i64::MAX,
    ensures
        wallet_debit_spec(current, amount) matches Ok(d) ==> d.new_value >= 0 && d.new_value
            == current + d.delta,
        wallet_credit_spec(current, amount) matches Ok(c) ==> c.new_value >= 0 && c.new_value
            == current + c.delta,
{
}

// ---------------------------------------------------------------------------
// Stackable holdings.
// ---------------------------------------------------------------------------

pub open spec fn stackable_add_spec(current: int, amount: int) -> Result<QuantityChange, LedgerError> {
    if amount <= 0 {
        Err(LedgerError::AmountMustBePositive)
    } else if current + amount < 0 {
        Err(LedgerError::AmountMustNotBecomeNegative)
    } else {
        Ok(QuantityChange { new_value: (current + amount) as i64, delta: amount as i64 })
    }
}

pub open spec fn stackable_remove_spec(current: int, amount: int) -> Result<QuantityChange, LedgerError> {
    if amount <= 0 {
        Err(LedgerError::AmountMustBePositive)
    } else if current < amount {
        Err(LedgerError::InsufficientStackableAmount)
    } else {
        Ok(QuantityChange { new_value: (current - amount) as i64, delta: (-amount) as i64 })
    }
}

/// Adding to a stackable holding.
pub fn stackable_add(current: i64, amount: i64) -> (r: Result<QuantityChange, LedgerError>)
    requires
        amount > 0 ==> current + amount <= i64::MAX,
    ensures
        r == stackable_add_spec(current as int, amount as int),
{
    if amount <= 0 {
        return Err(LedgerError::AmountMustBePositive);
    }
    let new_amount: i64 = current + amount;
    if new_amount < 0 {
        return Err(LedgerError::AmountMustNotBecomeNegative);
    }
    Ok(QuantityChange { new_value: new_amount, delta: amount })
}

/// Removing from a stackable holding; the holding must cover the amount.
pub fn stackable_remove(current: i64, amount: i64) -> (r: Result<QuantityChange, LedgerError>)
    ensures
        r == stackable_remove_spec(current as int, amount as int),
{
    if amount <= 0 {
        return Err(LedgerError::AmountMustBePositive);
    }
    if current < amount {
        return Err(LedgerError::InsufficientStackableAmount);
    }
    let new_amount: i64 = current - amount;
    Ok(QuantityChange { new_value: new_amount, delta: -amount })
}

/// Setting a stackable holding: the amount must be non-negative and is
/// recorded as both the change and the new amount.
pub fn stackable_set(amount: i64) -> (r: Result<QuantityChange, LedgerError>)
    ensures
        match r {
            Ok(c) => amount >= 0 && c.new_value == amount && c.delta == amount,
            Err(e) => amount < 0 && e == LedgerError::AmountMustBeNonNegative,
        },
{
    if amount < 0 {
        return Err(LedgerError::AmountMustBeNonNegative);
    }
    Ok(QuantityChange { new_value: amount, delta: amount })
}

/// How the new amount of a stackable holding is stored.
#[derive(Clone, Copy, Debug, PartialEq, Eq, Structural)]
pub enum HoldingWrite {
    /// The amount is zero: the row is removed (if there is one).
    Delete,
    Update,
    Insert,
}

pub fn stackable_write(new_amount: i64, has_existing: bool) -> (w: HoldingWrite)
    ensures
        w == (if new_amount == 0 {
            HoldingWrite::Delete
        } else if has_existing {
            HoldingWrite::Update
        } else {
            HoldingWrite::Insert
        }),
{
    if new_amount == 0 {
        HoldingWrite::Delete
    } else if has_existing {
        HoldingWrite::Update
    } else {
        HoldingWrite::Insert
    }
}

/// Removing what was added gives the holding back.
pub proof fn lemma_stackable_add_then_remove_restores(current: int, amount: int)
    requires
        current >= 0,
        amount > 0,
        current + amount <= i64::MAX,
    ensures
        stackable_add_spec(current, amount) matches Ok(a) && stackable_remove_spec(
            a.new_value as int,
            amount,
        ) matches Ok(r) && r.new_value == current,
{
}

// ---------------------------------------------------------------------------
// Expirable holdings.
// ---------------------------------------------------------------------------

/// The expiry after prolonging: the duration is added to the current expiry
/// when it is still in the future, otherwise to the present moment.
pub open spec fn prolonged_expiry_spec(existing: Option<i64>, now: int, duration_seconds: int) -> int {
    let base = match existing {
        Some(e) => if e > now {
            e as int
        } else {
            now
        },
        None => now,
    };
    base + duration_seconds * 1000
}

pub fn prolonged_expiry(existing: Option<Timestamp>, now: Timestamp, duration_seconds: i64) -> (r:
    Result<Timestamp, LedgerError>)
    requires
        duration_seconds > 0 ==> duration_seconds * 1000 <= i64::MAX,
        duration_seconds > 0 ==> prolonged_expiry_spec(existing, now as int, duration_seconds as int) <= i64::MAX,
    ensures
        match r {
            Ok(t) => duration_seconds > 0 && t == prolonged_expiry_spec(
                existing,
                now as int,
                duration_seconds as int,
            ),
            Err(e) => duration_seconds <= 0 && e == LedgerError::DurationMustBePositive,
        },
{
    if duration_seconds <= 0 {
        return Err(LedgerError::DurationMustBePositive);
    }
    let base: i64 = match existing {
        Some(e) => if e > now {
            e
        } else {
            now
        },
        None => now,
    };
    let span: i64 = duration_seconds * MILLIS_PER_SECOND;
    Ok(base + span)
}

/// Prolonging never shortens a holding: the new expiry lies the full
/// duration beyond both the present moment and the previous expiry.
pub proof fn lemma_prolong_extends(existing: Option<i64>, now: int, duration_seconds: int)
    requires
        duration_seconds > 0,
    ensures
        prolonged_expiry_spec(existing, now, duration_seconds) >= now + duration_seconds * 1000,
        existing matches Some(e) ==> prolonged_expiry_spec(existing, now, duration_seconds) >= e
            + duration_seconds * 1000,
{
}

/// Whether an expirable holding is active at `now`.
pub open spec fn is_active_at(expires_at: int, now: int) -> bool {
    expires_at > now
}

pub fn expirable_is_active(expires_at: Timestamp, now: Timestamp) -> (r: bool)
    ensures
        r == is_active_at(expires_at as int, now as int),
{
    expires_at > now
}

} // verus!
