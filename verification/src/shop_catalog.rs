//! Shop products and purchases: the rules a product's reward configuration,
//! price and availability window follow, which quantities may be bought,
//! ownership limits, what fulfilling an order grants, and product locales.
use vstd::prelude::*;
use crate::ownership::{
    asset_key_outcome, validate_asset_key, AssetDefinitionRecord, OwnershipModel,
};
use crate::shop_order::{OrderStatus, ProblemKind, ShopProblem};
use crate::text::{
    chars_of, int_text, is_blank, push_i64, push_str, string_of, to_lowercase, trim, trim_spec,
    lowercase_of,
};

verus! {

/// The outcome is the problem of the given class whose text is `message`.
pub open spec fn fails_with<T>(r: Result<T, ShopProblem>, kind: ProblemKind, message: Seq<char>) -> bool {
    r matches Err(p) && p.kind == kind && p.message@ == message
}

// ---------------------------------------------------------------------------
// Product configuration.
// ---------------------------------------------------------------------------

/// What a product's reward configuration must satisfy, by ownership model.
pub open spec fn reward_configuration_outcome(
    model: OwnershipModel,
    stackable_amount: Option<i64>,
    duration_seconds: Option<i64>,
    max_per_purchase: Option<i64>,
    max_owned_amount: Option<i64>,
) -> Option<Seq<char>> {
    match model {
        OwnershipModel::Stackable => match stackable_amount {
            None => Some("stackable_amount is required for stackable products"@),
            Some(a) => if a <= 0 {
                Some("stackable_amount must be positive"@)
            } else if duration_seconds is Some {
                Some("durationSeconds is not allowed for stackable products"@)
            } else if max_per_purchase matches Some(m) && m <= 0 {
                Some("max_per_purchase must be positive"@)
            } else if max_owned_amount matches Some(o) && o <= 0 {
                Some("max_owned_amount must be positive"@)
            } else if max_owned_amount matches Some(o) && o < a {
                Some("max_owned_amount cannot be lower than stackable_amount"@)
            } else {
                None
            },
        },
        OwnershipModel::Entitlement => if stackable_amount is Some || duration_seconds is Some
            || max_per_purchase is Some || max_owned_amount is Some {
            Some(
                "Entitlement products must not define stackable amount, duration, or ownership limits"@,
            )
        } else {
            None
        },
        OwnershipModel::Expirable => match duration_seconds {
            None => Some("durationSeconds is required for subscription products"@),
            Some(d) => if d <= 0 {
                Some("durationSeconds must be positive"@)
            } else if stackable_amount is Some || max_per_purchase is Some || max_owned_amount is Some {
                Some(
                    "Subscription products must not define stackable amount or stackable ownership limits"@,
                )
            } else {
                None
            },
        },
    }
}

/// Checks a product's reward configuration; every violation is a bad
/// request.
pub fn validate_reward_configuration(
    model: OwnershipModel,
    stackable_amount: Option<i64>,
    duration_seconds: Option<i64>,
    max_per_purchase: Option<i64>,
    max_owned_amount: Option<i64>,
) -> (r: Result<(), ShopProblem>)
    ensures
        match reward_configuration_outcome(
            model,
            stackable_amount,
            duration_seconds,
            max_per_purchase,
            max_owned_amount,
        ) {
            None => r is Ok,
            Some(m) => fails_with(r, ProblemKind::BadRequest, m),
        },
{
    let bad = ProblemKind::BadRequest;
    match model {
        OwnershipModel::Stackable => {
            let a: i64 = match stackable_amount {
                Some(a) => a,
                None => {
                    return Err(
                        ShopProblem::new(bad, "stackable_amount is required for stackable products"),
                    );
                },
            };
            if a <= 0 {
                return Err(ShopProblem::new(bad, "stackable_amount must be positive"));
            }
            if duration_seconds.is_some() {
                return Err(
                    ShopProblem::new(bad, "durationSeconds is not allowed for stackable products"),
                );
            }
            if let Some(m) = max_per_purchase {
                if m <= 0 {
                    return Err(ShopProblem::new(bad, "max_per_purchase must be positive"));
                }
            }
            if let Some(o) = max_owned_amount {
                if o <= 0 {
                    return Err(ShopProblem::new(bad, "max_owned_amount must be positive"));
                }
                if o < a {
                    return Err(
                        ShopProblem::new(bad, "max_owned_amount cannot be lower than stackable_amount"),
                    );
                }
            }
        },
        OwnershipModel::Entitlement => {
            if stackable_amount.is_some() || duration_seconds.is_some() || max_per_purchase.is_some()
                || max_owned_amount.is_some() {
                return Err(
                    ShopProblem::new(
                        bad,
                        "Entitlement products must not define stackable amount, duration, or ownership limits",
                    ),
                );
            }
        },
        OwnershipModel::Expirable => {
            let d: i64 = match duration_seconds {
                Some(d) => d,
                None => {
                    return Err(
                        ShopProblem::new(bad, "durationSeconds is required for subscription products"),
                    );
                },
            };
            if d <= 0 {
                return Err(ShopProblem::new(bad, "durationSeconds must be positive"));
            }
            if stackable_amount.is_some() || max_per_purchase.is_some() || max_owned_amount.is_some() {
                return Err(
                    ShopProblem::new(
                        bad,
                        "Subscription products must not define stackable amount or stackable ownership limits",
                    ),
                );
            }
        },
    }
    Ok(())
}

/// Prices are positive whole rubles.
pub fn validate_price_rub(price_rub: i64) -> (r: Result<i64, ShopProblem>)
    ensures
        price_rub > 0 ==> r == Ok::<i64, ShopProblem>(price_rub),
        price_rub <= 0 ==> fails_with(r, ProblemKind::BadRequest,
            "price_rub must be a positive integer amount in rubles"@,
        ),
{
    if price_rub <= 0 {
        return Err(
            ShopProblem::new(
                ProblemKind::BadRequest,
                "price_rub must be a positive integer amount in rubles",
            ),
        );
    }
    Ok(price_rub)
}

/// An availability window may not start after it ends.
pub fn validate_availability_window(starts_at: Option<i64>, ends_at: Option<i64>) -> (r: Result<
    (),
    ShopProblem,
>)
    ensures
        (starts_at matches Some(s) && ends_at matches Some(e) && s > e) ==> fails_with(r, ProblemKind::BadRequest, "starts_at cannot be later than ends_at"@),
        !(starts_at matches Some(s) && ends_at matches Some(e) && s > e) ==> r is Ok,
{
    if let (Some(s), Some(e)) = (starts_at, ends_at) {
        if s > e {
            return Err(
                ShopProblem::new(ProblemKind::BadRequest, "starts_at cannot be later than ends_at"),
            );
        }
    }
    Ok(())
}

/// A product is available from its start (inclusive) to its end
/// (inclusive); a missing bound does not restrict.
pub open spec fn available_at(starts_at: Option<i64>, ends_at: Option<i64>, now: i64) -> bool {
    (match starts_at {
        Some(s) => s <= now,
        None => true,
    }) && (match ends_at {
        Some(e) => e >= now,
        None => true,
    })
}

pub fn is_product_available_now(starts_at: Option<i64>, ends_at: Option<i64>, now: i64) -> (r: bool)
    ensures
        r == available_at(starts_at, ends_at, now),
{
    let after_start = match starts_at {
        Some(s) => s <= now,
        None => true,
    };
    let before_end = match ends_at {
        Some(e) => e >= now,
        None => true,
    };
    after_start && before_end
}

/// Only active, public products inside their window can be bought.
pub fn ensure_product_is_sellable(
    is_active: bool,
    is_public: bool,
    starts_at: Option<i64>,
    ends_at: Option<i64>,
    now: i64,
) -> (r: Result<(), ShopProblem>)
    ensures
        !(is_active && is_public) ==> fails_with(r, ProblemKind::NotFound,
            "Shop product not found"@,
        ),
        is_active && is_public && !available_at(starts_at, ends_at, now) ==> fails_with(r, ProblemKind::Unprocessable,
            "Shop product is not available for purchase right now"@,
        ),
        is_active && is_public && available_at(starts_at, ends_at, now) ==> r is Ok,
{
    if !is_active || !is_public {
        return Err(ShopProblem::new(ProblemKind::NotFound, "Shop product not found"));
    }
    if !is_product_available_now(starts_at, ends_at, now) {
        return Err(
            ShopProblem::new(
                ProblemKind::Unprocessable,
                "Shop product is not available for purchase right now",
            ),
        );
    }
    Ok(())
}

/// The asset a product sells must be active and not a currency.
pub fn check_product_asset(asset: &AssetDefinitionRecord) -> (r: Result<(), ShopProblem>)
    ensures
        !asset.is_active ==> fails_with(r, ProblemKind::Unprocessable,
            "Shop product asset must be active"@,
        ),
        asset.is_active && asset.is_currency ==> fails_with(r, ProblemKind::BadRequest,
            "Currency assets cannot be sold through the shop product catalog"@,
        ),
        asset.is_active && !asset.is_currency ==> r is Ok,
{
    if !asset.is_active {
        return Err(ShopProblem::new(ProblemKind::Unprocessable, "Shop product asset must be active"));
    }
    if asset.is_currency {
        return Err(
            ShopProblem::new(
                ProblemKind::BadRequest,
                "Currency assets cannot be sold through the shop product catalog",
            ),
        );
    }
    Ok(())
}

/// Shop keys follow the asset key rules; a violation is a bad request
/// carrying the key problem's text.
pub fn validate_shop_key(key: &str) -> (r: Result<String, ShopProblem>)
    ensures
        match asset_key_outcome(key@) {
            Ok(k) => r matches Ok(s) && s@ == k,
            Err(e) => fails_with(r, ProblemKind::BadRequest, e.message_spec()),
        },
{
    match validate_asset_key(key) {
        Ok(k) => Ok(k),
        Err(e) => Err(ShopProblem::new(ProblemKind::BadRequest, e.message())),
    }
}

/// The ownership model of a product's asset; an unknown model is a bad
/// request.
pub fn product_ownership_model(asset: &AssetDefinitionRecord) -> (r: Result<OwnershipModel, ShopProblem>)
    ensures
        match OwnershipModel::from_name(asset.ownership_model@) {
            Some(m) => r == Ok::<OwnershipModel, ShopProblem>(m),
            None => fails_with(r, ProblemKind::BadRequest,
                crate::ownership::OwnershipError::UnsupportedOwnershipModel.message_spec(),
            ),
        },
{
    match OwnershipModel::parse(asset.ownership_model.as_str()) {
        Ok(m) => Ok(m),
        Err(e) => Err(ShopProblem::new(ProblemKind::BadRequest, e.message())),
    }
}

// ---------------------------------------------------------------------------
// Purchases.
// ---------------------------------------------------------------------------

pub open spec fn quantity_message(quantity: i64, allowed: i64) -> Seq<char> {
    "Quantity exceeds max_per_purchase: requested "@ + int_text(quantity as int) + ", allowed "@
        + int_text(allowed as int)
}

/// Stackable products may be bought up to their per-purchase maximum;
/// entitlements and subscriptions exactly once.
pub fn validate_order_quantity(model: OwnershipModel, max_per_purchase: Option<i64>, quantity: i64) -> (r:
    Result<(), ShopProblem>)
    ensures
        match model {
            OwnershipModel::Stackable => match max_per_purchase {
                Some(m) if quantity > m => fails_with(r, ProblemKind::Unprocessable,
                    quantity_message(quantity, m),
                ),
                _ => r is Ok,
            },
            _ => if quantity != 1 {
                fails_with(r, ProblemKind::BadRequest,
                    "Quantity must be exactly 1 for entitlement and subscription products"@,
                )
            } else {
                r is Ok
            },
        },
{
    match model {
        OwnershipModel::Stackable => {
            if let Some(m) = max_per_purchase {
                if quantity > m {
                    let mut out: Vec<char> = Vec::new();
                    push_str(&mut out, "Quantity exceeds max_per_purchase: requested ");
                    push_i64(&mut out, quantity);
                    push_str(&mut out, ", allowed ");
                    push_i64(&mut out, m);
                    return Err(
                        ShopProblem {
                            kind: ProblemKind::Unprocessable,
                            message: string_of(out.as_slice()),
                        },
                    );
                }
            }
        },
        _ => {
            if quantity != 1 {
                return Err(
                    ShopProblem::new(
                        ProblemKind::BadRequest,
                        "Quantity must be exactly 1 for entitlement and subscription products",
                    ),
                );
            }
        },
    }
    Ok(())
}

/// `per_unit * quantity`, the amount a purchase grants; a missing unit
/// amount or an overflow is a bad request with the given texts.
pub fn granted_quantity(
    per_unit: Option<i64>,
    quantity: i64,
    missing_message: &str,
    overflow_message: &str,
) -> (r: Result<i64, ShopProblem>)
    ensures
        match per_unit {
            None => fails_with(r, ProblemKind::BadRequest, missing_message@),
            Some(u) => if i64::MIN <= u * quantity <= i64::MAX {
                r == Ok::<i64, ShopProblem>((u * quantity) as i64)
            } else {
                fails_with(r, ProblemKind::BadRequest, overflow_message@)
            },
        },
{
    let u: i64 = match per_unit {
        Some(u) => u,
        None => {
            return Err(ShopProblem::new(ProblemKind::BadRequest, missing_message));
        },
    };
    match u.checked_mul(quantity) {
        Some(v) => Ok(v),
        None => Err(ShopProblem::new(ProblemKind::BadRequest, overflow_message)),
    }
}

pub open spec fn limit_message(current: i64, granted: i64, limit: i64) -> Seq<char> {
    "Purchase would exceed the ownership limit: current amount is "@ + int_text(current as int)
        + ", granted amount is "@ + int_text(granted as int) + ", and maximum allowed is "@
        + int_text(limit as int)
}

/// With an ownership limit, the holding after the purchase may not exceed
/// it (`current` is read only when there is a limit).
pub fn check_stackable_limit(current: i64, granted: i64, max_owned_amount: Option<i64>) -> (r: Result<
    (),
    ShopProblem,
>)
    ensures
        match max_owned_amount {
            None => r is Ok,
            Some(limit) => if !(i64::MIN <= current + granted <= i64::MAX) {
                fails_with(r, ProblemKind::BadRequest, "Stackable ownership overflow"@)
            } else if current + granted > limit {
                fails_with(r, ProblemKind::Unprocessable,
                    limit_message(current, granted, limit),
                )
            } else {
                r is Ok
            },
        },
{
    if let Some(limit) = max_owned_amount {
        let total: i64 = match current.checked_add(granted) {
            Some(t) => t,
            None => {
                return Err(ShopProblem::new(ProblemKind::BadRequest, "Stackable ownership overflow"));
            },
        };
        if total > limit {
            let mut out: Vec<char> = Vec::new();
            push_str(&mut out, "Purchase would exceed the ownership limit: current amount is ");
            push_i64(&mut out, current);
            push_str(&mut out, ", granted amount is ");
            push_i64(&mut out, granted);
            push_str(&mut out, ", and maximum allowed is ");
            push_i64(&mut out, limit);
            return Err(
                ShopProblem { kind: ProblemKind::Unprocessable, message: string_of(out.as_slice()) },
            );
        }
    }
    Ok(())
}

/// An entitlement cannot be bought twice.
pub fn ensure_entitlement_not_owned(already_owned: bool) -> (r: Result<(), ShopProblem>)
    ensures
        already_owned ==> fails_with(r, ProblemKind::Conflict,
            "User already owns this entitlement"@,
        ),
        !already_owned ==> r is Ok,
{
    if already_owned {
        return Err(ShopProblem::new(ProblemKind::Conflict, "User already owns this entitlement"));
    }
    Ok(())
}

/// Whether a purchase may go ahead: a stackable purchase must stay within
/// the ownership limit (given the current holding), an entitlement must not
/// be owned yet; subscriptions are always allowed.
pub fn ensure_purchase_allowed(
    model: OwnershipModel,
    stackable_amount: Option<i64>,
    quantity: i64,
    current_amount: i64,
    max_owned_amount: Option<i64>,
    owns_entitlement: bool,
) -> (r: Result<(), ShopProblem>)
    ensures
        match model {
            OwnershipModel::Stackable => match stackable_amount {
                None => fails_with(r, ProblemKind::BadRequest,
                    "Shop product is missing stackable amount"@,
                ),
                Some(u) => if !(i64::MIN <= u * quantity <= i64::MAX) {
                    fails_with(r, ProblemKind::BadRequest,
                        "Granted stackable amount overflow"@,
                    )
                } else {
                    match max_owned_amount {
                        None => r is Ok,
                        Some(limit) => if !(i64::MIN <= current_amount + u * quantity <= i64::MAX) {
                            fails_with(r, ProblemKind::BadRequest,
                                "Stackable ownership overflow"@,
                            )
                        } else if current_amount + u * quantity > limit {
                            fails_with(r, ProblemKind::Unprocessable,
                                limit_message(current_amount, (u * quantity) as i64, limit),
                            )
                        } else {
                            r is Ok
                        },
                    }
                },
            },
            OwnershipModel::Entitlement => if owns_entitlement {
                fails_with(r, ProblemKind::Conflict,
                    "User already owns this entitlement"@,
                )
            } else {
                r is Ok
            },
            OwnershipModel::Expirable => r is Ok,
        },
{
    match model {
        OwnershipModel::Stackable => {
            let granted = granted_quantity(
                stackable_amount,
                quantity,
                "Shop product is missing stackable amount",
                "Granted stackable amount overflow",
            )?;
            check_stackable_limit(current_amount, granted, max_owned_amount)
        },
        OwnershipModel::Entitlement => ensure_entitlement_not_owned(owns_entitlement),
        OwnershipModel::Expirable => Ok(()),
    }
}

/// What fulfilling an order grants.
#[derive(Clone, Copy, Debug, PartialEq, Eq, Structural)]
pub enum FulfillmentGrant {
    Stackable { amount: i64 },
    Entitlement,
    Expirable { duration_seconds: i64 },
}

/// The grant of an order: unit amount or duration times the quantity.
pub fn fulfillment_grant(
    model: OwnershipModel,
    stackable_amount_per_unit: Option<i64>,
    duration_seconds_per_unit: Option<i64>,
    quantity: i64,
) -> (r: Result<FulfillmentGrant, ShopProblem>)
    ensures
        match model {
            OwnershipModel::Stackable => match stackable_amount_per_unit {
                None => fails_with(r, ProblemKind::BadRequest,
                    "Stackable order is missing stackable amount"@,
                ),
                Some(u) => if i64::MIN <= u * quantity <= i64::MAX {
                    r == Ok::<FulfillmentGrant, ShopProblem>(
                        FulfillmentGrant::Stackable { amount: (u * quantity) as i64 },
                    )
                } else {
                    fails_with(r, ProblemKind::BadRequest,
                        "Granted stackable amount overflow"@,
                    )
                },
            },
            OwnershipModel::Entitlement => r == Ok::<FulfillmentGrant, ShopProblem>(
                FulfillmentGrant::Entitlement,
            ),
            OwnershipModel::Expirable => match duration_seconds_per_unit {
                None => fails_with(r, ProblemKind::BadRequest,
                    "Subscription order is missing duration"@,
                ),
                Some(d) => if i64::MIN <= d * quantity <= i64::MAX {
                    r == Ok::<FulfillmentGrant, ShopProblem>(
                        FulfillmentGrant::Expirable { duration_seconds: (d * quantity) as i64 },
                    )
                } else {
                    fails_with(r, ProblemKind::BadRequest,
                        "Granted duration overflow"@,
                    )
                },
            },
        },
{
    match model {
        OwnershipModel::Stackable => {
            let amount = granted_quantity(
                stackable_amount_per_unit,
                quantity,
                "Stackable order is missing stackable amount",
                "Granted stackable amount overflow",
            )?;
            Ok(FulfillmentGrant::Stackable { amount })
        },
        OwnershipModel::Entitlement => Ok(FulfillmentGrant::Entitlement),
        OwnershipModel::Expirable => {
            let duration_seconds = granted_quantity(
                duration_seconds_per_unit,
                quantity,
                "Subscription order is missing duration",
                "Granted duration overflow",
            )?;
            Ok(FulfillmentGrant::Expirable { duration_seconds })
        },
    }
}

/// What completing a mock payment does, given the order after expiry was
/// applied.
#[derive(Clone, Copy, Debug, PartialEq, Eq, Structural)]
pub enum MockCompletion {
    /// The order is already fulfilled: return it as it is.
    AlreadyFulfilled,
    /// Mark the payment as succeeded and process it.
    Complete,
}

pub fn mock_completion_decision(
    order_user_id: u128,
    user_id: u128,
    payment_provider: &str,
    status: &str,
) -> (r: Result<MockCompletion, ShopProblem>)
    ensures
        order_user_id != user_id ==> fails_with(r, ProblemKind::NotFound,
            "Shop order not found"@,
        ),
        order_user_id == user_id && payment_provider@ != "mock"@ ==> fails_with(r, ProblemKind::BadRequest,
            "Mock completion is available only for mock payments"@,
        ),
        order_user_id == user_id && payment_provider@ == "mock"@ ==> match OrderStatus::from_name(
            status@,
        ) {
            Some(OrderStatus::Fulfilled) => r == Ok::<MockCompletion, ShopProblem>(
                MockCompletion::AlreadyFulfilled,
            ),
            Some(OrderStatus::PaymentExpired) => fails_with(r, ProblemKind::Conflict,
                "Shop order payment has expired"@,
            ),
            Some(OrderStatus::PendingPayment) | Some(OrderStatus::Paid) | Some(
                OrderStatus::FulfillmentInProgress,
            ) => r == Ok::<MockCompletion, ShopProblem>(MockCompletion::Complete),
            _ => fails_with(r, ProblemKind::Conflict,
                "Shop order cannot be completed in its current state"@,
            ),
        },
{
    if order_user_id != user_id {
        return Err(ShopProblem::new(ProblemKind::NotFound, "Shop order not found"));
    }
    if !crate::text::str_equal(payment_provider, "mock") {
        return Err(
            ShopProblem::new(
                ProblemKind::BadRequest,
                "Mock completion is available only for mock payments",
            ),
        );
    }
    match OrderStatus::parse(status) {
        Some(OrderStatus::Fulfilled) => Ok(MockCompletion::AlreadyFulfilled),
        Some(OrderStatus::PaymentExpired) => Err(
            ShopProblem::new(ProblemKind::Conflict, "Shop order payment has expired"),
        ),
        Some(OrderStatus::PendingPayment) | Some(OrderStatus::Paid) | Some(
            OrderStatus::FulfillmentInProgress,
        ) => Ok(MockCompletion::Complete),
        _ => Err(
            ShopProblem::new(
                ProblemKind::Conflict,
                "Shop order cannot be completed in its current state",
            ),
        ),
    }
}

} // verus!
