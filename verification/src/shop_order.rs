//! The shop order life cycle: order and payment statuses, the transitions
//! between them, the problems the shop reports and when orders are
//! reconciled, expired or (re)claimed for fulfillment.
use vstd::prelude::*;
use crate::text::{concat_str, has_prefix, strip_prefix};

verus! {

// ---------------------------------------------------------------------------
// Problems.
// ---------------------------------------------------------------------------

/// The class of a shop problem, rendered as a prefix of its text and mapped
/// to an HTTP status by the API layer.
#[derive(Clone, Copy, Debug, PartialEq, Eq, Structural)]
pub enum ProblemKind {
    BadRequest,
    NotFound,
    Conflict,
    Unprocessable,
    Unavailable,
}

impl ProblemKind {
    pub open spec fn prefix_spec(self) -> Seq<char> {
        match self {
            ProblemKind::BadRequest => "bad_request: "@,
            ProblemKind::NotFound => "not_found: "@,
            ProblemKind::Conflict => "conflict: "@,
            ProblemKind::Unprocessable => "unprocessable: "@,
            ProblemKind::Unavailable => "unavailable: "@,
        }
    }

    pub fn prefix(&self) -> (r: &'static str)
        ensures
            r@ == self.prefix_spec(),
    {
        match self {
            ProblemKind::BadRequest => "bad_request: ",
            ProblemKind::NotFound => "not_found: ",
            ProblemKind::Conflict => "conflict: ",
            ProblemKind::Unprocessable => "unprocessable: ",
            ProblemKind::Unavailable => "unavailable: ",
        }
    }
}

/// A problem the shop reports: its class and its text.
#[derive(Clone, Debug)]
pub struct ShopProblem {
    pub kind: ProblemKind,
    pub message: String,
}

impl ShopProblem {
    pub fn new(kind: ProblemKind, message: &str) -> (p: ShopProblem)
        ensures
            p.kind == kind,
            p.message@ == message@,
    {
        ShopProblem { kind, message: message.to_string() }
    }

    /// The problem as text: its prefix, then its message.
    pub fn render(&self) -> (r: String)
        ensures
            r@ == self.kind.prefix_spec() + self.message@,
    {
        concat_str(self.kind.prefix(), self.message.as_str())
    }
}

/// The problem text without its class prefix: the first of the five
/// prefixes that the text starts with is removed.
pub open spec fn strip_problem_prefix_spec(m: Seq<char>) -> Seq<char> {
    if has_prefix(m, "bad_request: "@) {
        m.subrange(13, m.len() as int)
    } else if has_prefix(m, "not_found: "@) {
        m.subrange(11, m.len() as int)
    } else if has_prefix(m, "conflict: "@) {
        m.subrange(10, m.len() as int)
    } else if has_prefix(m, "unprocessable: "@) {
        m.subrange(15, m.len() as int)
    } else if has_prefix(m, "unavailable: "@) {
        m.subrange(13, m.len() as int)
    } else {
        m
    }
}

pub fn strip_problem_prefix(message: String) -> (r: String)
    ensures
        r@ == strip_problem_prefix_spec(message@),
{
    proof {
        reveal_strlit("bad_request: ");
        reveal_strlit("not_found: ");
        reveal_strlit("conflict: ");
        reveal_strlit("unprocessable: ");
        reveal_strlit("unavailable: ");
    }
    if let Some(s) = strip_prefix(message.as_str(), "bad_request: ") {
        return s;
    }
    if let Some(s) = strip_prefix(message.as_str(), "not_found: ") {
        return s;
    }
    if let Some(s) = strip_prefix(message.as_str(), "conflict: ") {
        return s;
    }
    if let Some(s) = strip_prefix(message.as_str(), "unprocessable: ") {
        return s;
    }
    if let Some(s) = strip_prefix(message.as_str(), "unavailable: ") {
        return s;
    }
    message
}

/// Stripping the prefix of a rendered problem gives back its message.
pub proof fn lemma_strip_rendered_problem(kind: ProblemKind, message: Seq<char>)
    ensures
        strip_problem_prefix_spec(kind.prefix_spec() + message) == message,
{
    reveal_strlit("bad_request: ");
    reveal_strlit("not_found: ");
    reveal_strlit("conflict: ");
    reveal_strlit("unprocessable: ");
    reveal_strlit("unavailable: ");
    let m = kind.prefix_spec() + message;
    let p = kind.prefix_spec();
    assert(m.subrange(0, p.len() as int) =~= p);
    assert(m.subrange(p.len() as int, m.len() as int) =~= message);
    match kind {
        ProblemKind::BadRequest => {},
        ProblemKind::NotFound => {
            assert(m[0] != "bad_request: "@[0]);
        },
        ProblemKind::Conflict => {
            assert(m[0] != "bad_request: "@[0]);
            assert(m[0] != "not_found: "@[0]);
        },
        ProblemKind::Unprocessable => {
            assert(m[0] != "bad_request: "@[0]);
            assert(m[0] != "not_found: "@[0]);
            assert(m[0] != "conflict: "@[0]);
        },
        ProblemKind::Unavailable => {
            assert(m[0] != "bad_request: "@[0]);
            assert(m[0] != "not_found: "@[0]);
            assert(m[0] != "conflict: "@[0]);
            assert(m[2] != "unprocessable: "@[2]);
        },
    }
}

// ---------------------------------------------------------------------------
// Order statuses.
// ---------------------------------------------------------------------------

#[derive(Clone, Copy, Debug, PartialEq, Eq, Structural)]
pub enum OrderStatus {
    PendingPayment,
    Paid,
    FulfillmentInProgress,
    Fulfilled,
    FulfillmentFailed,
    PaymentCanceled,
    PaymentExpired,
    PaymentValidationFailed,
}

impl OrderStatus {
    pub open spec fn name(self) -> Seq<char> {
        match self {
            OrderStatus::PendingPayment => "pending_payment"@,
            OrderStatus::Paid => "paid"@,
            OrderStatus::FulfillmentInProgress => "fulfillment_in_progress"@,
            OrderStatus::Fulfilled => "fulfilled"@,
            OrderStatus::FulfillmentFailed => "fulfillment_failed"@,
            OrderStatus::PaymentCanceled => "payment_canceled"@,
            OrderStatus::PaymentExpired => "payment_expired"@,
            OrderStatus::PaymentValidationFailed => "payment_validation_failed"@,
        }
    }

    pub open spec fn from_name(s: Seq<char>) -> Option<OrderStatus> {
        if s == "pending_payment"@ {
            Some(OrderStatus::PendingPayment)
        } else if s == "paid"@ {
            Some(OrderStatus::Paid)
        } else if s == "fulfillment_in_progress"@ {
            Some(OrderStatus::FulfillmentInProgress)
        } else if s == "fulfilled"@ {
            Some(OrderStatus::Fulfilled)
        } else if s == "fulfillment_failed"@ {
            Some(OrderStatus::FulfillmentFailed)
        } else if s == "payment_canceled"@ {
            Some(OrderStatus::PaymentCanceled)
        } else if s == "payment_expired"@ {
            Some(OrderStatus::PaymentExpired)
        } else if s == "payment_validation_failed"@ {
            Some(OrderStatus::PaymentValidationFailed)
        } else {
            None
        }
    }

    pub fn as_str(&self) -> (r: &'static str)
        ensures
            r@ == self.name(),
    {
        match self {
            OrderStatus::PendingPayment => "pending_payment",
            OrderStatus::Paid => "paid",
            OrderStatus::FulfillmentInProgress => "fulfillment_in_progress",
            OrderStatus::Fulfilled => "fulfilled",
            OrderStatus::FulfillmentFailed => "fulfillment_failed",
            OrderStatus::PaymentCanceled => "payment_canceled",
            OrderStatus::PaymentExpired => "payment_expired",
            OrderStatus::PaymentValidationFailed => "payment_validation_failed",
        }
    }

    /// The status a stored status text names, if any.
    pub fn parse(value: &str) -> (r: Option<OrderStatus>)
        ensures
            r == OrderStatus::from_name(value@),
    {
        if crate::text::str_equal(value, "pending_payment") {
            Some(OrderStatus::PendingPayment)
        } else if crate::text::str_equal(value, "paid") {
            Some(OrderStatus::Paid)
        } else if crate::text::str_equal(value, "fulfillment_in_progress") {
            Some(OrderStatus::FulfillmentInProgress)
        } else if crate::text::str_equal(value, "fulfilled") {
            Some(OrderStatus::Fulfilled)
        } else if crate::text::str_equal(value, "fulfillment_failed") {
            Some(OrderStatus::FulfillmentFailed)
        } else if crate::text::str_equal(value, "payment_canceled") {
            Some(OrderStatus::PaymentCanceled)
        } else if crate::text::str_equal(value, "payment_expired") {
            Some(OrderStatus::PaymentExpired)
        } else if crate::text::str_equal(value, "payment_validation_failed") {
            Some(OrderStatus::PaymentValidationFailed)
        } else {
            None
        }
    }

    /// The status names are distinct, and each names its status.
    /// Parsing the name of a status gives the status back.
    pub proof fn lemma_name_round_trip(k: OrderStatus)
        ensures
            OrderStatus::from_name(k.name()) == Some(k),
    {
        reveal_strlit("pending_payment");
        reveal_strlit("paid");
        reveal_strlit("fulfillment_in_progress");
        reveal_strlit("fulfilled");
        reveal_strlit("fulfillment_failed");
        reveal_strlit("payment_canceled");
        reveal_strlit("payment_expired");
        reveal_strlit("payment_validation_failed");
        match k {
            OrderStatus::PendingPayment => {
            },
            OrderStatus::Paid => {
                assert("paid"@[1] != "pending_payment"@[1]);
            },
            OrderStatus::FulfillmentInProgress => {
                assert("fulfillment_in_progress"@[0] != "pending_payment"@[0]);
                assert("fulfillment_in_progress"@[0] != "paid"@[0]);
            },
            OrderStatus::Fulfilled => {
                assert("fulfilled"@[0] != "pending_payment"@[0]);
                assert("fulfilled"@[0] != "paid"@[0]);
                assert("fulfilled"@[7] != "fulfillment_in_progress"@[7]);
            },
            OrderStatus::FulfillmentFailed => {
                assert("fulfillment_failed"@[0] != "pending_payment"@[0]);
                assert("fulfillment_failed"@[0] != "paid"@[0]);
                assert("fulfillment_failed"@[12] != "fulfillment_in_progress"@[12]);
                assert("fulfillment_failed"@[7] != "fulfilled"@[7]);
            },
            OrderStatus::PaymentCanceled => {
                assert("payment_canceled"@[1] != "pending_payment"@[1]);
                assert("payment_canceled"@[2] != "paid"@[2]);
                assert("payment_canceled"@[0] != "fulfillment_in_progress"@[0]);
                assert("payment_canceled"@[0] != "fulfilled"@[0]);
                assert("payment_canceled"@[0] != "fulfillment_failed"@[0]);
            },
            OrderStatus::PaymentExpired => {
                assert("payment_expired"@[1] != "pending_payment"@[1]);
                assert("payment_expired"@[2] != "paid"@[2]);
                assert("payment_expired"@[0] != "fulfillment_in_progress"@[0]);
                assert("payment_expired"@[0] != "fulfilled"@[0]);
                assert("payment_expired"@[0] != "fulfillment_failed"@[0]);
                assert("payment_expired"@[8] != "payment_canceled"@[8]);
            },
            OrderStatus::PaymentValidationFailed => {
                assert("payment_validation_failed"@[1] != "pending_payment"@[1]);
                assert("payment_validation_failed"@[2] != "paid"@[2]);
                assert("payment_validation_failed"@[0] != "fulfillment_in_progress"@[0]);
                assert("payment_validation_failed"@[0] != "fulfilled"@[0]);
                assert("payment_validation_failed"@[0] != "fulfillment_failed"@[0]);
                assert("payment_validation_failed"@[8] != "payment_canceled"@[8]);
                assert("payment_validation_failed"@[8] != "payment_expired"@[8]);
            },
        }
    }

    /// The status names are distinct, and each names its status.
    pub proof fn lemma_names()
        ensures
            forall|s: OrderStatus| #[trigger] OrderStatus::from_name(s.name()) == Some(s),
    {
        assert forall|s: OrderStatus| #[trigger] OrderStatus::from_name(s.name()) == Some(s) by {
            OrderStatus::lemma_name_round_trip(s);
        }
    }

    /// No transition leaves a terminal status.
    pub open spec fn is_terminal(self) -> bool {
        self == OrderStatus::Fulfilled || self == OrderStatus::FulfillmentFailed
    }
}

/// An event that may move an order to another status.
#[derive(Clone, Copy, Debug, PartialEq, Eq, Structural)]
pub enum OrderEvent {
    /// The provider reports the payment as succeeded.
    MarkPaid,
    /// The provider reports the payment as canceled.
    MarkCanceled,
    /// A succeeded payment does not match the order.
    MarkValidationFailed,
    /// The payment session ran out.
    MarkExpired,
    /// A worker claims the order for fulfillment; `stale` when an earlier
    /// claim is older than the retry delay.
    ClaimFulfillment { stale: bool },
    /// Granting the purchase succeeded.
    FulfillmentSucceeded,
    /// Granting the purchase failed.
    FulfillmentFailed,
}

/// The status after an event. An event that does not apply to the current
/// status leaves it unchanged.
pub open spec fn next_status(s: OrderStatus, e: OrderEvent) -> OrderStatus {
    match e {
        OrderEvent::MarkPaid => match s {
            OrderStatus::PendingPayment | OrderStatus::PaymentExpired => OrderStatus::Paid,
            _ => s,
        },
        OrderEvent::MarkCanceled => match s {
            OrderStatus::PendingPayment | OrderStatus::PaymentExpired | OrderStatus::Paid =>
                OrderStatus::PaymentCanceled,
            _ => s,
        },
        OrderEvent::MarkValidationFailed => match s {
            OrderStatus::PendingPayment | OrderStatus::PaymentExpired | OrderStatus::Paid =>
                OrderStatus::PaymentValidationFailed,
            _ => s,
        },
        OrderEvent::MarkExpired => match s {
            OrderStatus::PendingPayment => OrderStatus::PaymentExpired,
            _ => s,
        },
        OrderEvent::ClaimFulfillment { stale } => match s {
            OrderStatus::Paid => OrderStatus::FulfillmentInProgress,
            _ => s,
        },
        OrderEvent::FulfillmentSucceeded => match s {
            OrderStatus::FulfillmentInProgress => OrderStatus::Fulfilled,
            _ => s,
        },
        OrderEvent::FulfillmentFailed => match s {
            OrderStatus::FulfillmentInProgress => OrderStatus::FulfillmentFailed,
            _ => s,
        },
    }
}

/// Whether the event's update is written: for a stale claim the in-progress
/// order is claimed again (its status stays, its claim time is renewed).
pub open spec fn event_applies(s: OrderStatus, e: OrderEvent) -> bool {
    next_status(s, e) != s || (e == OrderEvent::ClaimFulfillment { stale: true } && s
        == OrderStatus::FulfillmentInProgress)
}

/// Applies an event to an order status.
pub fn apply_order_event(s: OrderStatus, e: OrderEvent) -> (r: (OrderStatus, bool))
    ensures
        r.0 == next_status(s, e),
        r.1 == event_applies(s, e),
{
    let next = match e {
        OrderEvent::MarkPaid => match s {
            OrderStatus::PendingPayment | OrderStatus::PaymentExpired => OrderStatus::Paid,
            _ => s,
        },
        OrderEvent::MarkCanceled => match s {
            OrderStatus::PendingPayment | OrderStatus::PaymentExpired | OrderStatus::Paid =>
                OrderStatus::PaymentCanceled,
            _ => s,
        },
        OrderEvent::MarkValidationFailed => match s {
            OrderStatus::PendingPayment | OrderStatus::PaymentExpired | OrderStatus::Paid =>
                OrderStatus::PaymentValidationFailed,
            _ => s,
        },
        OrderEvent::MarkExpired => match s {
            OrderStatus::PendingPayment => OrderStatus::PaymentExpired,
            _ => s,
        },
        OrderEvent::ClaimFulfillment { stale: _ } => match s {
            OrderStatus::Paid => OrderStatus::FulfillmentInProgress,
            _ => s,
        },
        OrderEvent::FulfillmentSucceeded => match s {
            OrderStatus::FulfillmentInProgress => OrderStatus::Fulfilled,
            _ => s,
        },
        OrderEvent::FulfillmentFailed => match s {
            OrderStatus::FulfillmentInProgress => OrderStatus::FulfillmentFailed,
            _ => s,
        },
    };
    let reclaimed = match e {
        OrderEvent::ClaimFulfillment { stale } => stale && s == OrderStatus::FulfillmentInProgress,
        _ => false,
    };
    (next, next != s || reclaimed)
}

/// A fulfilled or failed order keeps its status whatever happens next.
pub proof fn lemma_terminal_status_is_final(s: OrderStatus, e: OrderEvent)
    requires
        s.is_terminal(),
    ensures
        next_status(s, e) == s,
        !event_applies(s, e),
{
}

/// Delivering the same event twice has the effect of delivering it once.
pub proof fn lemma_order_event_idempotent(s: OrderStatus, e: OrderEvent)
    ensures
        next_status(next_status(s, e), e) == next_status(s, e),
{
}

/// A paid order is fulfilled only through a claim: no single event moves an
/// order that is not in progress to fulfilled.
pub proof fn lemma_fulfilled_only_from_in_progress(s: OrderStatus, e: OrderEvent)
    requires
        s != OrderStatus::Fulfilled,
        next_status(s, e) == OrderStatus::Fulfilled,
    ensures
        s == OrderStatus::FulfillmentInProgress,
        e == OrderEvent::FulfillmentSucceeded,
{
}

/// The orders the reconciler looks at: pending, expired, paid or in
/// progress.
pub open spec fn is_reconcilable(s: Seq<char>) -> bool {
    match OrderStatus::from_name(s) {
        Some(OrderStatus::PendingPayment) | Some(OrderStatus::PaymentExpired) | Some(
            OrderStatus::Paid,
        ) | Some(OrderStatus::FulfillmentInProgress) => true,
        _ => false,
    }
}

pub fn should_reconcile_order(status: &str) -> (r: bool)
    ensures
        r == is_reconcilable(status@),
{
    proof {
        OrderStatus::lemma_names();
    }
    match OrderStatus::parse(status) {
        Some(OrderStatus::PendingPayment) | Some(OrderStatus::PaymentExpired) | Some(
            OrderStatus::Paid,
        ) | Some(OrderStatus::FulfillmentInProgress) => true,
        _ => false,
    }
}

/// A successful payment is processed unless the order already ended in
/// fulfillment, failure or a validation failure.
pub fn should_process_successful_payment(status: &str) -> (r: bool)
    ensures
        r == !(OrderStatus::from_name(status@) matches Some(st) && (st == OrderStatus::Fulfilled
            || st == OrderStatus::FulfillmentFailed || st == OrderStatus::PaymentValidationFailed)),
{
    proof {
        OrderStatus::lemma_names();
    }
    match OrderStatus::parse(status) {
        Some(OrderStatus::Fulfilled) | Some(OrderStatus::FulfillmentFailed) | Some(
            OrderStatus::PaymentValidationFailed,
        ) => false,
        _ => true,
    }
}

// ---------------------------------------------------------------------------
// Payment deadlines and claims (timestamps in milliseconds).
// ---------------------------------------------------------------------------

pub const MILLIS_PER_SECOND: i64 = 1000;

/// The minimum delay before an in-progress fulfillment may be claimed again.
pub const FULFILLMENT_RETRY_AFTER_SECONDS: i64 = 60;

/// When the payment session of an order ends: the stored deadline, else the
/// creation time plus the configured time to live.
pub open spec fn effective_expiry_spec(payment_expires_at: Option<i64>, created_at: int, ttl_seconds: int) -> int {
    match payment_expires_at {
        Some(t) => t as int,
        None => created_at + ttl_seconds * 1000,
    }
}

pub fn effective_payment_expires_at(payment_expires_at: Option<i64>, created_at: i64, ttl_seconds: i64) -> (r:
    i64)
    requires
        payment_expires_at is None ==> i64::MIN <= ttl_seconds * 1000 <= i64::MAX,
        payment_expires_at is None ==> i64::MIN <= created_at + ttl_seconds * 1000 <= i64::MAX,
    ensures
        r == effective_expiry_spec(payment_expires_at, created_at as int, ttl_seconds as int),
{
    match payment_expires_at {
        Some(t) => t,
        None => {
            created_at + ttl_seconds * MILLIS_PER_SECOND
        },
    }
}

/// A pending order whose payment session has ended is expired.
pub fn should_expire_pending_order(
    status: &str,
    payment_expires_at: Option<i64>,
    created_at: i64,
    ttl_seconds: i64,
    now: i64,
) -> (r: bool)
    requires
        payment_expires_at is None ==> i64::MIN <= ttl_seconds * 1000 <= i64::MAX,
        payment_expires_at is None ==> i64::MIN <= created_at + ttl_seconds * 1000 <= i64::MAX,
    ensures
        r == (status@ == "pending_payment"@ && effective_expiry_spec(
            payment_expires_at,
            created_at as int,
            ttl_seconds as int,
        ) <= now),
{
    proof {
        OrderStatus::lemma_names();
    }
    match OrderStatus::parse(status) {
        Some(OrderStatus::PendingPayment) => {
            effective_payment_expires_at(payment_expires_at, created_at, ttl_seconds) <= now
        },
        _ => false,
    }
}

/// The retry delay for claims: three reconciliation intervals (saturating,
/// then read as a signed number), but never less than a minute.
pub open spec fn retry_after_spec(interval_seconds: u64) -> int {
    let tripled: int = if interval_seconds * 3 > u64::MAX {
        u64::MAX as int
    } else {
        interval_seconds * 3
    };
    let signed: int = if tripled > i64::MAX {
        tripled - 0x1_0000_0000_0000_0000
    } else {
        tripled
    };
    if signed > 60 {
        signed
    } else {
        60
    }
}

pub fn fulfillment_retry_after_seconds(reconciliation_interval_seconds: u64) -> (r: i64)
    ensures
        r == retry_after_spec(reconciliation_interval_seconds),
{
    let tripled: u64 = match reconciliation_interval_seconds.checked_mul(3) {
        Some(v) => v,
        None => u64::MAX,
    };
    let signed: i64 = if tripled > 0x7fff_ffff_ffff_ffff {
        (tripled - 0x8000_0000_0000_0000) as i64 + i64::MIN
    } else {
        tripled as i64
    };
    if signed > FULFILLMENT_RETRY_AFTER_SECONDS {
        signed
    } else {
        FULFILLMENT_RETRY_AFTER_SECONDS
    }
}

/// Whether a worker may claim the order now: a paid order, or an order
/// whose earlier claim was last touched at least `retry_after_seconds` ago.
pub fn can_claim_fulfillment(status: &str, updated_at: i64, now: i64, retry_after_seconds: i64) -> (r:
    bool)
    requires
        i64::MIN <= retry_after_seconds * 1000 <= i64::MAX,
        i64::MIN <= now - retry_after_seconds * 1000 <= i64::MAX,
    ensures
        r == (OrderStatus::from_name(status@) == Some(OrderStatus::Paid) || (OrderStatus::from_name(
            status@,
        ) == Some(OrderStatus::FulfillmentInProgress) && updated_at <= now - retry_after_seconds
            * 1000)),
{
    proof {
        OrderStatus::lemma_names();
    }
    match OrderStatus::parse(status) {
        Some(OrderStatus::Paid) => true,
        Some(OrderStatus::FulfillmentInProgress) => {
            let reclaim_before: i64 = now - retry_after_seconds * MILLIS_PER_SECOND;
            updated_at <= reclaim_before
        },
        _ => false,
    }
}

/// The text recorded when a pending payment runs out.
pub fn payment_expired_problem() -> (r: &'static str)
    ensures
        r@ == "Payment session expired before the shop order was paid"@,
{
    "Payment session expired before the shop order was paid"
}

/// Only an order waiting for its payment can expire, and it then is
/// payment-expired; an order in any other status is left as it is, and
/// nothing is written for it.
pub proof fn lemma_only_pending_orders_expire(s: OrderStatus)
    ensures
        s == OrderStatus::PendingPayment ==> next_status(s, OrderEvent::MarkExpired) == OrderStatus::PaymentExpired
            && event_applies(s, OrderEvent::MarkExpired),
        s != OrderStatus::PendingPayment ==> next_status(s, OrderEvent::MarkExpired) == s && !event_applies(
            s,
            OrderEvent::MarkExpired,
        ),
        next_status(s, OrderEvent::MarkExpired) == OrderStatus::PaymentExpired ==> (s == OrderStatus::PendingPayment
            || s == OrderStatus::PaymentExpired),
{
}

} // verus!
