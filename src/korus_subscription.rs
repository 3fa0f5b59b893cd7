//! Recurring premium subscriptions: a first payment opens the subscription,
//! then each cycle a payment request is raised when payment falls due,
//! which the subscriber approves (paying and advancing the due date),
//! rejects, or lets lapse past the grace period.

use vstd::prelude::*;
use crate::address::Address;
use crate::ledger::{apply_legs, single_leg, Leg, Ledger, TransferError};
use crate::workflow::ErrorKind;

verus! {

/// Lamports in one SOL.
pub const LAMPORTS_PER_SOL: u64 = 1_000_000_000;

/// A monthly billing cycle (30 days).
pub const SECONDS_PER_MONTH: i64 = 2_592_000;

/// A yearly billing cycle (365 days).
pub const SECONDS_PER_YEAR: i64 = 31_536_000;

/// How long after the due date a payment may still be made (2 days).
pub const GRACE_PERIOD_SECONDS: i64 = 172_800;

/// The price of a monthly cycle (0.1 SOL).
pub const MONTHLY_PRICE: u64 = LAMPORTS_PER_SOL / 10;

/// The price of a yearly cycle (1 SOL).
pub const YEARLY_PRICE: u64 = LAMPORTS_PER_SOL;

/// Program configuration and running totals.
#[derive(Clone, Copy, Debug, PartialEq, Eq)]
pub struct Config {
    pub authority: Address,
    pub treasury: Address,
    pub total_subscribers: u32,
    pub total_payment_requests: u64,
}

#[derive(Clone, Copy, Debug, PartialEq, Eq, Structural)]
pub enum SubscriptionTier {
    Basic,
    Premium,
}

#[derive(Clone, Copy, Debug, PartialEq, Eq, Structural)]
pub enum PaymentType {
    Monthly,
    Yearly,
}

#[derive(Clone, Copy, Debug, PartialEq, Eq, Structural)]
pub enum PaymentRequestStatus {
    Pending,
    Completed,
    Rejected,
    Expired,
}

#[derive(Clone, Copy, Debug, PartialEq, Eq)]
pub struct Subscription {
    pub subscriber: Address,
    pub tier: SubscriptionTier,
    pub payment_type: PaymentType,
    pub start_date: i64,
    pub last_payment_date: i64,
    pub next_payment_due: i64,
    pub is_active: bool,
    pub payment_count: u32,
}

#[derive(Clone, Copy, Debug, PartialEq, Eq)]
pub struct PaymentRequest {
    pub subscriber: Address,
    pub amount: u64,
    pub payment_type: PaymentType,
    pub created_at: i64,
    pub expires_at: i64,
    pub status: PaymentRequestStatus,
    pub paid_at: Option<i64>,
}

#[derive(Clone, Copy, Debug, PartialEq, Eq)]
pub enum SubscriptionError {
    PaymentNotDueYet,
    PaymentRequestAlreadyActive,
    PaymentRequestNotPending,
    UnauthorizedPayer,
    PaymentRequestExpired,
    NotPremiumSubscriber,
    SubscriptionNotActive,
    UnauthorizedSubscriber,
    PaymentRequestNotExpired,
    Overflow,
    TransferFailed(TransferError),
}

pub open spec fn error_kind(e: SubscriptionError) -> ErrorKind {
    match e {
        SubscriptionError::PaymentNotDueYet => ErrorKind::Timing,
        SubscriptionError::PaymentRequestAlreadyActive => ErrorKind::StateConflict,
        SubscriptionError::PaymentRequestNotPending => ErrorKind::StateConflict,
        SubscriptionError::UnauthorizedPayer => ErrorKind::Authorization,
        SubscriptionError::PaymentRequestExpired => ErrorKind::Timing,
        SubscriptionError::NotPremiumSubscriber => ErrorKind::StateConflict,
        SubscriptionError::SubscriptionNotActive => ErrorKind::StateConflict,
        SubscriptionError::UnauthorizedSubscriber => ErrorKind::Authorization,
        SubscriptionError::PaymentRequestNotExpired => ErrorKind::Timing,
        SubscriptionError::Overflow => ErrorKind::Arithmetic,
        SubscriptionError::TransferFailed(_) => ErrorKind::TransferFailure,
    }
}

impl SubscriptionError {
    pub fn kind(&self) -> (r: ErrorKind)
        ensures
            r == error_kind(*self),
    {
        match self {
            SubscriptionError::PaymentNotDueYet => ErrorKind::Timing,
            SubscriptionError::PaymentRequestAlreadyActive => ErrorKind::StateConflict,
            SubscriptionError::PaymentRequestNotPending => ErrorKind::StateConflict,
            SubscriptionError::UnauthorizedPayer => ErrorKind::Authorization,
            SubscriptionError::PaymentRequestExpired => ErrorKind::Timing,
            SubscriptionError::NotPremiumSubscriber => ErrorKind::StateConflict,
            SubscriptionError::SubscriptionNotActive => ErrorKind::StateConflict,
            SubscriptionError::UnauthorizedSubscriber => ErrorKind::Authorization,
            SubscriptionError::PaymentRequestNotExpired => ErrorKind::Timing,
            SubscriptionError::Overflow => ErrorKind::Arithmetic,
            SubscriptionError::TransferFailed(_) => ErrorKind::TransferFailure,
        }
    }
}

/// Record of a new configuration.
#[derive(Clone, Copy, Debug, PartialEq, Eq)]
pub struct ConfigInitialized {
    pub authority: Address,
    pub treasury: Address,
}

/// Record of a new subscription and its first payment.
#[derive(Clone, Copy, Debug, PartialEq, Eq)]
pub struct SubscriptionCreated {
    pub subscriber: Address,
    pub payment_type: PaymentType,
    pub amount: u64,
    pub next_payment_due: i64,
}

/// Record of a raised payment request.
#[derive(Clone, Copy, Debug, PartialEq, Eq)]
pub struct PaymentRequestCreated {
    pub subscriber: Address,
    pub amount: u64,
    pub payment_type: PaymentType,
    pub expires_at: i64,
}

/// Record of a paid request and the new due date.
#[derive(Clone, Copy, Debug, PartialEq, Eq)]
pub struct PaymentRequestApproved {
    pub subscriber: Address,
    pub amount: u64,
    pub payment_type: PaymentType,
    pub next_payment_due: i64,
}

/// Record of a declined request.
#[derive(Clone, Copy, Debug, PartialEq, Eq)]
pub struct PaymentRequestRejected {
    pub subscriber: Address,
    pub amount: u64,
}

/// Record of a lapsed subscription.
#[derive(Clone, Copy, Debug, PartialEq, Eq)]
pub struct SubscriptionExpired {
    pub subscriber: Address,
    pub expired_at: i64,
}

/// Record of a billing-cycle change.
#[derive(Clone, Copy, Debug, PartialEq, Eq)]
pub struct PaymentTypeChanged {
    pub subscriber: Address,
    pub new_payment_type: PaymentType,
}

/// The length of one billing cycle.
pub open spec fn cycle_length(t: PaymentType) -> i64 {
    match t {
        PaymentType::Monthly => SECONDS_PER_MONTH,
        PaymentType::Yearly => SECONDS_PER_YEAR,
    }
}

/// The price of one billing cycle.
pub open spec fn cycle_price(t: PaymentType) -> u64 {
    match t {
        PaymentType::Monthly => MONTHLY_PRICE,
        PaymentType::Yearly => YEARLY_PRICE,
    }
}

pub fn cycle_length_of(t: PaymentType) -> (r: i64)
    ensures
        r == cycle_length(t),
{
    match t {
        PaymentType::Monthly => SECONDS_PER_MONTH,
        PaymentType::Yearly => SECONDS_PER_YEAR,
    }
}

pub fn cycle_price_of(t: PaymentType) -> (r: u64)
    ensures
        r == cycle_price(t),
{
    match t {
        PaymentType::Monthly => MONTHLY_PRICE,
        PaymentType::Yearly => YEARLY_PRICE,
    }
}

/// A fresh configuration with no subscribers and no requests.
pub fn initialize(authority: Address, treasury: Address) -> (r: (Config, ConfigInitialized))
    ensures
        r.0 == (Config { authority, treasury, total_subscribers: 0, total_payment_requests: 0 }),
        r.1 == (ConfigInitialized { authority, treasury }),
{
    (
        Config { authority, treasury, total_subscribers: 0, total_payment_requests: 0 },
        ConfigInitialized { authority, treasury },
    )
}

/// The first check that opening a subscription fails, if any.
pub open spec fn subscribe_error(config: Config, payment_type: PaymentType, now: i64) -> Option<
    SubscriptionError,
> {
    if now + cycle_length(payment_type) > i64::MAX || config.total_subscribers + 1 > u32::MAX {
        Some(SubscriptionError::Overflow)
    } else {
        None
    }
}

/// Opens a premium subscription: the first cycle is paid to the treasury
/// now, and the next payment falls due one cycle later.
pub fn subscribe_premium(
    config: &mut Config,
    ledger: &mut Ledger,
    subscriber: Address,
    payment_type: PaymentType,
    now: i64,
) -> (r: Result<(Subscription, SubscriptionCreated), SubscriptionError>)
    requires
        old(ledger).wf(),
    ensures
        final(ledger).wf(),
        match subscribe_error(*old(config), payment_type, now) {
            Some(e) => {
                &&& r == Err::<(Subscription, SubscriptionCreated), SubscriptionError>(e)
                &&& *final(config) == *old(config)
                &&& final(ledger)@ == old(ledger)@
            },
            None => match apply_legs(
                old(ledger)@,
                seq![Leg { from: subscriber, to: old(config).treasury, amount: cycle_price(payment_type) }],
            ) {
                Ok(m) => {
                    &&& final(ledger)@ == m
                    &&& *final(config) == (Config {
                        total_subscribers: (old(config).total_subscribers + 1) as u32,
                        ..*old(config)
                    })
                    &&& r == Ok::<(Subscription, SubscriptionCreated), SubscriptionError>(
                        (Subscription {
                            subscriber,
                            tier: SubscriptionTier::Premium,
                            payment_type,
                            start_date: now,
                            last_payment_date: now,
                            next_payment_due: (now + cycle_length(payment_type)) as i64,
                            is_active: true,
                            payment_count: 1,
                        }, SubscriptionCreated {
                            subscriber,
                            payment_type,
                            amount: cycle_price(payment_type),
                            next_payment_due: (now + cycle_length(payment_type)) as i64,
                        }),
                    )
                },
                Err(t) => {
                    &&& r == Err::<(Subscription, SubscriptionCreated), SubscriptionError>(
                        SubscriptionError::TransferFailed(t),
                    )
                    &&& *final(config) == *old(config)
                    &&& final(ledger)@ == old(ledger)@
                },
            },
        },
{
    let period = cycle_length_of(payment_type);
    if now > i64::MAX - period || config.total_subscribers == u32::MAX {
        return Err(SubscriptionError::Overflow);
    }
    let amount = cycle_price_of(payment_type);
    let legs = single_leg(subscriber, config.treasury, amount);
    match ledger.execute(&legs) {
        Err(t) => Err(SubscriptionError::TransferFailed(t)),
        Ok(()) => {
            config.total_subscribers = config.total_subscribers + 1;
            Ok(
                (Subscription {
                    subscriber,
                    tier: SubscriptionTier::Premium,
                    payment_type,
                    start_date: now,
                    last_payment_date: now,
                    next_payment_due: now + period,
                    is_active: true,
                    payment_count: 1,
                }, SubscriptionCreated { subscriber, payment_type, amount, next_payment_due: now + period }),
            )
        },
    }
}

/// The first check that raising a payment request fails, if any.
pub open spec fn request_error(
    config: Config,
    subscription: Subscription,
    current: Option<PaymentRequestStatus>,
    now: i64,
) -> Option<SubscriptionError> {
    if now < subscription.next_payment_due {
        Some(SubscriptionError::PaymentNotDueYet)
    } else if current == Some(PaymentRequestStatus::Pending) {
        Some(SubscriptionError::PaymentRequestAlreadyActive)
    } else if subscription.next_payment_due + GRACE_PERIOD_SECONDS > i64::MAX
        || config.total_payment_requests + 1 > u64::MAX {
        Some(SubscriptionError::Overflow)
    } else {
        None
    }
}

/// Raises the payment request of a cycle that has fallen due. `current` is
/// the status of the request already raised for this cycle, if any; a
/// pending one blocks a second. The request can be paid until the grace
/// period after the due date ends.
pub fn create_payment_request(
    config: &mut Config,
    subscription: &Subscription,
    current: Option<PaymentRequestStatus>,
    now: i64,
) -> (r: Result<(PaymentRequest, PaymentRequestCreated), SubscriptionError>)
    ensures
        match request_error(*old(config), *subscription, current, now) {
            Some(e) => {
                &&& r == Err::<(PaymentRequest, PaymentRequestCreated), SubscriptionError>(e)
                &&& *final(config) == *old(config)
            },
            None => {
                &&& *final(config) == (Config {
                    total_payment_requests: (old(config).total_payment_requests + 1) as u64,
                    ..*old(config)
                })
                &&& r == Ok::<(PaymentRequest, PaymentRequestCreated), SubscriptionError>(
                    (PaymentRequest {
                        subscriber: subscription.subscriber,
                        amount: cycle_price(subscription.payment_type),
                        payment_type: subscription.payment_type,
                        created_at: now,
                        expires_at: (subscription.next_payment_due + GRACE_PERIOD_SECONDS) as i64,
                        status: PaymentRequestStatus::Pending,
                        paid_at: None,
                    }, PaymentRequestCreated {
                        subscriber: subscription.subscriber,
                        amount: cycle_price(subscription.payment_type),
                        payment_type: subscription.payment_type,
                        expires_at: (subscription.next_payment_due + GRACE_PERIOD_SECONDS) as i64,
                    }),
                )
            },
        },
{
    if now < subscription.next_payment_due {
        return Err(SubscriptionError::PaymentNotDueYet);
    }
    match current {
        Some(PaymentRequestStatus::Pending) => {
            return Err(SubscriptionError::PaymentRequestAlreadyActive);
        },
        _ => {},
    }
    if subscription.next_payment_due > i64::MAX - GRACE_PERIOD_SECONDS
        || config.total_payment_requests == u64::MAX {
        return Err(SubscriptionError::Overflow);
    }
    config.total_payment_requests = config.total_payment_requests + 1;
    let amount = cycle_price_of(subscription.payment_type);
    let expires_at = subscription.next_payment_due + GRACE_PERIOD_SECONDS;
    Ok(
        (PaymentRequest {
            subscriber: subscription.subscriber,
            amount,
            payment_type: subscription.payment_type,
            created_at: now,
            expires_at,
            status: PaymentRequestStatus::Pending,
            paid_at: None,
        }, PaymentRequestCreated {
            subscriber: subscription.subscriber,
            amount,
            payment_type: subscription.payment_type,
            expires_at,
        }),
    )
}

/// The first check that approving a payment request fails, if any.
pub open spec fn approve_error(
    request: PaymentRequest,
    subscription: Subscription,
    caller: Address,
    now: i64,
) -> Option<SubscriptionError> {
    if request.status != PaymentRequestStatus::Pending {
        Some(SubscriptionError::PaymentRequestNotPending)
    } else if request.subscriber != caller {
        Some(SubscriptionError::UnauthorizedPayer)
    } else if subscription.subscriber != caller {
        Some(SubscriptionError::UnauthorizedSubscriber)
    } else if now > request.expires_at {
        Some(SubscriptionError::PaymentRequestExpired)
    } else if subscription.payment_count + 1 > u32::MAX || subscription.next_payment_due
        + cycle_length(subscription.payment_type) > i64::MAX {
        Some(SubscriptionError::Overflow)
    } else {
        None
    }
}

/// Pays a pending request within its grace period: the amount goes to the
/// treasury, the request is completed, and the subscription is renewed
/// with its due date advanced by one cycle.
pub fn approve_payment_request(
    request: &mut PaymentRequest,
    subscription: &mut Subscription,
    config: &Config,
    ledger: &mut Ledger,
    caller: Address,
    now: i64,
) -> (r: Result<PaymentRequestApproved, SubscriptionError>)
    requires
        old(ledger).wf(),
    ensures
        final(ledger).wf(),
        match approve_error(*old(request), *old(subscription), caller, now) {
            Some(e) => {
                &&& r == Err::<PaymentRequestApproved, SubscriptionError>(e)
                &&& *final(request) == *old(request)
                &&& *final(subscription) == *old(subscription)
                &&& final(ledger)@ == old(ledger)@
            },
            None => match apply_legs(
                old(ledger)@,
                seq![Leg { from: caller, to: config.treasury, amount: old(request).amount }],
            ) {
                Ok(m) => {
                    &&& r == Ok::<PaymentRequestApproved, SubscriptionError>(
                        PaymentRequestApproved {
                            subscriber: caller,
                            amount: old(request).amount,
                            payment_type: old(request).payment_type,
                            next_payment_due: final(subscription).next_payment_due,
                        },
                    )
                    &&& final(ledger)@ == m
                    &&& *final(request) == (PaymentRequest {
                        status: PaymentRequestStatus::Completed,
                        paid_at: Some(now),
                        ..*old(request)
                    })
                    &&& *final(subscription) == (Subscription {
                        last_payment_date: now,
                        payment_count: (old(subscription).payment_count + 1) as u32,
                        is_active: true,
                        next_payment_due: (old(subscription).next_payment_due + cycle_length(
                            old(subscription).payment_type,
                        )) as i64,
                        ..*old(subscription)
                    })
                },
                Err(t) => {
                    &&& r == Err::<PaymentRequestApproved, SubscriptionError>(
                        SubscriptionError::TransferFailed(t),
                    )
                    &&& *final(request) == *old(request)
                    &&& *final(subscription) == *old(subscription)
                    &&& final(ledger)@ == old(ledger)@
                },
            },
        },
{
    if request.status != PaymentRequestStatus::Pending {
        return Err(SubscriptionError::PaymentRequestNotPending);
    }
    if !request.subscriber.same_as(&caller) {
        return Err(SubscriptionError::UnauthorizedPayer);
    }
    if !subscription.subscriber.same_as(&caller) {
        return Err(SubscriptionError::UnauthorizedSubscriber);
    }
    if now > request.expires_at {
        return Err(SubscriptionError::PaymentRequestExpired);
    }
    let period = cycle_length_of(subscription.payment_type);
    if subscription.payment_count == u32::MAX || subscription.next_payment_due > i64::MAX - period {
        return Err(SubscriptionError::Overflow);
    }
    let legs = single_leg(caller, config.treasury, request.amount);
    match ledger.execute(&legs) {
        Err(t) => Err(SubscriptionError::TransferFailed(t)),
        Ok(()) => {
            subscription.last_payment_date = now;
            subscription.payment_count = subscription.payment_count + 1;
            subscription.is_active = true;
            subscription.next_payment_due = subscription.next_payment_due + period;
            request.status = PaymentRequestStatus::Completed;
            request.paid_at = Some(now);
            Ok(
                PaymentRequestApproved {
                    subscriber: caller,
                    amount: request.amount,
                    payment_type: request.payment_type,
                    next_payment_due: subscription.next_payment_due,
                },
            )
        },
    }
}

/// The first check that rejecting a payment request fails, if any.
pub open spec fn reject_error(request: PaymentRequest, caller: Address) -> Option<SubscriptionError> {
    if request.status != PaymentRequestStatus::Pending {
        Some(SubscriptionError::PaymentRequestNotPending)
    } else if request.subscriber != caller {
        Some(SubscriptionError::UnauthorizedPayer)
    } else {
        None
    }
}

/// The subscriber declines a pending request; nothing is paid.
pub fn reject_payment_request(
    request: &mut PaymentRequest,
    caller: Address,
) -> (r: Result<PaymentRequestRejected, SubscriptionError>)
    ensures
        match reject_error(*old(request), caller) {
            Some(e) => r == Err::<PaymentRequestRejected, SubscriptionError>(e) && *final(request) == *old(request),
            None => {
                &&& r == Ok::<PaymentRequestRejected, SubscriptionError>(
                    PaymentRequestRejected { subscriber: caller, amount: old(request).amount },
                )
                &&& *final(request) == (PaymentRequest {
                    status: PaymentRequestStatus::Rejected,
                    ..*old(request)
                })
            },
        },
{
    if request.status != PaymentRequestStatus::Pending {
        return Err(SubscriptionError::PaymentRequestNotPending);
    }
    if !request.subscriber.same_as(&caller) {
        return Err(SubscriptionError::UnauthorizedPayer);
    }
    request.status = PaymentRequestStatus::Rejected;
    Ok(PaymentRequestRejected { subscriber: caller, amount: request.amount })
}

/// The first check that expiring a payment request fails, if any.
pub open spec fn expire_error(request: PaymentRequest, now: i64) -> Option<SubscriptionError> {
    if request.status != PaymentRequestStatus::Pending {
        Some(SubscriptionError::PaymentRequestNotPending)
    } else if now <= request.expires_at {
        Some(SubscriptionError::PaymentRequestNotExpired)
    } else {
        None
    }
}

/// Marks a pending request whose grace period has elapsed as expired;
/// nothing is paid.
pub fn expire_payment_request(request: &mut PaymentRequest, now: i64) -> (r: Result<
    (),
    SubscriptionError,
>)
    ensures
        match expire_error(*old(request), now) {
            Some(e) => r == Err::<(), SubscriptionError>(e) && *final(request) == *old(request),
            None => r is Ok && *final(request) == (PaymentRequest {
                status: PaymentRequestStatus::Expired,
                ..*old(request)
            }),
        },
{
    if request.status != PaymentRequestStatus::Pending {
        return Err(SubscriptionError::PaymentRequestNotPending);
    }
    if now <= request.expires_at {
        return Err(SubscriptionError::PaymentRequestNotExpired);
    }
    request.status = PaymentRequestStatus::Expired;
    Ok(())
}

/// Whether the subscription has lapsed: the grace period after its due
/// date has passed.
pub open spec fn lapsed(subscription: Subscription, now: i64) -> bool {
    now > subscription.next_payment_due + GRACE_PERIOD_SECONDS
}

/// Downgrades an active subscription that has lapsed to the basic tier and
/// counts one subscriber less (never below zero). Returns whether it did.
pub fn check_subscription_status(
    config: &mut Config,
    subscription: &mut Subscription,
    now: i64,
) -> (r: Option<SubscriptionExpired>)
    ensures
        r is Some == (lapsed(*old(subscription), now) && old(subscription).is_active),
        r matches Some(x) ==> x == (SubscriptionExpired {
            subscriber: old(subscription).subscriber,
            expired_at: now,
        }),
        r is Some ==> *final(subscription) == (Subscription {
            is_active: false,
            tier: SubscriptionTier::Basic,
            ..*old(subscription)
        }),
        r is Some ==> *final(config) == (Config {
            total_subscribers: if old(config).total_subscribers > 0 {
                (old(config).total_subscribers - 1) as u32
            } else {
                0
            },
            ..*old(config)
        }),
        r is None ==> *final(subscription) == *old(subscription) && *final(config) == *old(config),
{
    let past_grace = subscription.next_payment_due <= i64::MAX - GRACE_PERIOD_SECONDS && now
        > subscription.next_payment_due + GRACE_PERIOD_SECONDS;
    if past_grace && subscription.is_active {
        subscription.is_active = false;
        subscription.tier = SubscriptionTier::Basic;
        if config.total_subscribers > 0 {
            config.total_subscribers = config.total_subscribers - 1;
        }
        Some(SubscriptionExpired { subscriber: subscription.subscriber, expired_at: now })
    } else {
        None
    }
}

/// The first check that changing the billing cycle fails, if any.
pub open spec fn change_type_error(subscription: Subscription, caller: Address) -> Option<
    SubscriptionError,
> {
    if subscription.tier != SubscriptionTier::Premium {
        Some(SubscriptionError::NotPremiumSubscriber)
    } else if !subscription.is_active {
        Some(SubscriptionError::SubscriptionNotActive)
    } else if caller != subscription.subscriber {
        Some(SubscriptionError::UnauthorizedSubscriber)
    } else {
        None
    }
}

/// Switches an active premium subscription between monthly and yearly
/// billing; the current due date stays.
pub fn change_payment_type(
    subscription: &mut Subscription,
    caller: Address,
    new_payment_type: PaymentType,
) -> (r: Result<PaymentTypeChanged, SubscriptionError>)
    ensures
        match change_type_error(*old(subscription), caller) {
            Some(e) => {
                &&& r == Err::<PaymentTypeChanged, SubscriptionError>(e)
                &&& *final(subscription) == *old(subscription)
            },
            None => {
                &&& r == Ok::<PaymentTypeChanged, SubscriptionError>(
                    PaymentTypeChanged { subscriber: old(subscription).subscriber, new_payment_type },
                )
                &&& *final(subscription) == (Subscription {
                    payment_type: new_payment_type,
                    ..*old(subscription)
                })
            },
        },
{
    if subscription.tier != SubscriptionTier::Premium {
        return Err(SubscriptionError::NotPremiumSubscriber);
    }
    if !subscription.is_active {
        return Err(SubscriptionError::SubscriptionNotActive);
    }
    if !caller.same_as(&subscription.subscriber) {
        return Err(SubscriptionError::UnauthorizedSubscriber);
    }
    subscription.payment_type = new_payment_type;
    Ok(PaymentTypeChanged { subscriber: subscription.subscriber, new_payment_type })
}

} // verus!
