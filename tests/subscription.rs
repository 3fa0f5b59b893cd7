use korus::address::Address;
use korus::korus_subscription::{
    ConfigInitialized, PaymentRequestApproved, PaymentRequestCreated, PaymentRequestRejected, PaymentTypeChanged,
    SubscriptionCreated, SubscriptionExpired,
    approve_payment_request, change_payment_type, check_subscription_status, create_payment_request,
    expire_payment_request, initialize, reject_payment_request, subscribe_premium, Config, PaymentRequestStatus,
    PaymentType, SubscriptionError, SubscriptionTier, GRACE_PERIOD_SECONDS, MONTHLY_PRICE, SECONDS_PER_MONTH,
    SECONDS_PER_YEAR, YEARLY_PRICE,
};
use korus::ledger::{Ledger, TransferError};
use korus::workflow::ErrorKind;

const SUBSCRIBER: u8 = 1;
const TREASURY: u8 = 2;
const AUTHORITY: u8 = 3;
const OTHER: u8 = 4;

fn addr(b: u8) -> Address {
    Address::new([b; 32])
}

fn setup(funds: u64) -> (Config, Ledger) {
    let (config, created) = initialize(addr(AUTHORITY), addr(TREASURY));
    assert_eq!(created, ConfigInitialized { authority: addr(AUTHORITY), treasury: addr(TREASURY) });
    let mut ledger = Ledger::new();
    ledger.open_account(addr(SUBSCRIBER), funds).unwrap();
    ledger.open_account(addr(TREASURY), 0).unwrap();
    (config, ledger)
}

#[test]
fn prices_and_cycles() {
    assert_eq!(MONTHLY_PRICE, 100_000_000);
    assert_eq!(YEARLY_PRICE, 1_000_000_000);
    assert_eq!(SECONDS_PER_MONTH, 30 * 24 * 60 * 60);
    assert_eq!(SECONDS_PER_YEAR, 365 * 24 * 60 * 60);
    assert_eq!(GRACE_PERIOD_SECONDS, 2 * 24 * 60 * 60);
}

#[test]
fn subscribing_pays_the_first_cycle() {
    let (mut config, mut ledger) = setup(2_000_000_000);
    let (s, created) = subscribe_premium(&mut config, &mut ledger, addr(SUBSCRIBER), PaymentType::Yearly, 10).unwrap();
    assert_eq!(
        created,
        SubscriptionCreated { subscriber: addr(SUBSCRIBER), payment_type: PaymentType::Yearly, amount: YEARLY_PRICE, next_payment_due: 10 + SECONDS_PER_YEAR }
    );
    assert_eq!(s.tier, SubscriptionTier::Premium);
    assert!(s.is_active);
    assert_eq!(s.payment_count, 1);
    assert_eq!(s.next_payment_due, 10 + SECONDS_PER_YEAR);
    assert_eq!(config.total_subscribers, 1);
    assert_eq!(ledger.balance(&addr(TREASURY)), Some(YEARLY_PRICE));
}

#[test]
fn subscribing_without_funds_changes_nothing() {
    let (mut config, mut ledger) = setup(1);
    let e = subscribe_premium(&mut config, &mut ledger, addr(SUBSCRIBER), PaymentType::Monthly, 10).unwrap_err();
    assert_eq!(e, SubscriptionError::TransferFailed(TransferError::InsufficientBalance));
    assert_eq!(config.total_subscribers, 0);
    let e = subscribe_premium(&mut config, &mut ledger, addr(SUBSCRIBER), PaymentType::Monthly, i64::MAX).unwrap_err();
    assert_eq!(e, SubscriptionError::Overflow);
    assert_eq!(e.kind(), ErrorKind::Arithmetic);
}

#[test]
fn monthly_cycle_request_and_approval() {
    let (mut config, mut ledger) = setup(1_000_000_000);
    let mut s = subscribe_premium(&mut config, &mut ledger, addr(SUBSCRIBER), PaymentType::Monthly, 0).unwrap().0;
    let due = s.next_payment_due;
    let e = create_payment_request(&mut config, &s, None, due - 1).unwrap_err();
    assert_eq!(e, SubscriptionError::PaymentNotDueYet);
    assert_eq!(e.kind(), ErrorKind::Timing);
    let (mut req, raised) = create_payment_request(&mut config, &s, None, due).unwrap();
    assert_eq!(
        raised,
        PaymentRequestCreated { subscriber: addr(SUBSCRIBER), amount: MONTHLY_PRICE, payment_type: PaymentType::Monthly, expires_at: due + GRACE_PERIOD_SECONDS }
    );
    assert_eq!(req.amount, MONTHLY_PRICE);
    assert_eq!(req.expires_at, due + GRACE_PERIOD_SECONDS);
    assert_eq!(req.status, PaymentRequestStatus::Pending);
    assert_eq!(config.total_payment_requests, 1);
    let e = create_payment_request(&mut config, &s, Some(req.status), due).unwrap_err();
    assert_eq!(e, SubscriptionError::PaymentRequestAlreadyActive);
    assert_eq!(e.kind(), ErrorKind::StateConflict);
    let e = approve_payment_request(&mut req, &mut s, &config, &mut ledger, addr(OTHER), due).unwrap_err();
    assert_eq!(e, SubscriptionError::UnauthorizedPayer);
    assert_eq!(
        approve_payment_request(&mut req, &mut s, &config, &mut ledger, addr(SUBSCRIBER), due + 5),
        Ok(PaymentRequestApproved {
            subscriber: addr(SUBSCRIBER),
            amount: MONTHLY_PRICE,
            payment_type: PaymentType::Monthly,
            next_payment_due: due + SECONDS_PER_MONTH,
        })
    );
    assert_eq!(req.status, PaymentRequestStatus::Completed);
    assert_eq!(req.paid_at, Some(due + 5));
    assert_eq!(s.payment_count, 2);
    assert_eq!(s.next_payment_due, due + SECONDS_PER_MONTH);
    assert_eq!(s.last_payment_date, due + 5);
    assert_eq!(ledger.balance(&addr(TREASURY)), Some(2 * MONTHLY_PRICE));
    let e = approve_payment_request(&mut req, &mut s, &config, &mut ledger, addr(SUBSCRIBER), due + 6).unwrap_err();
    assert_eq!(e, SubscriptionError::PaymentRequestNotPending);
    assert_eq!(ledger.balance(&addr(TREASURY)), Some(2 * MONTHLY_PRICE));
}

#[test]
fn late_approval_fails_and_request_expires() {
    let (mut config, mut ledger) = setup(1_000_000_000);
    let mut s = subscribe_premium(&mut config, &mut ledger, addr(SUBSCRIBER), PaymentType::Monthly, 0).unwrap().0;
    let due = s.next_payment_due;
    let mut req = create_payment_request(&mut config, &s, None, due).unwrap().0;
    assert_eq!(expire_payment_request(&mut req, due + GRACE_PERIOD_SECONDS), Err(SubscriptionError::PaymentRequestNotExpired));
    let e = approve_payment_request(&mut req, &mut s, &config, &mut ledger, addr(SUBSCRIBER), due + GRACE_PERIOD_SECONDS + 1).unwrap_err();
    assert_eq!(e, SubscriptionError::PaymentRequestExpired);
    expire_payment_request(&mut req, due + GRACE_PERIOD_SECONDS + 1).unwrap();
    assert_eq!(req.status, PaymentRequestStatus::Expired);
    assert_eq!(s.payment_count, 1);
    let fresh = create_payment_request(&mut config, &s, Some(req.status), due + GRACE_PERIOD_SECONDS + 1).unwrap().0;
    assert_eq!(fresh.status, PaymentRequestStatus::Pending);
}

#[test]
fn rejection_and_other_subscribers() {
    let (mut config, mut ledger) = setup(1_000_000_000);
    let mut s = subscribe_premium(&mut config, &mut ledger, addr(SUBSCRIBER), PaymentType::Monthly, 0).unwrap().0;
    let mut req = create_payment_request(&mut config, &s, None, s.next_payment_due).unwrap().0;
    assert_eq!(reject_payment_request(&mut req, addr(OTHER)), Err(SubscriptionError::UnauthorizedPayer));
    assert_eq!(reject_payment_request(&mut req, addr(SUBSCRIBER)), Ok(PaymentRequestRejected { subscriber: addr(SUBSCRIBER), amount: MONTHLY_PRICE }));
    assert_eq!(req.status, PaymentRequestStatus::Rejected);
    assert_eq!(reject_payment_request(&mut req, addr(SUBSCRIBER)), Err(SubscriptionError::PaymentRequestNotPending));
    let mut req2 = create_payment_request(&mut config, &s, Some(req.status), s.next_payment_due).unwrap().0;
    req2.subscriber = addr(OTHER);
    let due = s.next_payment_due;
    let e = approve_payment_request(&mut req2, &mut s, &config, &mut ledger, addr(OTHER), due).unwrap_err();
    assert_eq!(e, SubscriptionError::UnauthorizedSubscriber);
}

#[test]
fn lapse_downgrades_once() {
    let (mut config, mut ledger) = setup(1_000_000_000);
    let mut s = subscribe_premium(&mut config, &mut ledger, addr(SUBSCRIBER), PaymentType::Monthly, 0).unwrap().0;
    let limit = s.next_payment_due + GRACE_PERIOD_SECONDS;
    assert_eq!(check_subscription_status(&mut config, &mut s, limit), None);
    assert!(s.is_active);
    assert_eq!(
        check_subscription_status(&mut config, &mut s, limit + 1),
        Some(SubscriptionExpired { subscriber: addr(SUBSCRIBER), expired_at: limit + 1 })
    );
    assert!(!s.is_active);
    assert_eq!(s.tier, SubscriptionTier::Basic);
    assert_eq!(config.total_subscribers, 0);
    assert_eq!(check_subscription_status(&mut config, &mut s, limit + 2), None);
    assert_eq!(config.total_subscribers, 0);
    assert_eq!(change_payment_type(&mut s, addr(SUBSCRIBER), PaymentType::Yearly), Err(SubscriptionError::NotPremiumSubscriber));
    s.tier = SubscriptionTier::Premium;
    assert_eq!(change_payment_type(&mut s, addr(SUBSCRIBER), PaymentType::Yearly), Err(SubscriptionError::SubscriptionNotActive));
}

#[test]
fn switching_billing_cycle() {
    let (mut config, mut ledger) = setup(1_000_000_000);
    let mut s = subscribe_premium(&mut config, &mut ledger, addr(SUBSCRIBER), PaymentType::Monthly, 0).unwrap().0;
    assert_eq!(change_payment_type(&mut s, addr(OTHER), PaymentType::Yearly), Err(SubscriptionError::UnauthorizedSubscriber));
    assert_eq!(
        change_payment_type(&mut s, addr(SUBSCRIBER), PaymentType::Yearly),
        Ok(PaymentTypeChanged { subscriber: addr(SUBSCRIBER), new_payment_type: PaymentType::Yearly })
    );
    assert_eq!(s.payment_type, PaymentType::Yearly);
    assert_eq!(s.next_payment_due, SECONDS_PER_MONTH);
    let req = create_payment_request(&mut config, &s, None, SECONDS_PER_MONTH).unwrap().0;
    assert_eq!(req.amount, YEARLY_PRICE);
}
