use korus::address::Address;
use korus::korus_events::{
    AttendeeCheckedIn, EventCancelled, EventCreated, FundsWithdrawn, TicketsPurchased,
    cancel_event, check_in, claim_refund, create_event, purchase_tickets, withdraw_funds, Event, EventError,
    Registration, UserTier,
};
use korus::ledger::Ledger;
use korus::workflow::ErrorKind;

const ORGANIZER: u8 = 1;
const BUYER: u8 = 2;
const ESCROW: u8 = 3;
const FEES: u8 = 4;
const OTHER: u8 = 5;

const DATE: i64 = 1_000_000;
const PUBLIC_SALE: i64 = 500_000;
const PREMIUM_SALE: i64 = 500_000 - 43_200;

fn addr(b: u8) -> Address {
    Address::new([b; 32])
}

fn setup() -> (Event, Ledger) {
    let ev = create_event(
        addr(ORGANIZER),
        addr(ESCROW),
        11,
        "Launch party".to_string(),
        "An evening".to_string(),
        1_000,
        10,
        DATE,
        "Lisbon".to_string(),
        PUBLIC_SALE,
        100,
    )
    .unwrap()
    .0;
    let mut ledger = Ledger::new();
    for a in [ORGANIZER, FEES, ESCROW] {
        ledger.open_account(addr(a), 0).unwrap();
    }
    for a in [BUYER, OTHER] {
        ledger.open_account(addr(a), 100_000).unwrap();
    }
    (ev, ledger)
}

fn blank(who: u8) -> Registration {
    Registration::new(11, addr(who))
}

#[test]
fn fresh_registration_is_empty() {
    assert_eq!(
        blank(BUYER),
        Registration {
            event_id: 11,
            attendee: addr(BUYER),
            ticket_count: 0,
            total_paid: 0,
            purchase_date: 0,
            checked_in: false,
            check_in_time: None,
            refunded: false,
        }
    );
}

#[test]
fn create_event_sets_sale_windows() {
    let (ev, _) = setup();
    let (_, created) = create_event(addr(ORGANIZER), addr(ESCROW), 12, "Gala".to_string(), String::new(), 7, 3, 500, String::new(), 0, 100).unwrap();
    assert_eq!(
        created,
        EventCreated { event_id: 12, organizer: addr(ORGANIZER), name: "Gala".to_string(), ticket_price: 7, max_tickets: 3, event_date: 500 }
    );
    assert!(ev.is_active);
    assert_eq!(ev.tickets_sold, 0);
    assert_eq!(ev.premium_sale_time, PREMIUM_SALE);
    assert_eq!(ev.public_sale_time, PUBLIC_SALE);
}

#[test]
fn create_event_validation() {
    let mk = |name: String, desc: String, loc: String, max: u32, date: i64, sale: i64| {
        create_event(addr(ORGANIZER), addr(ESCROW), 1, name, desc, 5, max, date, loc, sale, 100)
    };
    assert_eq!(mk("n".repeat(101), String::new(), String::new(), 1, 200, 0).unwrap_err(), EventError::NameTooLong);
    assert_eq!(mk(String::new(), "d".repeat(501), String::new(), 1, 200, 0).unwrap_err(), EventError::DescriptionTooLong);
    assert_eq!(mk(String::new(), String::new(), "l".repeat(201), 1, 200, 0).unwrap_err(), EventError::LocationTooLong);
    assert_eq!(mk(String::new(), String::new(), String::new(), 0, 200, 0).unwrap_err(), EventError::InvalidMaxTickets);
    let e = mk(String::new(), String::new(), String::new(), 1, 100, 0).unwrap_err();
    assert_eq!(e, EventError::EventDateInPast);
    assert_eq!(e.kind(), ErrorKind::Timing);
    assert_eq!(mk(String::new(), String::new(), String::new(), 1, 200, i64::MIN).unwrap_err(), EventError::Overflow);
    assert!(mk("n".repeat(100), "d".repeat(500), "l".repeat(200), 1, 200, 0).is_ok());
}

#[test]
fn tiers_gate_the_sale() {
    let (mut ev, mut ledger) = setup();
    let mut reg = blank(BUYER);
    let e = purchase_tickets(&mut ev, &mut reg, &mut ledger, addr(BUYER), 1, UserTier::Premium, PREMIUM_SALE - 1).unwrap_err();
    assert_eq!(e, EventError::SaleNotStarted);
    let e = purchase_tickets(&mut ev, &mut reg, &mut ledger, addr(BUYER), 1, UserTier::Basic, PREMIUM_SALE).unwrap_err();
    assert_eq!(e, EventError::BasicTierWaitPeriod);
    assert_eq!(e.kind(), ErrorKind::Timing);
    purchase_tickets(&mut ev, &mut reg, &mut ledger, addr(BUYER), 2, UserTier::Genesis, PREMIUM_SALE).unwrap();
    assert_eq!(
        purchase_tickets(&mut ev, &mut reg, &mut ledger, addr(BUYER), 3, UserTier::Basic, PUBLIC_SALE),
        Ok(TicketsPurchased { event_id: 11, buyer: addr(BUYER), ticket_count: 3, total_paid: 3_000 })
    );
    assert_eq!(ev.tickets_sold, 5);
    assert_eq!(ev.total_revenue, 5_000);
    assert_eq!(reg.ticket_count, 5);
    assert_eq!(reg.total_paid, 5_000);
    assert_eq!(reg.purchase_date, PUBLIC_SALE);
    assert_eq!(ledger.balance(&addr(ESCROW)), Some(5_000));
}

#[test]
fn purchase_limits() {
    let (mut ev, mut ledger) = setup();
    let mut reg = blank(BUYER);
    assert_eq!(purchase_tickets(&mut ev, &mut reg, &mut ledger, addr(OTHER), 1, UserTier::Basic, PUBLIC_SALE), Err(EventError::UnauthorizedAttendee));
    assert_eq!(purchase_tickets(&mut ev, &mut reg, &mut ledger, addr(BUYER), 0, UserTier::Basic, PUBLIC_SALE), Err(EventError::InvalidTicketCount));
    assert_eq!(purchase_tickets(&mut ev, &mut reg, &mut ledger, addr(BUYER), 11, UserTier::Basic, PUBLIC_SALE), Err(EventError::NotEnoughTicketsAvailable));
    assert_eq!(purchase_tickets(&mut ev, &mut reg, &mut ledger, addr(BUYER), u32::MAX, UserTier::Basic, PUBLIC_SALE), Err(EventError::NotEnoughTicketsAvailable));
    assert_eq!(purchase_tickets(&mut ev, &mut reg, &mut ledger, addr(BUYER), 1, UserTier::Basic, DATE), Err(EventError::EventAlreadyPassed));
    ev.ticket_price = u64::MAX;
    assert_eq!(purchase_tickets(&mut ev, &mut reg, &mut ledger, addr(BUYER), 2, UserTier::Basic, PUBLIC_SALE), Err(EventError::Overflow));
    assert_eq!(ev.tickets_sold, 0);
    assert_eq!(reg, blank(BUYER));
}

#[test]
fn check_in_window_and_once() {
    let (ev, _) = setup();
    let mut reg = blank(BUYER);
    assert_eq!(check_in(&mut reg, &ev, addr(OTHER), DATE), Err(EventError::UnauthorizedAttendee));
    let e = check_in(&mut reg, &ev, addr(BUYER), DATE - 3_601).unwrap_err();
    assert_eq!(e, EventError::TooEarlyToCheckIn);
    assert_eq!(
        check_in(&mut reg, &ev, addr(BUYER), DATE - 3_600),
        Ok(AttendeeCheckedIn { event_id: 11, attendee: addr(BUYER), check_in_time: DATE - 3_600 })
    );
    assert!(reg.checked_in);
    assert_eq!(reg.check_in_time, Some(DATE - 3_600));
    let e = check_in(&mut reg, &ev, addr(BUYER), DATE).unwrap_err();
    assert_eq!(e, EventError::AlreadyCheckedIn);
    assert_eq!(e.kind(), ErrorKind::StateConflict);
}

#[test]
fn withdraw_after_the_event_once() {
    let (mut ev, mut ledger) = setup();
    let mut reg = blank(BUYER);
    purchase_tickets(&mut ev, &mut reg, &mut ledger, addr(BUYER), 10, UserTier::Basic, PUBLIC_SALE).unwrap();
    let e = withdraw_funds(&mut ev, &mut ledger, addr(OTHER), addr(FEES), DATE + 1).unwrap_err();
    assert_eq!(e, EventError::UnauthorizedOrganizer);
    assert_eq!(e.kind(), ErrorKind::Authorization);
    assert_eq!(withdraw_funds(&mut ev, &mut ledger, addr(ORGANIZER), addr(FEES), DATE), Err(EventError::EventNotCompleted));
    assert_eq!(
        withdraw_funds(&mut ev, &mut ledger, addr(ORGANIZER), addr(FEES), DATE + 1),
        Ok(FundsWithdrawn { event_id: 11, organizer_amount: 9_500, platform_fee: 500 })
    );
    assert_eq!(ledger.balance(&addr(ORGANIZER)), Some(9_500));
    assert_eq!(ledger.balance(&addr(FEES)), Some(500));
    assert_eq!(ledger.balance(&addr(ESCROW)), Some(0));
    let e = withdraw_funds(&mut ev, &mut ledger, addr(ORGANIZER), addr(FEES), DATE + 2).unwrap_err();
    assert_eq!(e, EventError::FundsAlreadyWithdrawn);
    assert_eq!(e.kind(), ErrorKind::StateConflict);
}

#[test]
fn cancellation_then_refund_claims() {
    let (mut ev, mut ledger) = setup();
    let mut reg = blank(BUYER);
    purchase_tickets(&mut ev, &mut reg, &mut ledger, addr(BUYER), 4, UserTier::Basic, PUBLIC_SALE).unwrap();
    assert_eq!(claim_refund(&ev, &mut reg, &mut ledger, addr(BUYER)), Err(EventError::EventNotCancelled));
    assert_eq!(cancel_event(&mut ev, addr(OTHER), PUBLIC_SALE), Err(EventError::UnauthorizedOrganizer));
    assert_eq!(cancel_event(&mut ev, addr(ORGANIZER), DATE), Err(EventError::EventAlreadyPassed));
    assert_eq!(cancel_event(&mut ev, addr(ORGANIZER), PUBLIC_SALE), Ok(EventCancelled { event_id: 11, refund_total: 4_000 }));
    assert!(!ev.is_active);
    assert_eq!(cancel_event(&mut ev, addr(ORGANIZER), PUBLIC_SALE), Err(EventError::EventNotActive));
    assert_eq!(purchase_tickets(&mut ev, &mut reg, &mut ledger, addr(BUYER), 1, UserTier::Basic, PUBLIC_SALE), Err(EventError::EventNotActive));
    assert_eq!(withdraw_funds(&mut ev, &mut ledger, addr(ORGANIZER), addr(FEES), DATE + 1), Err(EventError::EventNotActive));
    assert_eq!(claim_refund(&ev, &mut reg, &mut ledger, addr(OTHER)), Err(EventError::UnauthorizedAttendee));
    claim_refund(&ev, &mut reg, &mut ledger, addr(BUYER)).unwrap();
    assert_eq!(ledger.balance(&addr(BUYER)), Some(100_000));
    assert_eq!(ledger.balance(&addr(ESCROW)), Some(0));
    assert_eq!(claim_refund(&ev, &mut reg, &mut ledger, addr(BUYER)), Err(EventError::AlreadyRefunded));
}
