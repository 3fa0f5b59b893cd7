//! Ticketed events: buyers pay into the event's escrow during tiered sale
//! windows, attendees check in around the start, and after the event the
//! organizer withdraws the revenue less a 5% fee. A cancelled event is
//! refunded by claims: each attendee reclaims what they paid.

use vstd::prelude::*;
use crate::address::Address;
use crate::ledger::{apply_legs, leg_pair, single_leg, Leg, Ledger, TransferError};
use crate::settlement::{fee_of, fee_product_fits, fee_split, net_of};
use crate::workflow::{byte_len, text_len, ErrorKind};

verus! {

/// The fee taken from the revenue (5%).
pub const PLATFORM_FEE_BPS: u16 = 500;

/// How long before the public sale the premium tiers may buy (12 hours).
pub const PREMIUM_EARLY_ACCESS_SECONDS: i64 = 43200;

/// How long before the start attendees may check in (1 hour).
pub const CHECK_IN_WINDOW_SECONDS: i64 = 3600;

pub const MAX_NAME_LEN: usize = 100;

pub const MAX_DESCRIPTION_LEN: usize = 500;

pub const MAX_LOCATION_LEN: usize = 200;

#[derive(Clone, Copy, Debug, PartialEq, Eq, Structural)]
pub enum UserTier {
    Basic,
    Premium,
    Genesis,
}

/// One event and the escrow that holds its revenue.
#[derive(Debug)]
pub struct Event {
    pub event_id: u64,
    pub organizer: Address,
    pub name: String,
    pub description: String,
    pub ticket_price: u64,
    pub max_tickets: u32,
    pub tickets_sold: u32,
    pub event_date: i64,
    pub location: String,
    pub is_active: bool,
    pub created_at: i64,
    pub total_revenue: u64,
    pub public_sale_time: i64,
    pub premium_sale_time: i64,
    pub escrow: Address,
    pub funds_withdrawn: bool,
}

/// What one attendee bought for one event.
#[derive(Clone, Copy, Debug, PartialEq, Eq)]
pub struct Registration {
    pub event_id: u64,
    pub attendee: Address,
    pub ticket_count: u32,
    pub total_paid: u64,
    pub purchase_date: i64,
    pub checked_in: bool,
    pub check_in_time: Option<i64>,
    pub refunded: bool,
}

impl Registration {
    /// An attendee's registration before any purchase.
    pub fn new(event_id: u64, attendee: Address) -> (r: Registration)
        ensures
            r == (Registration {
                event_id,
                attendee,
                ticket_count: 0,
                total_paid: 0,
                purchase_date: 0,
                checked_in: false,
                check_in_time: None,
                refunded: false,
            }),
    {
        Registration {
            event_id,
            attendee,
            ticket_count: 0,
            total_paid: 0,
            purchase_date: 0,
            checked_in: false,
            check_in_time: None,
            refunded: false,
        }
    }
}

#[derive(Clone, Copy, Debug, PartialEq, Eq)]
pub enum EventError {
    NameTooLong,
    DescriptionTooLong,
    LocationTooLong,
    InvalidMaxTickets,
    EventDateInPast,
    EventNotActive,
    InvalidTicketCount,
    NotEnoughTicketsAvailable,
    EventAlreadyPassed,
    Overflow,
    AlreadyCheckedIn,
    TooEarlyToCheckIn,
    UnauthorizedOrganizer,
    EventNotCompleted,
    SaleNotStarted,
    BasicTierWaitPeriod,
    FundsAlreadyWithdrawn,
    EventNotCancelled,
    UnauthorizedAttendee,
    AlreadyRefunded,
    TransferFailed(TransferError),
}

pub open spec fn error_kind(e: EventError) -> ErrorKind {
    match e {
        EventError::NameTooLong => ErrorKind::Validation,
        EventError::DescriptionTooLong => ErrorKind::Validation,
        EventError::LocationTooLong => ErrorKind::Validation,
        EventError::InvalidMaxTickets => ErrorKind::Validation,
        EventError::EventDateInPast => ErrorKind::Timing,
        EventError::EventNotActive => ErrorKind::StateConflict,
        EventError::InvalidTicketCount => ErrorKind::Validation,
        EventError::NotEnoughTicketsAvailable => ErrorKind::Validation,
        EventError::EventAlreadyPassed => ErrorKind::Timing,
        EventError::Overflow => ErrorKind::Arithmetic,
        EventError::AlreadyCheckedIn => ErrorKind::StateConflict,
        EventError::TooEarlyToCheckIn => ErrorKind::Timing,
        EventError::UnauthorizedOrganizer => ErrorKind::Authorization,
        EventError::EventNotCompleted => ErrorKind::Timing,
        EventError::SaleNotStarted => ErrorKind::Timing,
        EventError::BasicTierWaitPeriod => ErrorKind::Timing,
        EventError::FundsAlreadyWithdrawn => ErrorKind::StateConflict,
        EventError::EventNotCancelled => ErrorKind::StateConflict,
        EventError::UnauthorizedAttendee => ErrorKind::Authorization,
        EventError::AlreadyRefunded => ErrorKind::StateConflict,
        EventError::TransferFailed(_) => ErrorKind::TransferFailure,
    }
}

impl EventError {
    pub fn kind(&self) -> (r: ErrorKind)
        ensures
            r == error_kind(*self),
    {
        match self {
            EventError::NameTooLong => ErrorKind::Validation,
            EventError::DescriptionTooLong => ErrorKind::Validation,
            EventError::LocationTooLong => ErrorKind::Validation,
            EventError::InvalidMaxTickets => ErrorKind::Validation,
            EventError::EventDateInPast => ErrorKind::Timing,
            EventError::EventNotActive => ErrorKind::StateConflict,
            EventError::InvalidTicketCount => ErrorKind::Validation,
            EventError::NotEnoughTicketsAvailable => ErrorKind::Validation,
            EventError::EventAlreadyPassed => ErrorKind::Timing,
            EventError::Overflow => ErrorKind::Arithmetic,
            EventError::AlreadyCheckedIn => ErrorKind::StateConflict,
            EventError::TooEarlyToCheckIn => ErrorKind::Timing,
            EventError::UnauthorizedOrganizer => ErrorKind::Authorization,
            EventError::EventNotCompleted => ErrorKind::Timing,
            EventError::SaleNotStarted => ErrorKind::Timing,
            EventError::BasicTierWaitPeriod => ErrorKind::Timing,
            EventError::FundsAlreadyWithdrawn => ErrorKind::StateConflict,
            EventError::EventNotCancelled => ErrorKind::StateConflict,
            EventError::UnauthorizedAttendee => ErrorKind::Authorization,
            EventError::AlreadyRefunded => ErrorKind::StateConflict,
            EventError::TransferFailed(_) => ErrorKind::TransferFailure,
        }
    }
}

/// Record of a new event.
#[derive(Debug, PartialEq, Eq)]
pub struct EventCreated {
    pub event_id: u64,
    pub organizer: Address,
    pub name: String,
    pub ticket_price: u64,
    pub max_tickets: u32,
    pub event_date: i64,
}

/// Record of a purchase.
#[derive(Clone, Copy, Debug, PartialEq, Eq)]
pub struct TicketsPurchased {
    pub event_id: u64,
    pub buyer: Address,
    pub ticket_count: u32,
    pub total_paid: u64,
}

/// Record of a check-in.
#[derive(Clone, Copy, Debug, PartialEq, Eq)]
pub struct AttendeeCheckedIn {
    pub event_id: u64,
    pub attendee: Address,
    pub check_in_time: i64,
}

/// Record of the revenue payout.
#[derive(Clone, Copy, Debug, PartialEq, Eq)]
pub struct FundsWithdrawn {
    pub event_id: u64,
    pub organizer_amount: u64,
    pub platform_fee: u64,
}

/// Record of a cancellation, with the revenue that is now reclaimable.
#[derive(Clone, Copy, Debug, PartialEq, Eq)]
pub struct EventCancelled {
    pub event_id: u64,
    pub refund_total: u64,
}

/// The first check that a new event fails, if any.
pub open spec fn create_error(
    name: Seq<char>,
    description: Seq<char>,
    location: Seq<char>,
    max_tickets: u32,
    event_date: i64,
    public_sale_time: i64,
    now: i64,
) -> Option<EventError> {
    if text_len(name) > MAX_NAME_LEN {
        Some(EventError::NameTooLong)
    } else if text_len(description) > MAX_DESCRIPTION_LEN {
        Some(EventError::DescriptionTooLong)
    } else if text_len(location) > MAX_LOCATION_LEN {
        Some(EventError::LocationTooLong)
    } else if max_tickets == 0 {
        Some(EventError::InvalidMaxTickets)
    } else if event_date <= now {
        Some(EventError::EventDateInPast)
    } else if public_sale_time - PREMIUM_EARLY_ACCESS_SECONDS < i64::MIN {
        Some(EventError::Overflow)
    } else {
        None
    }
}

/// Creates an event with nothing sold; the premium tiers' sale opens
/// twelve hours before the public one.
pub fn create_event(
    organizer: Address,
    escrow: Address,
    event_id: u64,
    name: String,
    description: String,
    ticket_price: u64,
    max_tickets: u32,
    event_date: i64,
    location: String,
    public_sale_time: i64,
    now: i64,
) -> (r: Result<(Event, EventCreated), EventError>)
    ensures
        match create_error(
            name@,
            description@,
            location@,
            max_tickets,
            event_date,
            public_sale_time,
            now,
        ) {
            Some(e) => r matches Err(x) && x == e,
            None => r matches Ok(created) && created.0 == (Event {
                event_id,
                organizer,
                name,
                description,
                ticket_price,
                max_tickets,
                tickets_sold: 0,
                event_date,
                location,
                is_active: true,
                created_at: now,
                total_revenue: 0,
                public_sale_time,
                premium_sale_time: (public_sale_time - PREMIUM_EARLY_ACCESS_SECONDS) as i64,
                escrow,
                funds_withdrawn: false,
            }) && created.1 == (EventCreated {
                event_id,
                organizer,
                name,
                ticket_price,
                max_tickets,
                event_date,
            }),
        },
{
    if byte_len(&name) > MAX_NAME_LEN {
        return Err(EventError::NameTooLong);
    }
    if byte_len(&description) > MAX_DESCRIPTION_LEN {
        return Err(EventError::DescriptionTooLong);
    }
    if byte_len(&location) > MAX_LOCATION_LEN {
        return Err(EventError::LocationTooLong);
    }
    if max_tickets == 0 {
        return Err(EventError::InvalidMaxTickets);
    }
    if event_date <= now {
        return Err(EventError::EventDateInPast);
    }
    if public_sale_time < i64::MIN + PREMIUM_EARLY_ACCESS_SECONDS {
        return Err(EventError::Overflow);
    }
    let record = EventCreated {
        event_id,
        organizer,
        name: name.clone(),
        ticket_price,
        max_tickets,
        event_date,
    };
    Ok(
        (Event {
            event_id,
            organizer,
            name,
            description,
            ticket_price,
            max_tickets,
            tickets_sold: 0,
            event_date,
            location,
            is_active: true,
            created_at: now,
            total_revenue: 0,
            public_sale_time,
            premium_sale_time: public_sale_time - PREMIUM_EARLY_ACCESS_SECONDS,
            escrow,
            funds_withdrawn: false,
        }, record),
    )
}

/// When a buyer of the given tier may start buying.
pub open spec fn sale_opens_at(event: Event, tier: UserTier) -> i64 {
    match tier {
        UserTier::Basic => event.public_sale_time,
        _ => event.premium_sale_time,
    }
}

/// The first check that a purchase fails, if any.
pub open spec fn purchase_error(
    event: Event,
    registration: Registration,
    buyer: Address,
    ticket_count: u32,
    user_tier: UserTier,
    now: i64,
) -> Option<EventError> {
    let price = event.ticket_price * ticket_count;
    if registration.attendee != buyer || registration.event_id != event.event_id {
        Some(EventError::UnauthorizedAttendee)
    } else if !event.is_active {
        Some(EventError::EventNotActive)
    } else if ticket_count == 0 {
        Some(EventError::InvalidTicketCount)
    } else if event.tickets_sold + ticket_count > event.max_tickets {
        Some(EventError::NotEnoughTicketsAvailable)
    } else if now >= event.event_date {
        Some(EventError::EventAlreadyPassed)
    } else if now < sale_opens_at(event, user_tier) {
        if user_tier == UserTier::Basic {
            Some(EventError::BasicTierWaitPeriod)
        } else {
            Some(EventError::SaleNotStarted)
        }
    } else if price > u64::MAX || event.total_revenue + price > u64::MAX
        || registration.ticket_count + ticket_count > u32::MAX || registration.total_paid + price
        > u64::MAX {
        Some(EventError::Overflow)
    } else {
        None
    }
}

/// Buys tickets: the price of all of them moves into the escrow, the
/// event's sales and revenue grow, and the buyer's registration for this
/// event (see `Registration::new` for a first purchase) adds the tickets
/// and what was paid.
pub fn purchase_tickets(
    event: &mut Event,
    registration: &mut Registration,
    ledger: &mut Ledger,
    buyer: Address,
    ticket_count: u32,
    user_tier: UserTier,
    now: i64,
) -> (r: Result<TicketsPurchased, EventError>)
    requires
        old(ledger).wf(),
    ensures
        final(ledger).wf(),
        match purchase_error(*old(event), *old(registration), buyer, ticket_count, user_tier, now) {
            Some(e) => {
                &&& r == Err::<TicketsPurchased, EventError>(e)
                &&& *final(event) == *old(event)
                &&& *final(registration) == *old(registration)
                &&& final(ledger)@ == old(ledger)@
            },
            None => {
                let price = (old(event).ticket_price * ticket_count) as u64;
                match apply_legs(
                    old(ledger)@,
                    seq![Leg { from: buyer, to: old(event).escrow, amount: price }],
                ) {
                    Ok(m) => {
                        &&& r == Ok::<TicketsPurchased, EventError>(
                            TicketsPurchased {
                                event_id: old(event).event_id,
                                buyer,
                                ticket_count,
                                total_paid: price,
                            },
                        )
                        &&& final(ledger)@ == m
                        &&& *final(event) == (Event {
                            tickets_sold: (old(event).tickets_sold + ticket_count) as u32,
                            total_revenue: (old(event).total_revenue + price) as u64,
                            ..*old(event)
                        })
                        &&& *final(registration) == (Registration {
                            ticket_count: (old(registration).ticket_count + ticket_count) as u32,
                            total_paid: (old(registration).total_paid + price) as u64,
                            purchase_date: now,
                            ..*old(registration)
                        })
                    },
                    Err(t) => {
                        &&& r == Err::<TicketsPurchased, EventError>(EventError::TransferFailed(t))
                        &&& *final(event) == *old(event)
                        &&& *final(registration) == *old(registration)
                        &&& final(ledger)@ == old(ledger)@
                    },
                }
            },
        },
{
    if !registration.attendee.same_as(&buyer) || registration.event_id != event.event_id {
        return Err(EventError::UnauthorizedAttendee);
    }
    if !event.is_active {
        return Err(EventError::EventNotActive);
    }
    if ticket_count == 0 {
        return Err(EventError::InvalidTicketCount);
    }
    if event.tickets_sold > event.max_tickets || ticket_count > event.max_tickets
        - event.tickets_sold {
        return Err(EventError::NotEnoughTicketsAvailable);
    }
    if now >= event.event_date {
        return Err(EventError::EventAlreadyPassed);
    }
    match user_tier {
        UserTier::Basic => {
            if now < event.public_sale_time {
                return Err(EventError::BasicTierWaitPeriod);
            }
        },
        _ => {
            if now < event.premium_sale_time {
                return Err(EventError::SaleNotStarted);
            }
        },
    }
    let price = match event.ticket_price.checked_mul(ticket_count as u64) {
        Some(p) => p,
        None => {
            return Err(EventError::Overflow);
        },
    };
    if event.total_revenue > u64::MAX - price || registration.ticket_count > u32::MAX - ticket_count
        || registration.total_paid > u64::MAX - price {
        return Err(EventError::Overflow);
    }
    let legs = single_leg(buyer, event.escrow, price);
    match ledger.execute(&legs) {
        Err(t) => Err(EventError::TransferFailed(t)),
        Ok(()) => {
            event.tickets_sold = event.tickets_sold + ticket_count;
            event.total_revenue = event.total_revenue + price;
            registration.ticket_count = registration.ticket_count + ticket_count;
            registration.total_paid = registration.total_paid + price;
            registration.purchase_date = now;
            Ok(TicketsPurchased { event_id: event.event_id, buyer, ticket_count, total_paid: price })
        },
    }
}

/// Checks an attendee in, from one hour before the start on; only the
/// attendee of a registration for this event may.
pub fn check_in(registration: &mut Registration, event: &Event, caller: Address, now: i64) -> (r: Result<AttendeeCheckedIn, EventError>)
    ensures
        (caller != old(registration).attendee || old(registration).event_id != event.event_id) ==> r
            == Err::<AttendeeCheckedIn, EventError>(EventError::UnauthorizedAttendee),
        caller == old(registration).attendee && old(registration).event_id == event.event_id
            && old(registration).checked_in ==> r == Err::<AttendeeCheckedIn, EventError>(EventError::AlreadyCheckedIn),
        caller == old(registration).attendee && old(registration).event_id == event.event_id
            && !old(registration).checked_in && now < event.event_date - CHECK_IN_WINDOW_SECONDS ==> r
            == Err::<AttendeeCheckedIn, EventError>(EventError::TooEarlyToCheckIn),
        r is Err ==> *final(registration) == *old(registration),
        caller == old(registration).attendee && old(registration).event_id == event.event_id
            && !old(registration).checked_in && now >= event.event_date - CHECK_IN_WINDOW_SECONDS ==> {
            &&& r == Ok::<AttendeeCheckedIn, EventError>(
                AttendeeCheckedIn {
                    event_id: event.event_id,
                    attendee: old(registration).attendee,
                    check_in_time: now,
                },
            )
            &&& *final(registration) == (Registration {
                checked_in: true,
                check_in_time: Some(now),
                ..*old(registration)
            })
        },
{
    if !caller.same_as(&registration.attendee) || registration.event_id != event.event_id {
        return Err(EventError::UnauthorizedAttendee);
    }
    if registration.checked_in {
        return Err(EventError::AlreadyCheckedIn);
    }
    if event.event_date >= i64::MIN + CHECK_IN_WINDOW_SECONDS && now < event.event_date
        - CHECK_IN_WINDOW_SECONDS {
        return Err(EventError::TooEarlyToCheckIn);
    }
    registration.checked_in = true;
    registration.check_in_time = Some(now);
    Ok(AttendeeCheckedIn { event_id: event.event_id, attendee: registration.attendee, check_in_time: now })
}

/// The first check that a withdrawal fails, if any.
pub open spec fn withdraw_error(event: Event, caller: Address, now: i64) -> Option<EventError> {
    if caller != event.organizer {
        Some(EventError::UnauthorizedOrganizer)
    } else if !event.is_active {
        Some(EventError::EventNotActive)
    } else if event.funds_withdrawn {
        Some(EventError::FundsAlreadyWithdrawn)
    } else if now <= event.event_date {
        Some(EventError::EventNotCompleted)
    } else if !fee_product_fits(event.total_revenue as nat, PLATFORM_FEE_BPS as nat) {
        Some(EventError::Overflow)
    } else {
        None
    }
}

/// The payout of an event's revenue: the organizer's share first, then the
/// fee.
pub open spec fn withdraw_legs(event: Event, platform_fee_account: Address) -> Seq<Leg> {
    let revenue = event.total_revenue as nat;
    seq![
        Leg {
            from: event.escrow,
            to: event.organizer,
            amount: net_of(revenue, PLATFORM_FEE_BPS as nat) as u64,
        },
        Leg {
            from: event.escrow,
            to: platform_fee_account,
            amount: fee_of(revenue, PLATFORM_FEE_BPS as nat) as u64,
        },
    ]
}

/// Pays the revenue out once the event is over: the organizer receives it
/// less the fee, which goes to the platform. It can happen once.
pub fn withdraw_funds(
    event: &mut Event,
    ledger: &mut Ledger,
    caller: Address,
    platform_fee_account: Address,
    now: i64,
) -> (r: Result<FundsWithdrawn, EventError>)
    requires
        old(ledger).wf(),
    ensures
        final(ledger).wf(),
        match withdraw_error(*old(event), caller, now) {
            Some(e) => {
                &&& r == Err::<FundsWithdrawn, EventError>(e)
                &&& *final(event) == *old(event)
                &&& final(ledger)@ == old(ledger)@
            },
            None => match apply_legs(old(ledger)@, withdraw_legs(*old(event), platform_fee_account)) {
                Ok(m) => {
                    &&& r == Ok::<FundsWithdrawn, EventError>(
                        FundsWithdrawn {
                            event_id: old(event).event_id,
                            organizer_amount: net_of(
                                old(event).total_revenue as nat,
                                PLATFORM_FEE_BPS as nat,
                            ) as u64,
                            platform_fee: fee_of(
                                old(event).total_revenue as nat,
                                PLATFORM_FEE_BPS as nat,
                            ) as u64,
                        },
                    )
                    &&& final(ledger)@ == m
                    &&& *final(event) == (Event { funds_withdrawn: true, ..*old(event) })
                },
                Err(t) => {
                    &&& r == Err::<FundsWithdrawn, EventError>(EventError::TransferFailed(t))
                    &&& *final(event) == *old(event)
                    &&& final(ledger)@ == old(ledger)@
                },
            },
        },
{
    if !caller.same_as(&event.organizer) {
        return Err(EventError::UnauthorizedOrganizer);
    }
    if !event.is_active {
        return Err(EventError::EventNotActive);
    }
    if event.funds_withdrawn {
        return Err(EventError::FundsAlreadyWithdrawn);
    }
    if now <= event.event_date {
        return Err(EventError::EventNotCompleted);
    }
    let split = match fee_split(event.total_revenue, PLATFORM_FEE_BPS) {
        Ok(s) => s,
        Err(_) => {
            return Err(EventError::Overflow);
        },
    };
    let legs = leg_pair(
        Leg { from: event.escrow, to: event.organizer, amount: split.net },
        Leg { from: event.escrow, to: platform_fee_account, amount: split.fee },
    );
    match ledger.execute(&legs) {
        Err(t) => Err(EventError::TransferFailed(t)),
        Ok(()) => {
            event.funds_withdrawn = true;
            Ok(FundsWithdrawn { event_id: event.event_id, organizer_amount: split.net, platform_fee: split.fee })
        },
    }
}

/// The first check that a cancellation fails, if any.
pub open spec fn cancel_error(event: Event, caller: Address, now: i64) -> Option<EventError> {
    if caller != event.organizer {
        Some(EventError::UnauthorizedOrganizer)
    } else if !event.is_active {
        Some(EventError::EventNotActive)
    } else if now >= event.event_date {
        Some(EventError::EventAlreadyPassed)
    } else {
        None
    }
}

/// Cancels an event before it starts. Nothing moves now: each attendee
/// then reclaims what they paid with `claim_refund`.
pub fn cancel_event(event: &mut Event, caller: Address, now: i64) -> (r: Result<EventCancelled, EventError>)
    ensures
        match cancel_error(*old(event), caller, now) {
            Some(e) => r == Err::<EventCancelled, EventError>(e) && *final(event) == *old(event),
            None => {
                &&& r == Ok::<EventCancelled, EventError>(
                    EventCancelled {
                        event_id: old(event).event_id,
                        refund_total: old(event).total_revenue,
                    },
                )
                &&& *final(event) == (Event { is_active: false, ..*old(event) })
            },
        },
{
    if !caller.same_as(&event.organizer) {
        return Err(EventError::UnauthorizedOrganizer);
    }
    if !event.is_active {
        return Err(EventError::EventNotActive);
    }
    if now >= event.event_date {
        return Err(EventError::EventAlreadyPassed);
    }
    event.is_active = false;
    Ok(EventCancelled { event_id: event.event_id, refund_total: event.total_revenue })
}

/// The first check that a refund claim fails, if any.
pub open spec fn refund_error(event: Event, registration: Registration, caller: Address) -> Option<
    EventError,
> {
    if event.is_active {
        Some(EventError::EventNotCancelled)
    } else if caller != registration.attendee || registration.event_id != event.event_id {
        Some(EventError::UnauthorizedAttendee)
    } else if registration.refunded {
        Some(EventError::AlreadyRefunded)
    } else {
        None
    }
}

/// Refunds an attendee of a cancelled event everything their registration
/// paid, once.
pub fn claim_refund(
    event: &Event,
    registration: &mut Registration,
    ledger: &mut Ledger,
    caller: Address,
) -> (r: Result<(), EventError>)
    requires
        old(ledger).wf(),
    ensures
        final(ledger).wf(),
        match refund_error(*event, *old(registration), caller) {
            Some(e) => {
                &&& r == Err::<(), EventError>(e)
                &&& *final(registration) == *old(registration)
                &&& final(ledger)@ == old(ledger)@
            },
            None => match apply_legs(
                old(ledger)@,
                seq![Leg { from: event.escrow, to: caller, amount: old(registration).total_paid }],
            ) {
                Ok(m) => {
                    &&& r is Ok
                    &&& final(ledger)@ == m
                    &&& *final(registration) == (Registration { refunded: true, ..*old(registration) })
                },
                Err(t) => {
                    &&& r == Err::<(), EventError>(EventError::TransferFailed(t))
                    &&& *final(registration) == *old(registration)
                    &&& final(ledger)@ == old(ledger)@
                },
            },
        },
{
    if event.is_active {
        return Err(EventError::EventNotCancelled);
    }
    if !caller.same_as(&registration.attendee) || registration.event_id != event.event_id {
        return Err(EventError::UnauthorizedAttendee);
    }
    if registration.refunded {
        return Err(EventError::AlreadyRefunded);
    }
    let legs = single_leg(event.escrow, caller, registration.total_paid);
    match ledger.execute(&legs) {
        Err(t) => Err(EventError::TransferFailed(t)),
        Ok(()) => {
            registration.refunded = true;
            Ok(())
        },
    }
}

} // verus!
