//! Peer tipping: a tip moves straight from the sender to the recipient,
//! less a platform fee that goes to the treasury.

use vstd::prelude::*;
use crate::address::Address;
use crate::ledger::{apply_legs, leg_pair, Leg, Ledger, TransferError};
use crate::settlement::{fee_of, fee_product_fits, fee_split, net_of, MAX_FEE_BPS};
use crate::workflow::{byte_len, text_len, ErrorKind};

verus! {

/// The fee taken from each tip (1%).
pub const PLATFORM_FEE_BPS: u16 = 100;

/// The smallest tip (0.001 SOL in lamports).
pub const MINIMUM_TIP: u64 = 1_000_000;

/// The longest post identifier, in bytes.
pub const MAX_POST_ID_LEN: usize = 64;

/// Platform configuration and running totals.
#[derive(Clone, Copy, Debug, PartialEq, Eq)]
pub struct State {
    pub authority: Address,
    pub treasury: Address,
    pub total_tips: u64,
    pub total_volume: u64,
    pub platform_fee_bps: u16,
}

impl State {
    /// The fee rate stays under the ceiling.
    pub open spec fn wf(&self) -> bool {
        self.platform_fee_bps <= MAX_FEE_BPS
    }
}

/// The record of one tip.
#[derive(Debug)]
pub struct TipRecord {
    pub sender: Address,
    pub recipient: Address,
    pub amount: u64,
    pub post_id: String,
    pub timestamp: i64,
}

/// Per-user tipping totals.
#[derive(Clone, Copy, Debug, PartialEq, Eq, Default)]
pub struct UserStats {
    pub tips_sent: u64,
    pub tips_received: u64,
    pub total_sent: u64,
    pub total_received: u64,
}

#[derive(Clone, Copy, Debug, PartialEq, Eq)]
pub enum ErrorCode {
    TipTooSmall,
    PostIdTooLong,
    CannotTipSelf,
    FeeTooHigh,
    Unauthorized,
    Overflow,
    TransferFailed(TransferError),
}

pub open spec fn error_kind(e: ErrorCode) -> ErrorKind {
    match e {
        ErrorCode::TipTooSmall => ErrorKind::Validation,
        ErrorCode::PostIdTooLong => ErrorKind::Validation,
        ErrorCode::CannotTipSelf => ErrorKind::Authorization,
        ErrorCode::FeeTooHigh => ErrorKind::Validation,
        ErrorCode::Unauthorized => ErrorKind::Authorization,
        ErrorCode::Overflow => ErrorKind::Arithmetic,
        ErrorCode::TransferFailed(_) => ErrorKind::TransferFailure,
    }
}

impl ErrorCode {
    pub fn kind(&self) -> (r: ErrorKind)
        ensures
            r == error_kind(*self),
    {
        match self {
            ErrorCode::TipTooSmall => ErrorKind::Validation,
            ErrorCode::PostIdTooLong => ErrorKind::Validation,
            ErrorCode::CannotTipSelf => ErrorKind::Authorization,
            ErrorCode::FeeTooHigh => ErrorKind::Validation,
            ErrorCode::Unauthorized => ErrorKind::Authorization,
            ErrorCode::Overflow => ErrorKind::Arithmetic,
            ErrorCode::TransferFailed(_) => ErrorKind::TransferFailure,
        }
    }
}

/// Record of a tip, with how it was divided.
#[derive(Debug, PartialEq, Eq)]
pub struct TipSent {
    pub sender: Address,
    pub recipient: Address,
    pub amount: u64,
    pub recipient_amount: u64,
    pub platform_fee: u64,
    pub post_id: String,
}

/// Record of a fee-rate change.
#[derive(Clone, Copy, Debug, PartialEq, Eq)]
pub struct PlatformFeeUpdated {
    pub old_fee: u16,
    pub new_fee: u16,
}

/// A fresh configuration: no tips yet, the default fee rate.
pub fn initialize(authority: Address, treasury: Address) -> (r: State)
    ensures
        r == (State {
            authority,
            treasury,
            total_tips: 0,
            total_volume: 0,
            platform_fee_bps: PLATFORM_FEE_BPS,
        }),
        r.wf(),
{
    State { authority, treasury, total_tips: 0, total_volume: 0, platform_fee_bps: PLATFORM_FEE_BPS }
}

/// The first check that a tip fails, if any.
pub open spec fn tip_error(
    state: State,
    sender_stats: UserStats,
    recipient_stats: UserStats,
    sender: Address,
    recipient: Address,
    amount: u64,
    post_id: Seq<char>,
) -> Option<ErrorCode> {
    let net = net_of(amount as nat, state.platform_fee_bps as nat);
    if amount < MINIMUM_TIP {
        Some(ErrorCode::TipTooSmall)
    } else if text_len(post_id) > MAX_POST_ID_LEN {
        Some(ErrorCode::PostIdTooLong)
    } else if sender == recipient {
        Some(ErrorCode::CannotTipSelf)
    } else if !fee_product_fits(amount as nat, state.platform_fee_bps as nat) || state.total_tips
        + 1 > u64::MAX || state.total_volume + amount > u64::MAX || sender_stats.tips_sent + 1
        > u64::MAX || sender_stats.total_sent + amount > u64::MAX || recipient_stats.tips_received
        + 1 > u64::MAX || recipient_stats.total_received + net > u64::MAX {
        Some(ErrorCode::Overflow)
    } else {
        None
    }
}

/// The two legs of a tip: the fee to the treasury, the rest to the
/// recipient, both from the sender.
pub open spec fn tip_legs(state: State, sender: Address, recipient: Address, amount: u64) -> Seq<Leg> {
    seq![
        Leg {
            from: sender,
            to: state.treasury,
            amount: fee_of(amount as nat, state.platform_fee_bps as nat) as u64,
        },
        Leg {
            from: sender,
            to: recipient,
            amount: net_of(amount as nat, state.platform_fee_bps as nat) as u64,
        },
    ]
}

/// Sends a tip: the fee goes to the treasury and the rest to the
/// recipient; the totals and both users' statistics grow accordingly.
pub fn send_tip(
    state: &mut State,
    sender_stats: &mut UserStats,
    recipient_stats: &mut UserStats,
    ledger: &mut Ledger,
    sender: Address,
    recipient: Address,
    amount: u64,
    post_id: String,
    now: i64,
) -> (r: Result<(TipRecord, TipSent), ErrorCode>)
    requires
        old(ledger).wf(),
        old(state).wf(),
    ensures
        final(ledger).wf(),
        final(state).wf(),
        match tip_error(
            *old(state),
            *old(sender_stats),
            *old(recipient_stats),
            sender,
            recipient,
            amount,
            post_id@,
        ) {
            Some(e) => {
                &&& r matches Err(x) && x == e
                &&& *final(state) == *old(state)
                &&& *final(sender_stats) == *old(sender_stats)
                &&& *final(recipient_stats) == *old(recipient_stats)
                &&& final(ledger)@ == old(ledger)@
            },
            None => match apply_legs(old(ledger)@, tip_legs(*old(state), sender, recipient, amount)) {
                Ok(m) => {
                    let net = net_of(amount as nat, old(state).platform_fee_bps as nat);
                    &&& final(ledger)@ == m
                    &&& *final(state) == (State {
                        total_tips: (old(state).total_tips + 1) as u64,
                        total_volume: (old(state).total_volume + amount) as u64,
                        ..*old(state)
                    })
                    &&& *final(sender_stats) == (UserStats {
                        tips_sent: (old(sender_stats).tips_sent + 1) as u64,
                        total_sent: (old(sender_stats).total_sent + amount) as u64,
                        ..*old(sender_stats)
                    })
                    &&& *final(recipient_stats) == (UserStats {
                        tips_received: (old(recipient_stats).tips_received + 1) as u64,
                        total_received: (old(recipient_stats).total_received + net) as u64,
                        ..*old(recipient_stats)
                    })
                    &&& r matches Ok(sent) && sent.0 == (TipRecord {
                        sender,
                        recipient,
                        amount,
                        post_id,
                        timestamp: now,
                    }) && sent.1 == (TipSent {
                        sender,
                        recipient,
                        amount,
                        recipient_amount: net as u64,
                        platform_fee: fee_of(amount as nat, old(state).platform_fee_bps as nat) as u64,
                        post_id,
                    })
                },
                Err(t) => {
                    &&& r matches Err(x) && x == ErrorCode::TransferFailed(t)
                    &&& *final(state) == *old(state)
                    &&& *final(sender_stats) == *old(sender_stats)
                    &&& *final(recipient_stats) == *old(recipient_stats)
                    &&& final(ledger)@ == old(ledger)@
                },
            },
        },
{
    if amount < MINIMUM_TIP {
        return Err(ErrorCode::TipTooSmall);
    }
    if byte_len(&post_id) > MAX_POST_ID_LEN {
        return Err(ErrorCode::PostIdTooLong);
    }
    if sender.same_as(&recipient) {
        return Err(ErrorCode::CannotTipSelf);
    }
    let split = match fee_split(amount, state.platform_fee_bps) {
        Ok(s) => s,
        Err(_) => {
            return Err(ErrorCode::Overflow);
        },
    };
    if state.total_tips == u64::MAX || state.total_volume > u64::MAX - amount
        || sender_stats.tips_sent == u64::MAX || sender_stats.total_sent > u64::MAX - amount
        || recipient_stats.tips_received == u64::MAX || recipient_stats.total_received > u64::MAX
        - split.net {
        return Err(ErrorCode::Overflow);
    }
    let legs = leg_pair(
        Leg { from: sender, to: state.treasury, amount: split.fee },
        Leg { from: sender, to: recipient, amount: split.net },
    );
    match ledger.execute(&legs) {
        Err(t) => Err(ErrorCode::TransferFailed(t)),
        Ok(()) => {
            state.total_tips = state.total_tips + 1;
            state.total_volume = state.total_volume + amount;
            sender_stats.tips_sent = sender_stats.tips_sent + 1;
            sender_stats.total_sent = sender_stats.total_sent + amount;
            recipient_stats.tips_received = recipient_stats.tips_received + 1;
            recipient_stats.total_received = recipient_stats.total_received + split.net;
            let record = TipSent {
                sender,
                recipient,
                amount,
                recipient_amount: split.net,
                platform_fee: split.fee,
                post_id: post_id.clone(),
            };
            Ok((TipRecord { sender, recipient, amount, post_id, timestamp: now }, record))
        },
    }
}

/// Changes the fee rate. Only the configured authority may, and never past
/// the ceiling.
pub fn update_platform_fee(
    state: &mut State,
    caller: Address,
    new_fee_bps: u16,
) -> (r: Result<PlatformFeeUpdated, ErrorCode>)
    requires
        old(state).wf(),
    ensures
        final(state).wf(),
        caller != old(state).authority ==> r == Err::<PlatformFeeUpdated, ErrorCode>(ErrorCode::Unauthorized),
        caller == old(state).authority && new_fee_bps > MAX_FEE_BPS ==> r == Err::<PlatformFeeUpdated, ErrorCode>(
            ErrorCode::FeeTooHigh,
        ),
        r is Err ==> *final(state) == *old(state),
        caller == old(state).authority && new_fee_bps <= MAX_FEE_BPS ==> {
            &&& r == Ok::<PlatformFeeUpdated, ErrorCode>(
                PlatformFeeUpdated { old_fee: old(state).platform_fee_bps, new_fee: new_fee_bps },
            )
            &&& *final(state) == (State { platform_fee_bps: new_fee_bps, ..*old(state) })
        },
{
    if !caller.same_as(&state.authority) {
        return Err(ErrorCode::Unauthorized);
    }
    if new_fee_bps > MAX_FEE_BPS {
        return Err(ErrorCode::FeeTooHigh);
    }
    let old_fee = state.platform_fee_bps;
    state.platform_fee_bps = new_fee_bps;
    Ok(PlatformFeeUpdated { old_fee, new_fee: new_fee_bps })
}

} // verus!
