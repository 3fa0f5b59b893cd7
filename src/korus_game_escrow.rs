//! Two-party wagers held in a derived escrow account: the creator stakes,
//! an opponent matches the stake, a resolver declares the winner, who takes
//! the pool less the platform fee; an unjoined wager can be refunded once it
//! has expired.

use vstd::prelude::*;
use crate::address::Address;
use crate::ledger::{apply_leg, apply_legs, leg_pair, single_leg, Leg, Ledger, TransferError};
use crate::settlement::{
    fee_of, fee_product_fits, fee_split, lemma_fee_within_pool, net_of, two_party_pool, MAX_FEE_BPS,
};
use crate::workflow::{byte_len, text_len, ErrorKind};

verus! {

/// The fee taken from each pool (2.5%).
pub const PLATFORM_FEE_BPS: u16 = 250;

/// The smallest stake (0.1 SOL in lamports).
pub const MINIMUM_WAGER: u64 = 100_000_000;

/// The largest stake (10 SOL in lamports).
pub const MAXIMUM_WAGER: u64 = 10_000_000_000;

/// How long an unjoined wager stays open (24 hours).
pub const GAME_EXPIRY_SECONDS: i64 = 86400;

/// The longest game description, in bytes.
pub const MAX_GAME_DATA_LEN: usize = 256;

/// Platform configuration and running totals.
#[derive(Clone, Copy, Debug, PartialEq, Eq)]
pub struct State {
    pub authority: Address,
    pub treasury: Address,
    pub total_games: u64,
    pub total_volume: u64,
    pub platform_fee_bps: u16,
}

impl State {
    /// The fee rate stays under the ceiling.
    pub open spec fn wf(&self) -> bool {
        self.platform_fee_bps <= MAX_FEE_BPS
    }
}

#[derive(Clone, Copy, Debug, PartialEq, Eq, Structural)]
pub enum GameType {
    GuessTheWord,
    TruthOrDare,
}

#[derive(Clone, Copy, Debug, PartialEq, Eq, Structural)]
pub enum GameStatus {
    Open,
    Active,
    Completed,
    Disputed,
    Expired,
}

/// One wager.
#[derive(Debug)]
pub struct Game {
    pub id: u64,
    pub game_type: GameType,
    pub creator: Address,
    pub opponent: Option<Address>,
    pub wager_amount: u64,
    pub status: GameStatus,
    pub winner: Option<Address>,
    pub game_data: String,
    pub created_at: i64,
    pub expires_at: i64,
    pub escrow: Address,
}

impl Game {
    /// Status, opponent and winner agree: an opponent is present exactly
    /// while the wager is past open and was not expired, and a winner is
    /// declared exactly when it completed, and is one of the participants.
    pub open spec fn wf(&self) -> bool {
        &&& (self.status == GameStatus::Open || self.status == GameStatus::Expired)
            <==> self.opponent is None
        &&& self.winner is Some <==> self.status == GameStatus::Completed
        &&& self.winner matches Some(w) ==> is_participant(*self, w)
    }
}

#[derive(Clone, Copy, Debug, PartialEq, Eq)]
pub enum ErrorCode {
    InvalidWagerAmount,
    GameDataTooLong,
    GameNotOpen,
    GameAlreadyJoined,
    CannotJoinOwnGame,
    GameExpired,
    GameNotActive,
    InvalidWinner,
    GameNotExpired,
    Unauthorized,
    Overflow,
    TransferFailed(TransferError),
}

pub open spec fn error_kind(e: ErrorCode) -> ErrorKind {
    match e {
        ErrorCode::InvalidWagerAmount => ErrorKind::Validation,
        ErrorCode::GameDataTooLong => ErrorKind::Validation,
        ErrorCode::GameNotOpen => ErrorKind::StateConflict,
        ErrorCode::GameAlreadyJoined => ErrorKind::StateConflict,
        ErrorCode::CannotJoinOwnGame => ErrorKind::Authorization,
        ErrorCode::GameExpired => ErrorKind::Timing,
        ErrorCode::GameNotActive => ErrorKind::StateConflict,
        ErrorCode::InvalidWinner => ErrorKind::Validation,
        ErrorCode::GameNotExpired => ErrorKind::Timing,
        ErrorCode::Unauthorized => ErrorKind::Authorization,
        ErrorCode::Overflow => ErrorKind::Arithmetic,
        ErrorCode::TransferFailed(_) => ErrorKind::TransferFailure,
    }
}

impl ErrorCode {
    pub fn kind(&self) -> (r: ErrorKind)
        ensures
            r == error_kind(*self),
    {
        match self {
            ErrorCode::InvalidWagerAmount => ErrorKind::Validation,
            ErrorCode::GameDataTooLong => ErrorKind::Validation,
            ErrorCode::GameNotOpen => ErrorKind::StateConflict,
            ErrorCode::GameAlreadyJoined => ErrorKind::StateConflict,
            ErrorCode::CannotJoinOwnGame => ErrorKind::Authorization,
            ErrorCode::GameExpired => ErrorKind::Timing,
            ErrorCode::GameNotActive => ErrorKind::StateConflict,
            ErrorCode::InvalidWinner => ErrorKind::Validation,
            ErrorCode::GameNotExpired => ErrorKind::Timing,
            ErrorCode::Unauthorized => ErrorKind::Authorization,
            ErrorCode::Overflow => ErrorKind::Arithmetic,
            ErrorCode::TransferFailed(_) => ErrorKind::TransferFailure,
        }
    }
}

/// Record of a new wager.
#[derive(Clone, Copy, Debug, PartialEq, Eq)]
pub struct GameCreated {
    pub game_id: u64,
    pub creator: Address,
    pub wager_amount: u64,
    pub game_type: GameType,
}

/// Record of an opponent joining.
#[derive(Clone, Copy, Debug, PartialEq, Eq)]
pub struct GameJoined {
    pub game_id: u64,
    pub opponent: Address,
}

/// Record of a payout.
#[derive(Clone, Copy, Debug, PartialEq, Eq)]
pub struct GameCompleted {
    pub game_id: u64,
    pub winner: Address,
    pub winner_amount: u64,
    pub platform_fee: u64,
}

/// Record of a refunded wager.
#[derive(Debug, PartialEq, Eq)]
pub struct GameCancelled {
    pub game_id: u64,
    pub reason: String,
}

/// A fresh configuration: no games yet, the default fee rate.
pub fn initialize(authority: Address, treasury: Address) -> (r: State)
    ensures
        r == (State {
            authority,
            treasury,
            total_games: 0,
            total_volume: 0,
            platform_fee_bps: PLATFORM_FEE_BPS,
        }),
        r.wf(),
{
    State { authority, treasury, total_games: 0, total_volume: 0, platform_fee_bps: PLATFORM_FEE_BPS }
}

/// The first check that a new wager fails, if any.
pub open spec fn create_error(state: State, wager_amount: u64, game_data: Seq<char>, now: i64) -> Option<
    ErrorCode,
> {
    if wager_amount < MINIMUM_WAGER || wager_amount > MAXIMUM_WAGER {
        Some(ErrorCode::InvalidWagerAmount)
    } else if text_len(game_data) > MAX_GAME_DATA_LEN {
        Some(ErrorCode::GameDataTooLong)
    } else if now + GAME_EXPIRY_SECONDS > i64::MAX || state.total_games + 1 > u64::MAX
        || state.total_volume + wager_amount > u64::MAX {
        Some(ErrorCode::Overflow)
    } else {
        None
    }
}

/// A stake moved from a participant into the escrow.
pub open spec fn stake_legs(from: Address, escrow: Address, amount: u64) -> Seq<Leg> {
    seq![Leg { from, to: escrow, amount }]
}

/// The payout of a completed wager: the fee to the treasury, the rest to
/// the winner.
pub open spec fn payout_legs(game: Game, treasury: Address, winner: Address, fee_bps: u16) -> Seq<
    Leg,
> {
    let pool = 2 * game.wager_amount;
    seq![
        Leg { from: game.escrow, to: treasury, amount: fee_of(pool as nat, fee_bps as nat) as u64 },
        Leg { from: game.escrow, to: winner, amount: net_of(pool as nat, fee_bps as nat) as u64 },
    ]
}

/// Opens a wager: the creator's stake moves into the escrow and the
/// totals grow by one game and by the stake.
pub fn create_game(
    state: &mut State,
    ledger: &mut Ledger,
    creator: Address,
    escrow: Address,
    game_type: GameType,
    wager_amount: u64,
    game_data: String,
    now: i64,
) -> (r: Result<(Game, GameCreated), ErrorCode>)
    requires
        old(ledger).wf(),
    ensures
        final(ledger).wf(),
        match create_error(*old(state), wager_amount, game_data@, now) {
            Some(e) => {
                &&& r == Err::<(Game, GameCreated), ErrorCode>(e)
                &&& *final(state) == *old(state)
                &&& final(ledger)@ == old(ledger)@
            },
            None => match apply_legs(old(ledger)@, stake_legs(creator, escrow, wager_amount)) {
                Ok(m) => {
                    &&& final(ledger)@ == m
                    &&& *final(state) == (State {
                        total_games: (old(state).total_games + 1) as u64,
                        total_volume: (old(state).total_volume + wager_amount) as u64,
                        ..*old(state)
                    })
                    &&& r matches Ok(created) && created.0.wf()
                    &&& r == Ok::<(Game, GameCreated), ErrorCode>(
                        (Game {
                            id: old(state).total_games,
                            game_type,
                            creator,
                            opponent: None,
                            wager_amount,
                            status: GameStatus::Open,
                            winner: None,
                            game_data,
                            created_at: now,
                            expires_at: (now + GAME_EXPIRY_SECONDS) as i64,
                            escrow,
                        }, GameCreated {
                            game_id: old(state).total_games,
                            creator,
                            wager_amount,
                            game_type,
                        }),
                    )
                },
                Err(t) => {
                    &&& r == Err::<(Game, GameCreated), ErrorCode>(ErrorCode::TransferFailed(t))
                    &&& *final(state) == *old(state)
                    &&& final(ledger)@ == old(ledger)@
                },
            },
        },
{
    if wager_amount < MINIMUM_WAGER || wager_amount > MAXIMUM_WAGER {
        return Err(ErrorCode::InvalidWagerAmount);
    }
    if byte_len(&game_data) > MAX_GAME_DATA_LEN {
        return Err(ErrorCode::GameDataTooLong);
    }
    if now > i64::MAX - GAME_EXPIRY_SECONDS || state.total_games == u64::MAX || state.total_volume
        > u64::MAX - wager_amount {
        return Err(ErrorCode::Overflow);
    }
    let legs = single_leg(creator, escrow, wager_amount);
    match ledger.execute(&legs) {
        Err(t) => Err(ErrorCode::TransferFailed(t)),
        Ok(()) => {
            let game = Game {
                id: state.total_games,
                game_type,
                creator,
                opponent: None,
                wager_amount,
                status: GameStatus::Open,
                winner: None,
                game_data,
                created_at: now,
                expires_at: now + GAME_EXPIRY_SECONDS,
                escrow,
            };
            let record = GameCreated { game_id: state.total_games, creator, wager_amount, game_type };
            state.total_games = state.total_games + 1;
            state.total_volume = state.total_volume + wager_amount;
            Ok((game, record))
        },
    }
}

/// Whether `who` is the creator or the opponent of the wager.
pub open spec fn is_participant(game: Game, who: Address) -> bool {
    who == game.creator || game.opponent == Some(who)
}

/// The first check that a join fails, if any.
pub open spec fn join_error(game: Game, opponent: Address, now: i64) -> Option<ErrorCode> {
    if game.status != GameStatus::Open {
        Some(ErrorCode::GameNotOpen)
    } else if game.opponent is Some {
        Some(ErrorCode::GameAlreadyJoined)
    } else if opponent == game.creator {
        Some(ErrorCode::CannotJoinOwnGame)
    } else if now >= game.expires_at {
        Some(ErrorCode::GameExpired)
    } else {
        None
    }
}

/// Joins an open wager before its deadline: the opponent's stake, equal to
/// the creator's, moves into the escrow and the wager becomes active.
pub fn join_game(
    game: &mut Game,
    ledger: &mut Ledger,
    opponent: Address,
    now: i64,
) -> (r: Result<GameJoined, ErrorCode>)
    requires
        old(ledger).wf(),
        old(game).wf(),
    ensures
        final(ledger).wf(),
        final(game).wf(),
        match join_error(*old(game), opponent, now) {
            Some(e) => {
                &&& r == Err::<GameJoined, ErrorCode>(e)
                &&& *final(game) == *old(game)
                &&& final(ledger)@ == old(ledger)@
            },
            None => match apply_legs(
                old(ledger)@,
                stake_legs(opponent, old(game).escrow, old(game).wager_amount),
            ) {
                Ok(m) => {
                    &&& r == Ok::<GameJoined, ErrorCode>(GameJoined { game_id: old(game).id, opponent })
                    &&& final(ledger)@ == m
                    &&& *final(game) == (Game {
                        opponent: Some(opponent),
                        status: GameStatus::Active,
                        ..*old(game)
                    })
                },
                Err(t) => {
                    &&& r == Err::<GameJoined, ErrorCode>(ErrorCode::TransferFailed(t))
                    &&& *final(game) == *old(game)
                    &&& final(ledger)@ == old(ledger)@
                },
            },
        },
{
    if game.status != GameStatus::Open {
        return Err(ErrorCode::GameNotOpen);
    }
    if game.opponent.is_some() {
        return Err(ErrorCode::GameAlreadyJoined);
    }
    if game.creator.same_as(&opponent) {
        return Err(ErrorCode::CannotJoinOwnGame);
    }
    if now >= game.expires_at {
        return Err(ErrorCode::GameExpired);
    }
    let legs = single_leg(opponent, game.escrow, game.wager_amount);
    match ledger.execute(&legs) {
        Err(t) => Err(ErrorCode::TransferFailed(t)),
        Ok(()) => {
            game.opponent = Some(opponent);
            game.status = GameStatus::Active;
            Ok(GameJoined { game_id: game.id, opponent })
        },
    }
}

/// The first check that a completion fails, if any. The declared winner is
/// checked first, whatever the status.
pub open spec fn complete_error(game: Game, state: State, caller: Address, winner: Address) -> Option<
    ErrorCode,
> {
    let pool = 2 * game.wager_amount;
    if !is_participant(game, winner) {
        Some(ErrorCode::InvalidWinner)
    } else if game.status != GameStatus::Active {
        Some(ErrorCode::GameNotActive)
    } else if caller != state.authority {
        Some(ErrorCode::Unauthorized)
    } else if pool > u64::MAX || !fee_product_fits(pool as nat, state.platform_fee_bps as nat) {
        Some(ErrorCode::Overflow)
    } else {
        None
    }
}

fn is_participant_exec(game: &Game, who: &Address) -> (r: bool)
    ensures
        r == is_participant(*game, *who),
{
    if who.same_as(&game.creator) {
        return true;
    }
    match &game.opponent {
        Some(o) => o.same_as(who),
        None => false,
    }
}

/// Resolves an active wager: the configured authority declares one of the
/// two participants the winner; the fee on the whole pool goes to the
/// treasury and the rest to the winner, emptying the escrow.
pub fn complete_game(
    game: &mut Game,
    state: &State,
    ledger: &mut Ledger,
    caller: Address,
    winner: Address,
) -> (r: Result<GameCompleted, ErrorCode>)
    requires
        old(ledger).wf(),
        old(game).wf(),
        state.wf(),
    ensures
        final(ledger).wf(),
        final(game).wf(),
        match complete_error(*old(game), *state, caller, winner) {
            Some(e) => {
                &&& r == Err::<GameCompleted, ErrorCode>(e)
                &&& *final(game) == *old(game)
                &&& final(ledger)@ == old(ledger)@
            },
            None => match apply_legs(
                old(ledger)@,
                payout_legs(*old(game), state.treasury, winner, state.platform_fee_bps),
            ) {
                Ok(m) => {
                    &&& r == Ok::<GameCompleted, ErrorCode>(
                        GameCompleted {
                            game_id: old(game).id,
                            winner,
                            winner_amount: net_of(
                                2 * old(game).wager_amount as nat,
                                state.platform_fee_bps as nat,
                            ) as u64,
                            platform_fee: fee_of(
                                2 * old(game).wager_amount as nat,
                                state.platform_fee_bps as nat,
                            ) as u64,
                        },
                    )
                    &&& final(ledger)@ == m
                    &&& *final(game) == (Game {
                        status: GameStatus::Completed,
                        winner: Some(winner),
                        ..*old(game)
                    })
                },
                Err(t) => {
                    &&& r == Err::<GameCompleted, ErrorCode>(ErrorCode::TransferFailed(t))
                    &&& *final(game) == *old(game)
                    &&& final(ledger)@ == old(ledger)@
                },
            },
        },
{
    if !is_participant_exec(game, &winner) {
        return Err(ErrorCode::InvalidWinner);
    }
    if game.status != GameStatus::Active {
        return Err(ErrorCode::GameNotActive);
    }
    if !caller.same_as(&state.authority) {
        return Err(ErrorCode::Unauthorized);
    }
    let pool = match two_party_pool(game.wager_amount) {
        Ok(p) => p,
        Err(_) => {
            return Err(ErrorCode::Overflow);
        },
    };
    let split = match fee_split(pool, state.platform_fee_bps) {
        Ok(s) => s,
        Err(_) => {
            return Err(ErrorCode::Overflow);
        },
    };
    let legs = leg_pair(
        Leg { from: game.escrow, to: state.treasury, amount: split.fee },
        Leg { from: game.escrow, to: winner, amount: split.net },
    );
    match ledger.execute(&legs) {
        Err(t) => Err(ErrorCode::TransferFailed(t)),
        Ok(()) => {
            game.status = GameStatus::Completed;
            game.winner = Some(winner);
            Ok(GameCompleted { game_id: game.id, winner, winner_amount: split.net, platform_fee: split.fee })
        },
    }
}

/// The first check that the refund of an expired wager fails, if any.
pub open spec fn cancel_expired_error(game: Game, now: i64) -> Option<ErrorCode> {
    if game.status != GameStatus::Open {
        Some(ErrorCode::GameNotOpen)
    } else if now < game.expires_at {
        Some(ErrorCode::GameNotExpired)
    } else {
        None
    }
}

/// The refund of the creator's whole stake.
pub open spec fn refund_legs(game: Game) -> Seq<Leg> {
    seq![Leg { from: game.escrow, to: game.creator, amount: game.wager_amount }]
}

/// Expires an open wager whose deadline has passed: the creator gets the
/// whole stake back.
pub fn cancel_expired_game(
    game: &mut Game,
    ledger: &mut Ledger,
    now: i64,
) -> (r: Result<GameCancelled, ErrorCode>)
    requires
        old(ledger).wf(),
        old(game).wf(),
    ensures
        final(ledger).wf(),
        final(game).wf(),
        match cancel_expired_error(*old(game), now) {
            Some(e) => {
                &&& r == Err::<GameCancelled, ErrorCode>(e)
                &&& *final(game) == *old(game)
                &&& final(ledger)@ == old(ledger)@
            },
            None => match apply_legs(old(ledger)@, refund_legs(*old(game))) {
                Ok(m) => {
                    &&& r matches Ok(record) && record.game_id == old(game).id && record.reason@
                        == "Expired"@
                    &&& final(ledger)@ == m
                    &&& *final(game) == (Game { status: GameStatus::Expired, ..*old(game) })
                },
                Err(t) => {
                    &&& r == Err::<GameCancelled, ErrorCode>(ErrorCode::TransferFailed(t))
                    &&& *final(game) == *old(game)
                    &&& final(ledger)@ == old(ledger)@
                },
            },
        },
{
    if game.status != GameStatus::Open {
        return Err(ErrorCode::GameNotOpen);
    }
    if now < game.expires_at {
        return Err(ErrorCode::GameNotExpired);
    }
    let legs = single_leg(game.escrow, game.creator, game.wager_amount);
    match ledger.execute(&legs) {
        Err(t) => Err(ErrorCode::TransferFailed(t)),
        Ok(()) => {
            game.status = GameStatus::Expired;
            proof {
                reveal_strlit("Expired");
            }
            Ok(GameCancelled { game_id: game.id, reason: "Expired".to_owned() })
        },
    }
}

/// A wager becomes active only through a join on an open wager that holds
/// the creator's stake alone, and the join adds exactly one more stake,
/// equal to the creator's, into the escrow.
pub proof fn lemma_join_is_second_equal_stake(game: Game, opponent: Address, now: i64)
    requires
        game.wf(),
        join_error(game, opponent, now) is None,
    ensures
        game.status == GameStatus::Open,
        game.opponent is None,
        stake_legs(opponent, game.escrow, game.wager_amount).len() == 1,
        stake_legs(opponent, game.escrow, game.wager_amount)[0] == (Leg {
            from: opponent,
            to: game.escrow,
            amount: game.wager_amount,
        }),
{
}

/// The creator's deposit and the opponent's deposit are the two stakes an
/// active wager holds: starting from an empty escrow, the two legs leave
/// exactly twice the stake in it.
pub proof fn lemma_two_stakes_fill_escrow(
    m: Map<Address, u64>,
    creator: Address,
    opponent: Address,
    escrow: Address,
    wager_amount: u64,
)
    requires
        creator != escrow,
        opponent != escrow,
        m.contains_key(escrow),
        m[escrow] == 0,
        apply_legs(m, stake_legs(creator, escrow, wager_amount)) is Ok,
        apply_legs(
            apply_legs(m, stake_legs(creator, escrow, wager_amount))->Ok_0,
            stake_legs(opponent, escrow, wager_amount),
        ) is Ok,
    ensures
        apply_legs(
            apply_legs(m, stake_legs(creator, escrow, wager_amount))->Ok_0,
            stake_legs(opponent, escrow, wager_amount),
        )->Ok_0[escrow] == 2 * wager_amount,
{
    let first = stake_legs(creator, escrow, wager_amount);
    let second = stake_legs(opponent, escrow, wager_amount);
    assert(first.drop_first() =~= Seq::<Leg>::empty());
    assert(second.drop_first() =~= Seq::<Leg>::empty());
    let after_first = apply_leg(m, first[0])->Ok_0;
    assert(apply_legs(m, first) == apply_legs(after_first, first.drop_first()));
    assert(apply_legs(after_first, second) == apply_legs(
        apply_leg(after_first, second[0])->Ok_0,
        second.drop_first(),
    ));
}

/// Once a wager has left the open state, every further join is refused as
/// a state conflict, whoever asks and whenever.
pub proof fn lemma_join_after_open_conflicts(game: Game, joiner: Address, now: i64)
    requires
        game.status != GameStatus::Open,
    ensures
        join_error(game, joiner, now) == Some(ErrorCode::GameNotOpen),
        error_kind(ErrorCode::GameNotOpen) == ErrorKind::StateConflict,
{
}

/// Joining one's own open wager is refused as an authorization failure.
pub proof fn lemma_self_join_refused(game: Game, now: i64)
    requires
        game.wf(),
        game.status == GameStatus::Open,
    ensures
        join_error(game, game.creator, now) == Some(ErrorCode::CannotJoinOwnGame),
        error_kind(ErrorCode::CannotJoinOwnGame) == ErrorKind::Authorization,
{
}

/// Declaring a winner who is not a participant is refused as a validation
/// failure, whatever the status, the caller and the configuration.
pub proof fn lemma_outsider_winner_refused(game: Game, state: State, caller: Address, winner: Address)
    requires
        !is_participant(game, winner),
    ensures
        complete_error(game, state, caller, winner) == Some(ErrorCode::InvalidWinner),
        error_kind(ErrorCode::InvalidWinner) == ErrorKind::Validation,
{
}

/// An open wager past its deadline can be expired, and the refund is the
/// creator's whole stake and nothing else; it can no longer be joined.
pub proof fn lemma_expiry_refunds_creator(game: Game, joiner: Address, now: i64)
    requires
        game.wf(),
        game.status == GameStatus::Open,
        now >= game.expires_at,
    ensures
        cancel_expired_error(game, now) is None,
        refund_legs(game) == seq![
            Leg { from: game.escrow, to: game.creator, amount: game.wager_amount },
        ],
        join_error(game, joiner, now) is Some,
{
}

/// Carried out on an escrow that holds the creator's stake alone, the
/// refund of an expired wager returns exactly that stake to the creator and
/// leaves the escrow empty.
pub proof fn lemma_refund_returns_the_stake(game: Game, m: Map<Address, u64>)
    requires
        game.creator != game.escrow,
        m.contains_key(game.escrow),
        m[game.escrow] == game.wager_amount,
        apply_legs(m, refund_legs(game)) is Ok,
    ensures
        apply_legs(m, refund_legs(game))->Ok_0[game.escrow] == 0,
        apply_legs(m, refund_legs(game))->Ok_0[game.creator] == m[game.creator] + game.wager_amount,
{
    let legs = refund_legs(game);
    assert(legs.drop_first() =~= Seq::<Leg>::empty());
    assert(apply_legs(m, legs) == apply_legs(apply_leg(m, legs[0])->Ok_0, legs.drop_first()));
}

/// An expired wager accepts no further transition: a join, a second
/// expiry, or a completion naming one of its participants are all refused
/// as state conflicts.
pub proof fn lemma_expired_is_final(
    game: Game,
    state: State,
    caller: Address,
    who: Address,
    now: i64,
)
    requires
        game.status == GameStatus::Expired,
    ensures
        join_error(game, who, now) == Some(ErrorCode::GameNotOpen),
        cancel_expired_error(game, now) == Some(ErrorCode::GameNotOpen),
        is_participant(game, who) ==> complete_error(game, state, caller, who) == Some(
            ErrorCode::GameNotActive,
        ),
        error_kind(ErrorCode::GameNotOpen) == ErrorKind::StateConflict,
        error_kind(ErrorCode::GameNotActive) == ErrorKind::StateConflict,
{
}

/// Completing a wager again is refused as a state conflict, for the same
/// or the other participant, so no second payout can happen.
pub proof fn lemma_complete_twice_conflicts(game: Game, state: State, caller: Address, winner: Address)
    requires
        game.status == GameStatus::Completed,
        is_participant(game, winner),
    ensures
        complete_error(game, state, caller, winner) == Some(ErrorCode::GameNotActive),
        error_kind(ErrorCode::GameNotActive) == ErrorKind::StateConflict,
{
}

/// The payout of a completed wager empties an escrow that holds both
/// stakes: the treasury gains the fee, the winner the rest.
pub proof fn lemma_payout_empties_escrow(game: Game, state: State, winner: Address, m: Map<Address, u64>)
    requires
        state.wf(),
        2 * game.wager_amount <= u64::MAX,
        m.contains_key(game.escrow),
        m[game.escrow] == 2 * game.wager_amount,
        state.treasury != game.escrow,
        winner != game.escrow,
        winner != state.treasury,
        apply_legs(m, payout_legs(game, state.treasury, winner, state.platform_fee_bps)) is Ok,
    ensures
        ({
            let after = apply_legs(m, payout_legs(game, state.treasury, winner, state.platform_fee_bps))->Ok_0;
            let pool = 2 * game.wager_amount;
            &&& after[game.escrow] == 0
            &&& after[state.treasury] == m[state.treasury] + fee_of(pool as nat, state.platform_fee_bps as nat)
            &&& after[winner] == m[winner] + net_of(pool as nat, state.platform_fee_bps as nat)
        }),
{
    let pool = 2 * game.wager_amount;
    lemma_fee_within_pool(pool as nat, state.platform_fee_bps as nat);
    let legs = payout_legs(game, state.treasury, winner, state.platform_fee_bps);
    let first = apply_leg(m, legs[0])->Ok_0;
    assert(legs.drop_first().drop_first() =~= Seq::<Leg>::empty());
    assert(apply_legs(first, legs.drop_first()) == apply_legs(
        apply_leg(first, legs.drop_first()[0])->Ok_0,
        legs.drop_first().drop_first(),
    ));
}

} // verus!
