//! Two-player game rooms: the first player stakes when opening the room,
//! the second matches the stake, and the winner takes the pool less a 2%
//! platform fee; the first player may cancel a room nobody joined.

use vstd::prelude::*;
use crate::address::Address;
use crate::ledger::{apply_legs, leg_pair, single_leg, Leg, Ledger, TransferError};
use crate::settlement::{fee_of, fee_product_fits, fee_split, net_of, two_party_pool};
use crate::workflow::ErrorKind;

verus! {

/// The fee taken from each pool (2%).
pub const PLATFORM_FEE_BPS: u16 = 200;

#[derive(Clone, Copy, Debug, PartialEq, Eq, Structural)]
pub enum GameType {
    CoinFlip,
    RockPaperScissors,
    DiceRoll,
    Custom,
}

#[derive(Clone, Copy, Debug, PartialEq, Eq, Structural)]
pub enum GameState {
    WaitingForPlayer2,
    InProgress,
    Completed,
    Cancelled,
}

/// One game room and the escrow that holds its stakes.
#[derive(Clone, Copy, Debug, PartialEq, Eq)]
pub struct Game {
    pub game_id: u64,
    pub player1: Address,
    pub player2: Option<Address>,
    pub wager_amount: u64,
    pub game_type: GameType,
    pub state: GameState,
    pub winner: Option<Address>,
    pub created_at: i64,
    pub escrow: Address,
}

/// Whether `who` is one of the players of the room.
pub open spec fn is_player(game: Game, who: Address) -> bool {
    who == game.player1 || game.player2 == Some(who)
}

impl Game {
    /// A second player is present exactly once the room left the waiting
    /// state without being cancelled; a winner exactly once it completed,
    /// and the winner is a player.
    pub open spec fn wf(&self) -> bool {
        &&& (self.state == GameState::WaitingForPlayer2 || self.state == GameState::Cancelled)
            <==> self.player2 is None
        &&& self.winner is Some <==> self.state == GameState::Completed
        &&& self.winner matches Some(w) ==> is_player(*self, w)
    }
}

#[derive(Clone, Copy, Debug, PartialEq, Eq)]
pub enum GameError {
    InvalidWagerAmount,
    GameNotOpen,
    CannotPlayAgainstSelf,
    GameNotInProgress,
    InvalidWinner,
    UnauthorizedCaller,
    CannotCancelActiveGame,
    Overflow,
    TransferFailed(TransferError),
}

pub open spec fn error_kind(e: GameError) -> ErrorKind {
    match e {
        GameError::InvalidWagerAmount => ErrorKind::Validation,
        GameError::GameNotOpen => ErrorKind::StateConflict,
        GameError::CannotPlayAgainstSelf => ErrorKind::Authorization,
        GameError::GameNotInProgress => ErrorKind::StateConflict,
        GameError::InvalidWinner => ErrorKind::Validation,
        GameError::UnauthorizedCaller => ErrorKind::Authorization,
        GameError::CannotCancelActiveGame => ErrorKind::StateConflict,
        GameError::Overflow => ErrorKind::Arithmetic,
        GameError::TransferFailed(_) => ErrorKind::TransferFailure,
    }
}

impl GameError {
    pub fn kind(&self) -> (r: ErrorKind)
        ensures
            r == error_kind(*self),
    {
        match self {
            GameError::InvalidWagerAmount => ErrorKind::Validation,
            GameError::GameNotOpen => ErrorKind::StateConflict,
            GameError::CannotPlayAgainstSelf => ErrorKind::Authorization,
            GameError::GameNotInProgress => ErrorKind::StateConflict,
            GameError::InvalidWinner => ErrorKind::Validation,
            GameError::UnauthorizedCaller => ErrorKind::Authorization,
            GameError::CannotCancelActiveGame => ErrorKind::StateConflict,
            GameError::Overflow => ErrorKind::Arithmetic,
            GameError::TransferFailed(_) => ErrorKind::TransferFailure,
        }
    }
}

/// Record of a new room.
#[derive(Clone, Copy, Debug, PartialEq, Eq)]
pub struct GameCreated {
    pub game_id: u64,
    pub player1: Address,
    pub wager_amount: u64,
    pub game_type: GameType,
}

/// Record of the second player joining.
#[derive(Clone, Copy, Debug, PartialEq, Eq)]
pub struct PlayerJoined {
    pub game_id: u64,
    pub player2: Address,
}

/// Record of a payout.
#[derive(Clone, Copy, Debug, PartialEq, Eq)]
pub struct GameCompleted {
    pub game_id: u64,
    pub winner: Address,
    pub winner_amount: u64,
    pub platform_fee: u64,
}

/// Record of a cancelled room.
#[derive(Clone, Copy, Debug, PartialEq, Eq)]
pub struct GameCancelled {
    pub game_id: u64,
}

/// Opens a room: the first player's stake moves into the escrow.
pub fn initialize_game(
    ledger: &mut Ledger,
    player1: Address,
    escrow: Address,
    game_id: u64,
    wager_amount: u64,
    game_type: GameType,
    now: i64,
) -> (r: Result<(Game, GameCreated), GameError>)
    requires
        old(ledger).wf(),
    ensures
        final(ledger).wf(),
        wager_amount == 0 ==> {
            &&& r == Err::<(Game, GameCreated), GameError>(GameError::InvalidWagerAmount)
            &&& final(ledger)@ == old(ledger)@
        },
        wager_amount > 0 ==> match apply_legs(
            old(ledger)@,
            seq![Leg { from: player1, to: escrow, amount: wager_amount }],
        ) {
            Ok(m) => {
                &&& final(ledger)@ == m
                &&& r == Ok::<(Game, GameCreated), GameError>(
                    (Game {
                        game_id,
                        player1,
                        player2: None,
                        wager_amount,
                        game_type,
                        state: GameState::WaitingForPlayer2,
                        winner: None,
                        created_at: now,
                        escrow,
                    }, GameCreated { game_id, player1, wager_amount, game_type }),
                )
            },
            Err(t) => {
                &&& r == Err::<(Game, GameCreated), GameError>(GameError::TransferFailed(t))
                &&& final(ledger)@ == old(ledger)@
            },
        },
        r matches Ok(created) ==> created.0.wf(),
{
    if wager_amount == 0 {
        return Err(GameError::InvalidWagerAmount);
    }
    let legs = single_leg(player1, escrow, wager_amount);
    match ledger.execute(&legs) {
        Err(t) => Err(GameError::TransferFailed(t)),
        Ok(()) => Ok(
            (Game {
                game_id,
                player1,
                player2: None,
                wager_amount,
                game_type,
                state: GameState::WaitingForPlayer2,
                winner: None,
                created_at: now,
                escrow,
            }, GameCreated { game_id, player1, wager_amount, game_type }),
        ),
    }
}

/// The first check that a join fails, if any.
pub open spec fn join_error(game: Game, player2: Address) -> Option<GameError> {
    if game.state != GameState::WaitingForPlayer2 {
        Some(GameError::GameNotOpen)
    } else if game.player1 == player2 {
        Some(GameError::CannotPlayAgainstSelf)
    } else {
        None
    }
}

/// Joins a waiting room: the second player's stake, equal to the first's,
/// moves into the escrow and the game starts.
pub fn join_game(game: &mut Game, ledger: &mut Ledger, player2: Address) -> (r: Result<PlayerJoined, GameError>)
    requires
        old(ledger).wf(),
        old(game).wf(),
    ensures
        final(ledger).wf(),
        final(game).wf(),
        match join_error(*old(game), player2) {
            Some(e) => {
                &&& r == Err::<PlayerJoined, GameError>(e)
                &&& *final(game) == *old(game)
                &&& final(ledger)@ == old(ledger)@
            },
            None => match apply_legs(
                old(ledger)@,
                seq![Leg { from: player2, to: old(game).escrow, amount: old(game).wager_amount }],
            ) {
                Ok(m) => {
                    &&& r == Ok::<PlayerJoined, GameError>(PlayerJoined { game_id: old(game).game_id, player2 })
                    &&& final(ledger)@ == m
                    &&& *final(game) == (Game {
                        player2: Some(player2),
                        state: GameState::InProgress,
                        ..*old(game)
                    })
                },
                Err(t) => {
                    &&& r == Err::<PlayerJoined, GameError>(GameError::TransferFailed(t))
                    &&& *final(game) == *old(game)
                    &&& final(ledger)@ == old(ledger)@
                },
            },
        },
{
    if game.state != GameState::WaitingForPlayer2 {
        return Err(GameError::GameNotOpen);
    }
    if game.player1.same_as(&player2) {
        return Err(GameError::CannotPlayAgainstSelf);
    }
    let legs = single_leg(player2, game.escrow, game.wager_amount);
    match ledger.execute(&legs) {
        Err(t) => Err(GameError::TransferFailed(t)),
        Ok(()) => {
            game.player2 = Some(player2);
            game.state = GameState::InProgress;
            Ok(PlayerJoined { game_id: game.game_id, player2 })
        },
    }
}

fn is_player_exec(game: &Game, who: &Address) -> (r: bool)
    ensures
        r == is_player(*game, *who),
{
    if who.same_as(&game.player1) {
        return true;
    }
    match &game.player2 {
        Some(p) => p.same_as(who),
        None => false,
    }
}

/// The first check that a completion fails, if any. The declared winner is
/// checked first, whatever the state.
pub open spec fn complete_error(game: Game, caller: Address, winner: Address) -> Option<GameError> {
    let pool = 2 * game.wager_amount;
    if !is_player(game, winner) {
        Some(GameError::InvalidWinner)
    } else if game.state != GameState::InProgress {
        Some(GameError::GameNotInProgress)
    } else if !is_player(game, caller) {
        Some(GameError::UnauthorizedCaller)
    } else if pool > u64::MAX || !fee_product_fits(pool as nat, PLATFORM_FEE_BPS as nat) {
        Some(GameError::Overflow)
    } else {
        None
    }
}

/// The payout of a completed room: the winnings first, then the fee.
pub open spec fn payout_legs(game: Game, winner: Address, platform_fee_account: Address) -> Seq<Leg> {
    let pool = 2 * game.wager_amount;
    seq![
        Leg { from: game.escrow, to: winner, amount: net_of(pool as nat, PLATFORM_FEE_BPS as nat) as u64 },
        Leg {
            from: game.escrow,
            to: platform_fee_account,
            amount: fee_of(pool as nat, PLATFORM_FEE_BPS as nat) as u64,
        },
    ]
}

/// Resolves a running game: a player declares one of the two players the
/// winner, who receives the pool less the fee.
pub fn complete_game(
    game: &mut Game,
    ledger: &mut Ledger,
    caller: Address,
    winner: Address,
    platform_fee_account: Address,
) -> (r: Result<GameCompleted, GameError>)
    requires
        old(ledger).wf(),
        old(game).wf(),
    ensures
        final(ledger).wf(),
        final(game).wf(),
        match complete_error(*old(game), caller, winner) {
            Some(e) => {
                &&& r == Err::<GameCompleted, GameError>(e)
                &&& *final(game) == *old(game)
                &&& final(ledger)@ == old(ledger)@
            },
            None => match apply_legs(old(ledger)@, payout_legs(*old(game), winner, platform_fee_account)) {
                Ok(m) => {
                    &&& r == Ok::<GameCompleted, GameError>(
                        GameCompleted {
                            game_id: old(game).game_id,
                            winner,
                            winner_amount: net_of(
                                2 * old(game).wager_amount as nat,
                                PLATFORM_FEE_BPS as nat,
                            ) as u64,
                            platform_fee: fee_of(
                                2 * old(game).wager_amount as nat,
                                PLATFORM_FEE_BPS as nat,
                            ) as u64,
                        },
                    )
                    &&& final(ledger)@ == m
                    &&& *final(game) == (Game {
                        winner: Some(winner),
                        state: GameState::Completed,
                        ..*old(game)
                    })
                },
                Err(t) => {
                    &&& r == Err::<GameCompleted, GameError>(GameError::TransferFailed(t))
                    &&& *final(game) == *old(game)
                    &&& final(ledger)@ == old(ledger)@
                },
            },
        },
{
    if !is_player_exec(game, &winner) {
        return Err(GameError::InvalidWinner);
    }
    if game.state != GameState::InProgress {
        return Err(GameError::GameNotInProgress);
    }
    if !is_player_exec(game, &caller) {
        return Err(GameError::UnauthorizedCaller);
    }
    let pool = match two_party_pool(game.wager_amount) {
        Ok(p) => p,
        Err(_) => {
            return Err(GameError::Overflow);
        },
    };
    let split = match fee_split(pool, PLATFORM_FEE_BPS) {
        Ok(s) => s,
        Err(_) => {
            return Err(GameError::Overflow);
        },
    };
    let legs = leg_pair(
        Leg { from: game.escrow, to: winner, amount: split.net },
        Leg { from: game.escrow, to: platform_fee_account, amount: split.fee },
    );
    match ledger.execute(&legs) {
        Err(t) => Err(GameError::TransferFailed(t)),
        Ok(()) => {
            game.winner = Some(winner);
            game.state = GameState::Completed;
            Ok(GameCompleted { game_id: game.game_id, winner, winner_amount: split.net, platform_fee: split.fee })
        },
    }
}

/// The first check that a cancellation fails, if any.
pub open spec fn cancel_error(game: Game, caller: Address) -> Option<GameError> {
    if game.state != GameState::WaitingForPlayer2 {
        Some(GameError::CannotCancelActiveGame)
    } else if caller != game.player1 {
        Some(GameError::UnauthorizedCaller)
    } else {
        None
    }
}

/// Cancels a room that nobody joined: only its first player may, and the
/// whole stake goes back to them.
pub fn cancel_game(game: &mut Game, ledger: &mut Ledger, caller: Address) -> (r: Result<GameCancelled, GameError>)
    requires
        old(ledger).wf(),
        old(game).wf(),
    ensures
        final(ledger).wf(),
        final(game).wf(),
        match cancel_error(*old(game), caller) {
            Some(e) => {
                &&& r == Err::<GameCancelled, GameError>(e)
                &&& *final(game) == *old(game)
                &&& final(ledger)@ == old(ledger)@
            },
            None => match apply_legs(
                old(ledger)@,
                seq![Leg { from: old(game).escrow, to: old(game).player1, amount: old(game).wager_amount }],
            ) {
                Ok(m) => {
                    &&& r == Ok::<GameCancelled, GameError>(GameCancelled { game_id: old(game).game_id })
                    &&& final(ledger)@ == m
                    &&& *final(game) == (Game { state: GameState::Cancelled, ..*old(game) })
                },
                Err(t) => {
                    &&& r == Err::<GameCancelled, GameError>(GameError::TransferFailed(t))
                    &&& *final(game) == *old(game)
                    &&& final(ledger)@ == old(ledger)@
                },
            },
        },
{
    if game.state != GameState::WaitingForPlayer2 {
        return Err(GameError::CannotCancelActiveGame);
    }
    if !caller.same_as(&game.player1) {
        return Err(GameError::UnauthorizedCaller);
    }
    let legs = single_leg(game.escrow, game.player1, game.wager_amount);
    match ledger.execute(&legs) {
        Err(t) => Err(GameError::TransferFailed(t)),
        Ok(()) => {
            game.state = GameState::Cancelled;
            Ok(GameCancelled { game_id: game.game_id })
        },
    }
}

/// A room starts only through a join on a waiting room, which adds one
/// stake equal to the first player's; once it has left the waiting state,
/// every further join is refused as a state conflict.
pub proof fn lemma_join_only_when_waiting(game: Game, player2: Address)
    ensures
        join_error(game, player2) is None ==> game.state == GameState::WaitingForPlayer2
            && player2 != game.player1,
        game.state != GameState::WaitingForPlayer2 ==> join_error(game, player2) == Some(
            GameError::GameNotOpen,
        ),
        error_kind(GameError::GameNotOpen) == ErrorKind::StateConflict,
{
}

/// Joining one's own waiting room is refused as an authorization failure.
pub proof fn lemma_self_join_refused(game: Game)
    requires
        game.state == GameState::WaitingForPlayer2,
    ensures
        join_error(game, game.player1) == Some(GameError::CannotPlayAgainstSelf),
        error_kind(GameError::CannotPlayAgainstSelf) == ErrorKind::Authorization,
{
}

/// Declaring a winner who is not a player is refused as a validation
/// failure, whatever the state and the caller.
pub proof fn lemma_outsider_winner_refused(game: Game, caller: Address, winner: Address)
    requires
        !is_player(game, winner),
    ensures
        complete_error(game, caller, winner) == Some(GameError::InvalidWinner),
        error_kind(GameError::InvalidWinner) == ErrorKind::Validation,
{
}

/// A completed or cancelled room accepts no further transition: a join, a
/// cancellation, or a completion naming one of its players are refused as
/// state conflicts, so no second payout or refund can happen.
pub proof fn lemma_terminal_rooms_are_final(game: Game, caller: Address, who: Address)
    requires
        game.state == GameState::Completed || game.state == GameState::Cancelled,
    ensures
        join_error(game, who) == Some(GameError::GameNotOpen),
        cancel_error(game, caller) == Some(GameError::CannotCancelActiveGame),
        is_player(game, who) ==> complete_error(game, caller, who) == Some(
            GameError::GameNotInProgress,
        ),
        error_kind(GameError::GameNotOpen) == ErrorKind::StateConflict,
        error_kind(GameError::CannotCancelActiveGame) == ErrorKind::StateConflict,
        error_kind(GameError::GameNotInProgress) == ErrorKind::StateConflict,
{
}

} // verus!
