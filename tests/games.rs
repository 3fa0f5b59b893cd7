use korus::address::Address;
use korus::korus_games::{
    GameCancelled, GameCompleted, PlayerJoined,
    cancel_game, complete_game, initialize_game, join_game, Game, GameError, GameState, GameType,
};
use korus::ledger::Ledger;
use korus::workflow::ErrorKind;

const P1: u8 = 1;
const P2: u8 = 2;
const ESCROW: u8 = 3;
const FEES: u8 = 4;
const OTHER: u8 = 5;

fn addr(b: u8) -> Address {
    Address::new([b; 32])
}

fn setup(funds: u64) -> Ledger {
    let mut ledger = Ledger::new();
    for a in [P1, P2, OTHER] {
        ledger.open_account(addr(a), funds).unwrap();
    }
    for a in [ESCROW, FEES] {
        ledger.open_account(addr(a), 0).unwrap();
    }
    ledger
}

fn room(ledger: &mut Ledger, wager: u64) -> Game {
    initialize_game(ledger, addr(P1), addr(ESCROW), 9, wager, GameType::CoinFlip, 100).unwrap().0
}

fn bal(ledger: &Ledger, a: u8) -> u64 {
    ledger.balance(&addr(a)).unwrap()
}

#[test]
fn full_round_pays_winner_ninety_eight_percent() {
    let mut ledger = setup(1_000_000);
    let mut g = room(&mut ledger, 500_000);
    assert_eq!(g.state, GameState::WaitingForPlayer2);
    assert_eq!(bal(&ledger, ESCROW), 500_000);
    assert_eq!(join_game(&mut g, &mut ledger, addr(P2)), Ok(PlayerJoined { game_id: 9, player2: addr(P2) }));
    assert_eq!(g.state, GameState::InProgress);
    assert_eq!(bal(&ledger, ESCROW), 1_000_000);
    assert_eq!(
        complete_game(&mut g, &mut ledger, addr(P2), addr(P1), addr(FEES)),
        Ok(GameCompleted { game_id: 9, winner: addr(P1), winner_amount: 980_000, platform_fee: 20_000 })
    );
    assert_eq!(g.state, GameState::Completed);
    assert_eq!(g.winner, Some(addr(P1)));
    assert_eq!(bal(&ledger, P1), 500_000 + 980_000);
    assert_eq!(bal(&ledger, FEES), 20_000);
    assert_eq!(bal(&ledger, ESCROW), 0);
}

#[test]
fn zero_wager_is_refused() {
    let mut ledger = setup(1_000);
    let e = initialize_game(&mut ledger, addr(P1), addr(ESCROW), 1, 0, GameType::DiceRoll, 0).unwrap_err();
    assert_eq!(e, GameError::InvalidWagerAmount);
    assert_eq!(e.kind(), ErrorKind::Validation);
}

#[test]
fn playing_against_self_and_late_joins_are_refused() {
    let mut ledger = setup(1_000_000);
    let mut g = room(&mut ledger, 1_000);
    let e = join_game(&mut g, &mut ledger, addr(P1)).unwrap_err();
    assert_eq!(e, GameError::CannotPlayAgainstSelf);
    assert_eq!(e.kind(), ErrorKind::Authorization);
    join_game(&mut g, &mut ledger, addr(P2)).unwrap();
    let e = join_game(&mut g, &mut ledger, addr(OTHER)).unwrap_err();
    assert_eq!(e, GameError::GameNotOpen);
    assert_eq!(e.kind(), ErrorKind::StateConflict);
    assert_eq!(bal(&ledger, ESCROW), 2_000);
}

#[test]
fn completion_checks_winner_state_and_caller() {
    let mut ledger = setup(1_000_000);
    let mut g = room(&mut ledger, 1_000);
    let e = complete_game(&mut g, &mut ledger, addr(P1), addr(OTHER), addr(FEES)).unwrap_err();
    assert_eq!(e, GameError::InvalidWinner);
    assert_eq!(e.kind(), ErrorKind::Validation);
    let e = complete_game(&mut g, &mut ledger, addr(P1), addr(P1), addr(FEES)).unwrap_err();
    assert_eq!(e, GameError::GameNotInProgress);
    join_game(&mut g, &mut ledger, addr(P2)).unwrap();
    let e = complete_game(&mut g, &mut ledger, addr(OTHER), addr(P1), addr(FEES)).unwrap_err();
    assert_eq!(e, GameError::UnauthorizedCaller);
    complete_game(&mut g, &mut ledger, addr(P1), addr(P2), addr(FEES)).unwrap();
    let e = complete_game(&mut g, &mut ledger, addr(P1), addr(P2), addr(FEES)).unwrap_err();
    assert_eq!(e, GameError::GameNotInProgress);
    assert_eq!(bal(&ledger, FEES), 40);
    assert_eq!(bal(&ledger, P2), 1_000_000 - 1_000 + 1_960);
}

#[test]
fn completion_overflow_is_reported() {
    let mut ledger = setup(0);
    let mut g = Game {
        game_id: 1,
        player1: addr(P1),
        player2: Some(addr(P2)),
        wager_amount: u64::MAX / 2 + 1,
        game_type: GameType::Custom,
        state: GameState::InProgress,
        winner: None,
        created_at: 0,
        escrow: addr(ESCROW),
    };
    let e = complete_game(&mut g, &mut ledger, addr(P1), addr(P1), addr(FEES)).unwrap_err();
    assert_eq!(e, GameError::Overflow);
    assert_eq!(e.kind(), ErrorKind::Arithmetic);
    g.wager_amount = u64::MAX / 300;
    assert_eq!(complete_game(&mut g, &mut ledger, addr(P1), addr(P1), addr(FEES)), Err(GameError::Overflow));
    assert_eq!(g.state, GameState::InProgress);
}

#[test]
fn cancel_refunds_the_first_player_once() {
    let mut ledger = setup(10_000);
    let mut g = room(&mut ledger, 4_000);
    let e = cancel_game(&mut g, &mut ledger, addr(P2)).unwrap_err();
    assert_eq!(e, GameError::UnauthorizedCaller);
    assert_eq!(cancel_game(&mut g, &mut ledger, addr(P1)), Ok(GameCancelled { game_id: 9 }));
    assert_eq!(g.state, GameState::Cancelled);
    assert_eq!(bal(&ledger, P1), 10_000);
    let e = cancel_game(&mut g, &mut ledger, addr(P1)).unwrap_err();
    assert_eq!(e, GameError::CannotCancelActiveGame);
    assert_eq!(e.kind(), ErrorKind::StateConflict);
    assert_eq!(join_game(&mut g, &mut ledger, addr(P2)), Err(GameError::GameNotOpen));
}
