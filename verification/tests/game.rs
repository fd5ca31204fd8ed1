// Scenario tests driving the full operations surface: lobby pairing, move
// submission, and the event records a host would publish.  The external
// keyed store is played here by explicit local records, as the library's
// signatures intend.

use tic_tac_toe::types::{Game, GameState, InvalidErrorCode, PlayResult, StoredGame, TicTacToeEvent};
use tic_tac_toe::TicTacToeContract;

/// Pair identities `a` and `b` through an empty lobby and hand back the
/// session record, stored under id 1.
fn pair(a: u64, b: u64) -> StoredGame {
    let mut pending: Option<u64> = None;
    let mut counter: u32 = 0;
    let first = TicTacToeContract::launch(a, &mut pending, &mut counter);
    assert_eq!(first.0, GameState::PENDING);
    let second = TicTacToeContract::launch(b, &mut pending, &mut counter);
    assert_eq!(second.0, GameState::RUNNING(1));
    StoredGame::Found(second.1.expect("pairing creates a session"))
}

fn must_play(
    who: u64,
    id: u32,
    square: [u8; 2],
    slot: &mut StoredGame,
) -> TicTacToeEvent {
    TicTacToeContract::play(who, id, square, slot).expect("move was legal")
}

#[test]
fn test_launch() {
    let user_1: u64 = 1;
    let user_2: u64 = 2;
    let mut pending: Option<u64> = None;
    let mut counter: u32 = 0;

    let r1 = TicTacToeContract::launch(user_1, &mut pending, &mut counter);
    let r2 = TicTacToeContract::launch(user_2, &mut pending, &mut counter);

    assert_eq!(r1.0, GameState::PENDING);
    assert_eq!(r2.0, GameState::RUNNING(1));
    assert_eq!(
        r2.1,
        Some(Game { player1: user_1, player2: user_2, board: 0, next: 0 })
    );
    assert_eq!(pending, None);
    assert_eq!(counter, 1);
}

#[test]
fn test_play() {
    let mut slot = pair(1, 2);

    let r = TicTacToeContract::play(1, 1, [0, 0], &mut slot).expect("first move is legal");
    assert_eq!(r.result, PlayResult::NEXT);

    must_play(2, 1, [2, 2], &mut slot);
}

#[test]
fn test_play_user1_win() {
    let user_1: u64 = 1;
    let user_2: u64 = 2;
    let mut slot = pair(user_1, user_2);

    let ev1 = must_play(user_1, 1, [0, 0], &mut slot);
    let ev2 = must_play(user_2, 1, [2, 2], &mut slot);
    let ev3 = must_play(user_1, 1, [0, 1], &mut slot);
    let ev4 = must_play(user_2, 1, [2, 1], &mut slot);
    let ev5 = must_play(user_1, 1, [0, 2], &mut slot);

    assert_eq!(ev5.result, PlayResult::WINNER);

    let events = [ev1, ev2, ev3, ev4, ev5];
    let expected = [
        TicTacToeEvent {
            id: 1,
            game: Game {
                player1: user_1,
                player2: user_2,
                board: 0b100000000000000000,
                next: 1,
            },
            result: PlayResult::NEXT,
        },
        TicTacToeEvent {
            id: 1,
            game: Game {
                player1: user_1,
                player2: user_2,
                board: 0b100000000000000001,
                next: 2,
            },
            result: PlayResult::NEXT,
        },
        TicTacToeEvent {
            id: 1,
            game: Game {
                player1: user_1,
                player2: user_2,
                board: 0b100100000000000001,
                next: 3,
            },
            result: PlayResult::NEXT,
        },
        TicTacToeEvent {
            id: 1,
            game: Game {
                player1: user_1,
                player2: user_2,
                board: 0b100100000000001001,
                next: 4,
            },
            result: PlayResult::NEXT,
        },
        TicTacToeEvent {
            id: 1,
            game: Game {
                player1: user_1,
                player2: user_2,
                board: 0b100100100000001001,
                next: 4,
            },
            result: PlayResult::WINNER,
        },
    ];
    assert_eq!(events, expected);

    // The finished session is gone from storage.
    assert_eq!(slot, StoredGame::Missing);
}

#[test]
fn test_play_user2_win() {
    let mut slot = pair(1, 2);

    must_play(1, 1, [0, 0], &mut slot);
    must_play(2, 1, [2, 2], &mut slot);
    must_play(1, 1, [0, 1], &mut slot);
    must_play(2, 1, [2, 1], &mut slot);
    must_play(1, 1, [1, 0], &mut slot);
    let r = must_play(2, 1, [2, 0], &mut slot);

    assert_eq!(r.result, PlayResult::WINNER);
    assert_eq!(slot, StoredGame::Missing);
}

#[test]
fn test_play_draw() {
    let mut slot = pair(1, 2);

    must_play(1, 1, [0, 0], &mut slot);
    must_play(2, 1, [0, 1], &mut slot);
    must_play(1, 1, [0, 2], &mut slot);
    must_play(2, 1, [1, 0], &mut slot);
    must_play(1, 1, [1, 1], &mut slot);
    must_play(2, 1, [1, 2], &mut slot);
    must_play(1, 1, [2, 0], &mut slot);
    must_play(2, 1, [2, 1], &mut slot);
    let r = must_play(1, 1, [2, 2], &mut slot);

    assert_eq!(r.result, PlayResult::DRAW);
    assert_eq!(slot, StoredGame::Missing);
}

#[test]
fn test_invalid_player() {
    let mut slot = pair(1, 2);
    let user_3: u64 = 3;

    let r = TicTacToeContract::play(user_3, 1, [0, 0], &mut slot);
    assert_eq!(r, Err(InvalidErrorCode::NotAPlayer));
}

#[test]
fn test_not_found() {
    pair(1, 2);
    let mut absent = StoredGame::Missing;

    let r = TicTacToeContract::play(1, 42, [0, 0], &mut absent);
    assert_eq!(r, Err(InvalidErrorCode::GameNotFound));
    assert_eq!(absent, StoredGame::Missing);
}

#[test]
fn test_not_your_turn1() {
    let mut slot = pair(1, 2);

    let r = TicTacToeContract::play(2, 1, [0, 1], &mut slot);
    assert_eq!(r, Err(InvalidErrorCode::NotYourTurn));
}

#[test]
fn test_not_your_turn2() {
    let mut slot = pair(1, 2);

    must_play(1, 1, [0, 1], &mut slot);
    let r = TicTacToeContract::play(1, 1, [1, 0], &mut slot);
    assert_eq!(r, Err(InvalidErrorCode::NotYourTurn));
}

#[test]
fn test_move_out_bound1() {
    let mut slot = pair(1, 2);

    let r = TicTacToeContract::play(1, 1, [3, 0], &mut slot);
    assert_eq!(r, Err(InvalidErrorCode::MoveOutOfBound));
}

#[test]
fn test_move_out_bound2() {
    let mut slot = pair(1, 2);

    let r = TicTacToeContract::play(1, 1, [0, 3], &mut slot);
    assert_eq!(r, Err(InvalidErrorCode::MoveOutOfBound));
}

#[test]
fn test_invalid_move() {
    let mut slot = pair(1, 2);

    must_play(1, 1, [0, 1], &mut slot);
    let r = TicTacToeContract::play(2, 1, [0, 1], &mut slot);
    assert_eq!(r, Err(InvalidErrorCode::InvalidMove));
}

#[test]
fn undecodable_record_reports_unknown() {
    let mut corrupt = StoredGame::Undecodable;
    let r = TicTacToeContract::play(1, 1, [0, 0], &mut corrupt);
    assert_eq!(r, Err(InvalidErrorCode::Unknown));
    assert_eq!(corrupt, StoredGame::Undecodable);
}

#[test]
fn rejected_call_leaves_session_unchanged() {
    let mut slot = pair(1, 2);
    let before = slot;

    assert!(TicTacToeContract::play(3, 1, [0, 0], &mut slot).is_err());
    assert_eq!(slot, before);
    assert!(TicTacToeContract::play(2, 1, [0, 0], &mut slot).is_err());
    assert_eq!(slot, before);
    assert!(TicTacToeContract::play(1, 1, [3, 0], &mut slot).is_err());
    assert_eq!(slot, before);

    must_play(1, 1, [1, 1], &mut slot);
    let after_one_move = slot;
    assert!(TicTacToeContract::play(2, 1, [1, 1], &mut slot).is_err());
    assert_eq!(slot, after_one_move);
}

#[test]
fn continue_move_alternates_turn() {
    let mut slot = pair(1, 2);

    let ev = must_play(1, 1, [1, 1], &mut slot);
    assert_eq!(ev.result, PlayResult::NEXT);
    assert_eq!(ev.game.next, 1);

    // Now it is the second participant's turn, and only theirs.
    let mut probe = slot;
    assert_eq!(
        TicTacToeContract::play(1, 1, [0, 0], &mut probe),
        Err(InvalidErrorCode::NotYourTurn)
    );
    let ev2 = must_play(2, 1, [0, 0], &mut slot);
    assert_eq!(ev2.result, PlayResult::NEXT);
    assert_eq!(ev2.game.next, 2);
}

#[test]
fn self_pairing_never_starts_a_session() {
    let user: u64 = 5;
    let mut pending: Option<u64> = None;
    let mut counter: u32 = 0;

    let r1 = TicTacToeContract::launch(user, &mut pending, &mut counter);
    let r2 = TicTacToeContract::launch(user, &mut pending, &mut counter);

    assert_eq!(r1, (GameState::PENDING, None));
    assert_eq!(r2, (GameState::PENDING, None));
    assert_eq!(pending, Some(user));
    assert_eq!(counter, 0);
}
