//! Rules engine for a two-player turn-based board game (tic-tac-toe),
//! written as a pure state-transition core over externally persisted state.
//!
//! The host environment owns durable storage, caller identity resolution and
//! event publication; the core receives the relevant records and the
//! authenticated caller identity as plain values, decides, and returns the
//! updated records together with an outcome.  Every transition is verified:
//! an illegal move is never accepted, the wrong party never moves, and a
//! rejected call leaves every record exactly as it was.

use vstd::prelude::*;

pub mod board;
pub mod helper;
pub mod pages;
pub mod types;

use crate::board::{
    apply_move, cell_taken, classify, lemma_move_keeps_masks_disjoint, masks_disjoint,
    COLUMN_LEFT, COLUMN_MIDDLE, COLUMN_RIGHT, DIAGONAL_ANTI, DIAGONAL_MAIN, FULL_MASK, ROW_BOTTOM,
    ROW_MIDDLE, ROW_TOP,
};
use crate::helper::{member_of, scheduled_player, TicTacToeEngine};
use crate::types::{Game, GameState, InvalidErrorCode, PlayResult, StoredGame, TicTacToeEvent};

verus! {

/// The public operations surface a host exposes: lobby pairing (`launch`)
/// and move submission (`play`).
pub struct TicTacToeContract;

/// True when a `launch` by `invoker` pairs with an already waiting entry:
/// someone is in the lobby slot and it is not the caller themselves.
pub open spec fn lobby_pairs(pending: Option<u64>, invoker: u64) -> bool {
    pending matches Some(waiting) && waiting != invoker
}

/// Lobby slot after a `launch` by `invoker`: cleared on pairing, otherwise
/// holding the caller (re-parking an already waiting caller is a no-op).
pub open spec fn launch_waiting_after(invoker: u64, pending: Option<u64>) -> Option<u64> {
    if lobby_pairs(pending, invoker) {
        None
    } else {
        Some(invoker)
    }
}

/// Session-id counter after a `launch` by `invoker`: advanced by one exactly
/// when a new session is created.
pub open spec fn launch_counter_after(invoker: u64, pending: Option<u64>, counter: u32) -> u32 {
    if lobby_pairs(pending, invoker) {
        (counter + 1) as u32
    } else {
        counter
    }
}

/// Result reported by a `launch` call: the key of the fresh session on
/// pairing, `PENDING` otherwise.
pub open spec fn launch_result(invoker: u64, pending: Option<u64>, counter: u32) -> GameState {
    if lobby_pairs(pending, invoker) {
        GameState::RUNNING((counter + 1) as u32)
    } else {
        GameState::PENDING
    }
}

/// The session a `launch` call creates, if any: the earlier arrival is
/// `player1`, the caller is `player2`, the board is empty, and `player1`
/// moves first.
pub open spec fn launch_created(invoker: u64, pending: Option<u64>) -> Option<Game> {
    match pending {
        Some(waiting) => if waiting != invoker {
            Some(Game { player1: waiting, player2: invoker, board: 0, next: 0 })
        } else {
            None
        },
        None => None,
    }
}

/// The session invariant a stored record keeps: no cell is claimed by both
/// participants at once.  Records that hold no session satisfy it trivially.
pub open spec fn record_masks_disjoint(stored: StoredGame) -> bool {
    match stored {
        StoredGame::Found(g) => masks_disjoint(g.board),
        StoredGame::Missing => true,
        StoredGame::Undecodable => true,
    }
}

impl TicTacToeContract {
    /// Lobby pairing.  `pending` and `counter` are the store's lobby-slot and
    /// counter records, read before the call and written back after it; the
    /// returned session, if any, is to be stored under the returned
    /// `RUNNING` key.
    pub fn launch(invoker: u64, pending: &mut Option<u64>, counter: &mut u32) -> (r: (
        GameState,
        Option<Game>,
    ))
        requires
            *old(counter) < u32::MAX,
        ensures
            *final(pending) == launch_waiting_after(invoker, *old(pending)),
            *final(counter) == launch_counter_after(invoker, *old(pending), *old(counter)),
            r.0 == launch_result(invoker, *old(pending), *old(counter)),
            r.1 == launch_created(invoker, *old(pending)),
            r.1 matches Some(g) ==> g.player1 != g.player2 && masks_disjoint(g.board),
    {
        proof {
            assert(masks_disjoint(0)) by (bit_vector);
        }
        let waiting: u64 = match *pending {
            Some(w) => w,
            None => invoker,
        };
        if waiting != invoker {
            *counter = *counter + 1;
            let game = Game { player1: waiting, player2: invoker, board: 0, next: 0 };
            *pending = None;
            (GameState::RUNNING(*counter), Some(game))
        } else {
            *pending = Some(invoker);
            (GameState::PENDING, None)
        }
    }

    /// Move submission.  `slot` is the store's record for the addressed
    /// session id, read before the call and written back after it: on a
    /// continuing game it holds the updated session, on a terminal outcome
    /// the session is gone, and on a rejected call it is untouched.
    pub fn play(invoker: u64, game_id: u32, square: [u8; 2], slot: &mut StoredGame) -> (r: Result<
        TicTacToeEvent,
        InvalidErrorCode,
    >)
        requires
            *old(slot) matches StoredGame::Found(g) ==> g.next < u32::MAX,
        ensures
            *final(slot) == play_slot_after(invoker, square, *old(slot)),
            r == play_report(invoker, game_id, square, *old(slot)),
            r is Err ==> *final(slot) == *old(slot),
            record_masks_disjoint(*old(slot)) ==> record_masks_disjoint(*final(slot)),
    {
        let game = match TicTacToeEngine::get_game(*slot) {
            Ok(g) => g,
            Err(e) => {
                return Err(e);
            },
        };
        match TicTacToeEngine::check_player(invoker, &game) {
            Ok(u) => u,
            Err(e) => {
                return Err(e);
            },
        };
        let m = match TicTacToeEngine::get_square(square) {
            Ok(m) => m,
            Err(e) => {
                return Err(e);
            },
        };
        let new_board = match TicTacToeEngine::check_and_move(m, &game) {
            Ok(b) => b,
            Err(e) => {
                return Err(e);
            },
        };
        proof {
            if masks_disjoint(game.board) {
                lemma_move_keeps_masks_disjoint(game.board, game.next, m[0], m[1]);
            }
        }
        let mut mgame = game;
        mgame.board = new_board;
        let result = Self::get_next_action(game.next % 2, new_board);
        if result == PlayResult::NEXT {
            mgame.next = mgame.next + 1;
            *slot = StoredGame::Found(mgame);
        } else {
            *slot = StoredGame::Missing;
        }
        Ok(TicTacToeEvent { id: game_id, game: mgame, result: result })
    }

    /// Terminal classification of a packed board word, seen from the mover:
    /// `player1`'s mask when `player_id` is 0, `player2`'s otherwise.
    pub fn get_next_action(player_id: u32, board: u32) -> (r: PlayResult)
        ensures
            r == classify(player_id, board),
    {
        let b: u32 = if player_id == 0 {
            (board >> 9) & FULL_MASK
        } else {
            board & FULL_MASK
        };
        if b == ROW_TOP || b == ROW_MIDDLE || b == ROW_BOTTOM || b == COLUMN_LEFT || b
            == COLUMN_MIDDLE || b == COLUMN_RIGHT || b == DIAGONAL_MAIN || b == DIAGONAL_ANTI {
            return PlayResult::WINNER;
        }
        if ((board >> 9) & FULL_MASK) | (board & FULL_MASK) == FULL_MASK {
            return PlayResult::DRAW;
        }
        PlayResult::NEXT
    }
}

/// Everything a `play` call decides, over the record the store handed back:
/// either the single error of the first failing check, in the fixed order
/// existence, membership, turn, bounds, occupancy, or the updated session
/// paired with the outcome of the accepted move.  The turn counter advances
/// exactly on a continuing game.
pub open spec fn play_outcome(invoker: u64, square: [u8; 2], stored: StoredGame) -> Result<
    (Game, PlayResult),
    InvalidErrorCode,
> {
    match stored {
        StoredGame::Missing => Err(InvalidErrorCode::GameNotFound),
        StoredGame::Undecodable => Err(InvalidErrorCode::Unknown),
        StoredGame::Found(g) => if !member_of(invoker, g) {
            Err(InvalidErrorCode::NotAPlayer)
        } else if invoker != scheduled_player(g) {
            Err(InvalidErrorCode::NotYourTurn)
        } else if !(square[0] <= 2 && square[1] <= 2) {
            Err(InvalidErrorCode::MoveOutOfBound)
        } else if cell_taken(g.board, square[0], square[1]) {
            Err(InvalidErrorCode::InvalidMove)
        } else {
            let new_board = apply_move(g.board, g.next, square[0], square[1]);
            let result = classify(g.next % 2, new_board);
            let updated = Game {
                player1: g.player1,
                player2: g.player2,
                board: new_board,
                next: if result is NEXT {
                    (g.next + 1) as u32
                } else {
                    g.next
                },
            };
            Ok((updated, result))
        },
    }
}

/// The event record a `play` call returns for the caller to publish.
pub open spec fn play_report(invoker: u64, game_id: u32, square: [u8; 2], stored: StoredGame) -> Result<
    TicTacToeEvent,
    InvalidErrorCode,
> {
    match play_outcome(invoker, square, stored) {
        Ok((updated, result)) => Ok(TicTacToeEvent { id: game_id, game: updated, result: result }),
        Err(e) => Err(e),
    }
}

/// The session record after a `play` call: updated while the game continues,
/// removed on a terminal outcome, untouched on a rejected call.
pub open spec fn play_slot_after(invoker: u64, square: [u8; 2], stored: StoredGame) -> StoredGame {
    match play_outcome(invoker, square, stored) {
        Ok((updated, result)) => if result is NEXT {
            StoredGame::Found(updated)
        } else {
            StoredGame::Missing
        },
        Err(_) => stored,
    }
}

/// First `launch(a)` on an empty lobby parks `a` and answers `PENDING`;
/// a following `launch(b)` with `b != a` starts a fresh session keyed by the
/// advanced counter, with `a` as `player1`, `b` as `player2`, an empty board,
/// and `a` to move, and empties the lobby again.
pub proof fn lemma_pairing_order(a: u64, b: u64, counter: u32)
    requires
        a != b,
    ensures
        launch_result(a, None, counter) == GameState::PENDING,
        launch_created(a, None) is None,
        launch_waiting_after(a, None) == Some(a),
        launch_counter_after(a, None, counter) == counter,
        launch_result(b, Some(a), counter) == GameState::RUNNING((counter + 1) as u32),
        launch_created(b, Some(a)) == Some(
            Game { player1: a, player2: b, board: 0, next: 0 },
        ),
        launch_waiting_after(b, Some(a)) is None,
{
}

/// A participant calling `launch` twice alone gets `PENDING` both times:
/// no session is ever created, the lobby slot keeps holding them, and the
/// session counter does not move.
pub proof fn lemma_self_pairing_rejected(a: u64, counter: u32)
    ensures
        launch_result(a, None, counter) == GameState::PENDING,
        launch_created(a, None) is None,
        launch_waiting_after(a, None) == Some(a),
        launch_result(a, Some(a), counter) == GameState::PENDING,
        launch_created(a, Some(a)) is None,
        launch_waiting_after(a, Some(a)) == Some(a),
        launch_counter_after(a, Some(a), counter) == counter,
{
}

/// After a `Continue` move the turn counter grows by exactly one, so the
/// parity flips and the other participant is the one scheduled next; the
/// participants themselves never change.
pub proof fn lemma_turn_alternates(invoker: u64, square: [u8; 2], g: Game)
    requires
        g.next < u32::MAX,
        g.player1 != g.player2,
        play_outcome(invoker, square, StoredGame::Found(g)) matches Ok(out) && out.1 is NEXT,
    ensures
        play_outcome(invoker, square, StoredGame::Found(g)) matches Ok(out) ==> {
            &&& out.0.next == g.next + 1
            &&& out.0.next % 2 != g.next % 2
            &&& out.0.player1 == g.player1
            &&& out.0.player2 == g.player2
            &&& invoker == scheduled_player(g)
            &&& scheduled_player(out.0) != invoker
        },
{
}

} // verus!

