//! The move engine: the validation and board-mutation steps a `play` call
//! runs through, each as a total function with an exact contract.

use vstd::prelude::*;

use crate::board::{apply_move, cell_taken, classify, square_mask, FULL_MASK};
use crate::types::{Game, InvalidErrorCode, PlayResult, StoredGame};

verus! {

/// The move engine's validation and mutation steps.
pub struct TicTacToeEngine;

/// The caller is one of the session's two participants.
pub open spec fn member_of(player: u64, game: Game) -> bool {
    game.player1 == player || game.player2 == player
}

/// The participant whose move it is: `player1` on even `next`, `player2` on
/// odd.
pub open spec fn scheduled_player(game: Game) -> u64 {
    if game.next % 2 == 0 {
        game.player1
    } else {
        game.player2
    }
}

impl TicTacToeEngine {
    /// Existence check on the record the store handed back: an absent record
    /// is `GameNotFound`, one that failed to decode is the distinct
    /// `Unknown`.
    pub fn get_game(stored: StoredGame) -> (r: Result<Game, InvalidErrorCode>)
        ensures
            stored is Missing ==> r == Err::<Game, InvalidErrorCode>(
                InvalidErrorCode::GameNotFound,
            ),
            stored is Undecodable ==> r == Err::<Game, InvalidErrorCode>(
                InvalidErrorCode::Unknown,
            ),
            stored matches StoredGame::Found(g) ==> r == Ok::<Game, InvalidErrorCode>(g),
    {
        match stored {
            StoredGame::Missing => Err(InvalidErrorCode::GameNotFound),
            StoredGame::Undecodable => Err(InvalidErrorCode::Unknown),
            StoredGame::Found(g) => Ok(g),
        }
    }

    /// Membership and turn check: a caller who is no participant is
    /// `NotAPlayer`; a participant who is not the one scheduled by the turn
    /// parity is `NotYourTurn`.
    pub fn check_player(player: u64, game: &Game) -> (r: Result<(), InvalidErrorCode>)
        ensures
            !member_of(player, *game) ==> r == Err::<(), InvalidErrorCode>(
                InvalidErrorCode::NotAPlayer,
            ),
            member_of(player, *game) && player != scheduled_player(*game) ==> r == Err::<
                (),
                InvalidErrorCode,
            >(InvalidErrorCode::NotYourTurn),
            member_of(player, *game) && player == scheduled_player(*game) ==> r == Ok::<
                (),
                InvalidErrorCode,
            >(()),
    {
        if game.player1 != player && game.player2 != player {
            return Err(InvalidErrorCode::NotAPlayer);
        }
        let scheduled: u64 = if game.next % 2 == 0 {
            game.player1
        } else {
            game.player2
        };
        if player != scheduled {
            return Err(InvalidErrorCode::NotYourTurn);
        }
        Ok(())
    }

    /// Bounds check on a candidate move `[col, row]`: both coordinates must
    /// lie in `0..=2`.
    pub fn get_square(square: [u8; 2]) -> (r: Result<[u8; 2], InvalidErrorCode>)
        ensures
            square[0] <= 2 && square[1] <= 2 ==> r == Ok::<[u8; 2], InvalidErrorCode>(square),
            !(square[0] <= 2 && square[1] <= 2) ==> r == Err::<[u8; 2], InvalidErrorCode>(
                InvalidErrorCode::MoveOutOfBound,
            ),
    {
        if square[0] > 2 || square[1] > 2 {
            return Err(InvalidErrorCode::MoveOutOfBound);
        }
        Ok(square)
    }

    /// Occupancy check and board mutation: a cell already set in either mask
    /// is `InvalidMove`; otherwise the cell's bit is set in the mask of the
    /// participant on turn and the updated board word is returned.
    pub fn check_and_move(m: [u8; 2], game: &Game) -> (r: Result<u32, InvalidErrorCode>)
        requires
            m[0] <= 2,
            m[1] <= 2,
        ensures
            cell_taken(game.board, m[0], m[1]) ==> r == Err::<u32, InvalidErrorCode>(
                InvalidErrorCode::InvalidMove,
            ),
            !cell_taken(game.board, m[0], m[1]) ==> r == Ok::<u32, InvalidErrorCode>(
                apply_move(game.board, game.next, m[0], m[1]),
            ),
    {
        let mask = square_mask(m[0], m[1]);
        let one = (game.board >> 9) & FULL_MASK;
        let two = game.board & FULL_MASK;
        if (one | two) & mask != 0 {
            return Err(InvalidErrorCode::InvalidMove);
        }
        if game.next % 2 == 0 {
            Ok(game.board | (mask << 9))
        } else {
            Ok(game.board | mask)
        }
    }

    /// Terminal classification of the session's position after a move, seen
    /// from the mover picked by the turn parity.
    pub fn get_next_action(game: &Game) -> (r: PlayResult)
        ensures
            r == classify(game.next % 2, game.board),
    {
        crate::TicTacToeContract::get_next_action(game.next % 2, game.board)
    }
}

} // verus!
