//! Bit-board representation of the 3x3 position.
//!
//! Each participant's cells form a 9-bit mask; the cell at zero-based
//! coordinates `(col, row)` is bit `8 - (col + 3 * row)`, so bit 8 is the
//! top-left corner and bit 0 the bottom-right.  A session's `board` word
//! carries `player1`'s mask in bits 9..=17 and `player2`'s in bits 0..=8.
//! The eight line constants below are the single source of truth for what
//! counts as a winning line.

use vstd::prelude::*;

use crate::types::PlayResult;

verus! {

pub const ROW_TOP: u32 = 0b111000000;

pub const ROW_MIDDLE: u32 = 0b000111000;

pub const ROW_BOTTOM: u32 = 0b000000111;

pub const COLUMN_LEFT: u32 = 0b100100100;

pub const COLUMN_MIDDLE: u32 = 0b010010010;

pub const COLUMN_RIGHT: u32 = 0b001001001;

pub const DIAGONAL_MAIN: u32 = 0b100010001;

pub const DIAGONAL_ANTI: u32 = 0b001010100;

/// All nine cells of one participant's mask.
pub const FULL_MASK: u32 = 0b111111111;

/// `player1`'s 9-bit cell mask within a packed board word.
pub open spec fn player_one_mask(board: u32) -> u32 {
    (board >> 9) & FULL_MASK
}

/// `player2`'s 9-bit cell mask within a packed board word.
pub open spec fn player_two_mask(board: u32) -> u32 {
    board & FULL_MASK
}

/// The single-bit mask of the cell at `(col, row)`.
pub open spec fn cell_mask(col: u8, row: u8) -> u32
    recommends
        col <= 2,
        row <= 2,
{
    1u32 << ((8 - col - 3 * row) as u32)
}

/// A mask wins exactly when it is one of the eight canonical lines:
/// three rows, three columns, two diagonals.  The test is exact equality,
/// so all eight are checked independently and no ordering matters.
pub open spec fn mask_wins(m: u32) -> bool {
    ||| m == ROW_TOP
    ||| m == ROW_MIDDLE
    ||| m == ROW_BOTTOM
    ||| m == COLUMN_LEFT
    ||| m == COLUMN_MIDDLE
    ||| m == COLUMN_RIGHT
    ||| m == DIAGONAL_MAIN
    ||| m == DIAGONAL_ANTI
}

/// Every one of the nine cells is claimed by one of the two participants.
pub open spec fn board_full(board: u32) -> bool {
    player_one_mask(board) | player_two_mask(board) == FULL_MASK
}

/// The cell at `(col, row)` is already set in either participant's mask.
pub open spec fn cell_taken(board: u32, col: u8, row: u8) -> bool {
    (player_one_mask(board) | player_two_mask(board)) & cell_mask(col, row) != 0
}

/// No cell is claimed by both participants at once.
pub open spec fn masks_disjoint(board: u32) -> bool {
    player_one_mask(board) & player_two_mask(board) == 0
}

/// The board after the participant on turn `next` claims `(col, row)`:
/// the cell's bit is set in `player1`'s mask when `next` is even, in
/// `player2`'s when odd.
pub open spec fn apply_move(board: u32, next: u32, col: u8, row: u8) -> u32 {
    if next % 2 == 0 {
        board | (cell_mask(col, row) << 9)
    } else {
        board | cell_mask(col, row)
    }
}

/// Terminal classification of a position, evaluated only against the mover's
/// own mask (`player1` when `player_id` is 0, `player2` otherwise): `WINNER`
/// when that mask is a canonical line, else `DRAW` on a full board, else the
/// game continues.
pub open spec fn classify(player_id: u32, board: u32) -> PlayResult {
    let mover = if player_id == 0 {
        player_one_mask(board)
    } else {
        player_two_mask(board)
    };
    if mask_wins(mover) {
        PlayResult::WINNER
    } else if board_full(board) {
        PlayResult::DRAW
    } else {
        PlayResult::NEXT
    }
}

/// The single-bit mask of the cell at `(col, row)`, as executable code.
pub fn square_mask(col: u8, row: u8) -> (r: u32)
    requires
        col <= 2,
        row <= 2,
    ensures
        r == cell_mask(col, row),
{
    1u32 << (8 - (col as u32) - 3 * (row as u32))
}

/// A position classifies as `WINNER` exactly when the mover's own mask is a
/// canonical line; the opponent's mask never decides it.
pub proof fn lemma_winner_iff_line(player_id: u32, board: u32)
    ensures
        classify(player_id, board) == PlayResult::WINNER <==> mask_wins(
            if player_id == 0 {
                player_one_mask(board)
            } else {
                player_two_mask(board)
            },
        ),
{
}

/// A mask one bit short of a line is no line at all: removing any set bit
/// from a winning mask leaves a mask that does not win.
pub proof fn lemma_near_line_mask_no_win(w: u32, k: u32)
    requires
        mask_wins(w),
        k < 9,
        w & (1u32 << k) != 0,
    ensures
        !mask_wins(w & !(1u32 << k)),
{
    assert(!mask_wins(w & !(1u32 << k))) by (bit_vector)
        requires
            mask_wins(w),
            k < 9,
            w & (1u32 << k) != 0,
    ;
}

/// A mover whose mask is one bit short of a line is never classified as the
/// winner.
pub proof fn lemma_near_line_never_wins(player_id: u32, board: u32, w: u32, k: u32)
    requires
        mask_wins(w),
        k < 9,
        w & (1u32 << k) != 0,
        (if player_id == 0 {
            player_one_mask(board)
        } else {
            player_two_mask(board)
        }) == w & !(1u32 << k),
    ensures
        classify(player_id, board) != PlayResult::WINNER,
{
    lemma_near_line_mask_no_win(w, k);
}

/// A full board on which neither participant's mask is a canonical line
/// classifies as a draw, whoever just moved.
pub proof fn lemma_full_board_draws(player_id: u32, board: u32)
    requires
        board_full(board),
        !mask_wins(player_one_mask(board)),
        !mask_wins(player_two_mask(board)),
    ensures
        classify(player_id, board) == PlayResult::DRAW,
{
}

/// An accepted move on a free cell keeps the two masks disjoint: the claimed
/// bit lands in the mover's mask alone, and no other bit changes.
pub proof fn lemma_move_keeps_masks_disjoint(board: u32, next: u32, col: u8, row: u8)
    requires
        col <= 2,
        row <= 2,
        masks_disjoint(board),
        !cell_taken(board, col, row),
    ensures
        masks_disjoint(apply_move(board, next, col, row)),
{
    assert(masks_disjoint(apply_move(board, next, col, row))) by (bit_vector)
        requires
            col <= 2,
            row <= 2,
            masks_disjoint(board),
            !cell_taken(board, col, row),
    ;
}

} // verus!
