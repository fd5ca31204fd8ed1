//! Data model of the game core: sessions, outcomes, and the error taxonomy.
//!
//! Participant identities are opaque tokens supplied by the host environment;
//! the core only ever compares them for equality, so they are carried here as
//! plain `u64` values.

use vstd::prelude::*;

verus! {

/// Result of a lobby `launch` call, and at the same time the key space of the
/// external store: the single pending lobby slot, one running session per id,
/// and the shared session-id counter.
#[derive(Clone, Copy, Debug, PartialEq, Eq, Structural)]
pub enum GameState {
    PENDING,
    RUNNING(u32),
    COUNTER,
}

/// One in-progress two-player session.
///
/// `board` packs both 9-bit cell masks into one word: bits 9..=17 hold
/// `player1`'s cells, bits 0..=8 hold `player2`'s cells.  `next` is the turn
/// counter: even means it is `player1`'s move, odd means `player2`'s.
#[derive(Clone, Copy, Debug, PartialEq, Eq, Structural)]
pub struct Game {
    pub player1: u64,
    pub player2: u64,
    pub board: u32,
    pub next: u32,
}

/// Classification of an accepted move.
#[derive(Clone, Copy, Debug, PartialEq, Eq, Structural)]
pub enum PlayResult {
    NEXT,
    WINNER,
    DRAW,
}

/// Why a `play` call was rejected.  A rejected call never mutates any state.
#[derive(Clone, Copy, Debug, PartialEq, Eq, Structural)]
pub enum InvalidErrorCode {
    Unknown,
    NotAPlayer,
    GameNotFound,
    NotYourTurn,
    MoveOutOfBound,
    InvalidMove,
}

/// What the external keyed store handed back for a session id: no record,
/// a record that failed to decode, or the session itself.
#[derive(Clone, Copy, Debug, PartialEq, Eq, Structural)]
pub enum StoredGame {
    Missing,
    Undecodable,
    Found(Game),
}

/// Record describing one completed `play` call, for the caller to publish
/// to its event sink: the session id, the updated session, and the outcome.
#[derive(Clone, Copy, Debug, PartialEq, Eq, Structural)]
pub struct TicTacToeEvent {
    pub id: u32,
    pub game: Game,
    pub result: PlayResult,
}

impl InvalidErrorCode {
    /// The numeric code under which this error is reported to callers.
    pub open spec fn code_spec(self) -> u32 {
        match self {
            InvalidErrorCode::Unknown => 0,
            InvalidErrorCode::NotAPlayer => 1,
            InvalidErrorCode::GameNotFound => 2,
            InvalidErrorCode::NotYourTurn => 3,
            InvalidErrorCode::MoveOutOfBound => 4,
            InvalidErrorCode::InvalidMove => 5,
        }
    }

    pub fn code(&self) -> (r: u32)
        ensures
            r == self.code_spec(),
    {
        match self {
            InvalidErrorCode::Unknown => 0,
            InvalidErrorCode::NotAPlayer => 1,
            InvalidErrorCode::GameNotFound => 2,
            InvalidErrorCode::NotYourTurn => 3,
            InvalidErrorCode::MoveOutOfBound => 4,
            InvalidErrorCode::InvalidMove => 5,
        }
    }
}

} // verus!
