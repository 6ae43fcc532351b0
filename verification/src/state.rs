//! The two records that the operations work on: the ledger of a player and
//! one session of play.

use crate::commitment::{Hash32, Key};
use vstd::prelude::*;

verus! {

/// The ledger of one player: the clicks of all sessions that were revealed,
/// and the session that is open, if any.
#[derive(Clone, Copy, Debug, PartialEq, Eq)]
pub struct Game {
    /// The player who owns this ledger. Fixed when the ledger is created.
    pub player: Key,
    /// The clicks of all revealed sessions together.
    pub total_clicks: u64,
    /// When the ledger was created or, later, when a session was last
    /// revealed.
    pub last_session_end: i64,
    /// The session that is open, if any.
    pub active_session: Option<Key>,
}

impl Game {
    /// The bytes that a stored ledger takes.
    pub const MAXIMUM_SIZE: usize = 32 + 8 + 8 + 1 + 32;

    /// No session is open on this ledger.
    pub open spec fn is_idle(self) -> bool {
        self.active_session is None
    }

    /// The session with the given key is the one open on this ledger.
    pub open spec fn has_active(self, session_key: Key) -> bool {
        self.active_session == Some(session_key)
    }
}

impl Default for Game {
    fn default() -> (game: Game)
        ensures
            game.player@ == Seq::new(32, |i: int| 0u8),
            game.total_clicks == 0,
            game.last_session_end == 0,
            game.active_session is None,
    {
        let game = Game {
            player: [0u8; 32],
            total_clicks: 0,
            last_session_end: 0,
            active_session: None,
        };
        assert(game.player@ =~= Seq::new(32, |i: int| 0u8));
        game
    }
}

/// One session: a commitment made at its start, and the count that was
/// revealed at its end.
#[derive(Clone, Copy, Debug, PartialEq, Eq)]
pub struct Session {
    /// The player who opened the session.
    pub player: Key,
    /// The ledger that the session belongs to.
    pub game: Key,
    /// The commitment made when the session was opened.
    pub commitment: Hash32,
    /// When the session was opened.
    pub start_time: i64,
    /// When the session was revealed or cancelled.
    pub end_time: i64,
    /// The clicks that the session was revealed with; zero until then, and
    /// zero for a cancelled session.
    pub actual_clicks: u32,
    /// Set once the session was revealed or cancelled. It is never cleared.
    pub revealed: bool,
}

impl Session {
    /// The bytes that a stored session takes.
    pub const MAXIMUM_SIZE: usize = 32 + 32 + 32 + 8 + 8 + 4 + 1;

    /// The fields that are fixed when a session is opened are the same in
    /// `self` and `other`.
    pub open spec fn same_identity(self, other: Session) -> bool {
        &&& self.player == other.player
        &&& self.game == other.game
        &&& self.commitment == other.commitment
        &&& self.start_time == other.start_time
    }
}

impl Default for Session {
    fn default() -> (session: Session)
        ensures
            session.player@ == Seq::new(32, |i: int| 0u8),
            session.game@ == Seq::new(32, |i: int| 0u8),
            session.commitment@ == Seq::new(32, |i: int| 0u8),
            session.start_time == 0,
            session.end_time == 0,
            session.actual_clicks == 0,
            !session.revealed,
    {
        let session = Session {
            player: [0u8; 32],
            game: [0u8; 32],
            commitment: [0u8; 32],
            start_time: 0,
            end_time: 0,
            actual_clicks: 0,
            revealed: false,
        };
        assert(session.player@ =~= Seq::new(32, |i: int| 0u8));
        assert(session.game@ =~= Seq::new(32, |i: int| 0u8));
        assert(session.commitment@ =~= Seq::new(32, |i: int| 0u8));
        session
    }
}

} // verus!
