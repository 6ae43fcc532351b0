//! All ledgers and sessions together, as a record store keeps them: each
//! under its key, created once and changed in place. The store is a model
//! for stating what holds of every state that the operations can reach; no
//! code runs on it.

use crate::commitment::{Hash32, Key};
use crate::error::ClickerError;
use crate::instructions::{
    cancel_rejection, new_game, reveal_rejection, session_cancelled, session_revealed,
    session_started, start_rejection, CancelSession, EndSession, StartSession,
};
use crate::state::{Game, Session};
use vstd::prelude::*;

verus! {

/// The ledgers and the sessions that exist, each under its key.
pub struct Store {
    pub games: Map<Key, Game>,
    pub sessions: Map<Key, Session>,
}

impl Store {
    /// The store before anything was created.
    pub open spec fn empty() -> Store {
        Store { games: Map::empty(), sessions: Map::empty() }
    }

    /// The ledger under `game_key` is idle, or it points at a session that
    /// exists, is open, belongs to that ledger and was opened by the
    /// ledger's owner.
    pub open spec fn ledger_is_sound(self, game_key: Key) -> bool {
        match self.games[game_key].active_session {
            Some(session_key) => {
                &&& self.sessions.contains_key(session_key)
                &&& !self.sessions[session_key].revealed
                &&& self.sessions[session_key].game == game_key
                &&& self.sessions[session_key].player == self.games[game_key].player
            },
            None => true,
        }
    }

    /// Every ledger of the store is sound.
    pub open spec fn consistent(self) -> bool {
        forall|game_key: Key| #[trigger]
            self.games.contains_key(game_key) ==> self.ledger_is_sound(game_key)
    }

    /// The ledger is the one kept under `game_key`.
    pub open spec fn holds_game(self, game_key: Key, game: Game) -> bool {
        self.games.contains_key(game_key) && self.games[game_key] == game
    }

    /// The session is the one kept under `session_key`.
    pub open spec fn holds_session(self, session_key: Key, session: Session) -> bool {
        self.sessions.contains_key(session_key) && self.sessions[session_key] == session
    }

    /// The store after `player` created a ledger under `game_key`.
    pub open spec fn create_ledger(self, game_key: Key, player: Key, now: i64) -> Store {
        Store { games: self.games.insert(game_key, new_game(player, now)), sessions: self.sessions }
    }

    /// The store after a request to open a session: changed as
    /// `session_started` says where the request is accepted, unchanged
    /// where it is rejected.
    pub open spec fn open_session(self, ctx: StartSession, commitment: Hash32, now: i64) -> Store {
        if start_rejection(ctx) is None {
            let post = session_started(ctx, commitment, now);
            Store {
                games: self.games.insert(ctx.game_key, post.game),
                sessions: self.sessions.insert(ctx.session_key, post.session),
            }
        } else {
            self
        }
    }

    /// The store after a request to reveal the session of the ledger under
    /// `game_key`: changed as `session_revealed` says where the request is
    /// accepted, unchanged where it is rejected.
    pub open spec fn close_by_reveal(
        self,
        game_key: Key,
        ctx: EndSession,
        clicks: u32,
        revealed_hash: Seq<u8>,
        max_session_duration: i64,
        now: i64,
    ) -> Store {
        if reveal_rejection(ctx, clicks, revealed_hash, max_session_duration, now) is None {
            let post = session_revealed(ctx, clicks, now);
            Store {
                games: self.games.insert(game_key, post.game),
                sessions: self.sessions.insert(ctx.session_key, post.session),
            }
        } else {
            self
        }
    }

    /// The store after a request to cancel the session of the ledger under
    /// `game_key`: changed as `session_cancelled` says where the request is
    /// accepted, unchanged where it is rejected.
    pub open spec fn close_by_cancel(self, game_key: Key, ctx: CancelSession, now: i64) -> Store {
        if cancel_rejection(ctx.game, ctx.session_key, ctx.player) is None {
            let post = session_cancelled(ctx, now);
            Store {
                games: self.games.insert(game_key, post.game),
                sessions: self.sessions.insert(ctx.session_key, post.session),
            }
        } else {
            self
        }
    }
}

/// The empty store is consistent.
pub proof fn lemma_empty_is_consistent()
    ensures
        Store::empty().consistent(),
{
}

/// Creating a ledger under a key that holds none keeps the store
/// consistent.
pub proof fn lemma_create_ledger_keeps_consistent(
    store: Store,
    game_key: Key,
    player: Key,
    now: i64,
)
    requires
        store.consistent(),
        !store.games.contains_key(game_key),
    ensures
        store.create_ledger(game_key, player, now).consistent(),
{
    let post = store.create_ledger(game_key, player, now);
    assert forall|k: Key| #[trigger] post.games.contains_key(k) implies post.ledger_is_sound(k) by {
        if k != game_key {
            assert(store.games.contains_key(k));
        }
    }
}

/// Opening a session on a ledger of the store, under a key that holds no
/// session, keeps the store consistent, whether the request is accepted or
/// rejected.
pub proof fn lemma_open_session_keeps_consistent(
    store: Store,
    ctx: StartSession,
    commitment: Hash32,
    now: i64,
)
    requires
        store.consistent(),
        store.holds_game(ctx.game_key, ctx.game),
        !store.sessions.contains_key(ctx.session_key),
    ensures
        store.open_session(ctx, commitment, now).consistent(),
{
    let post = store.open_session(ctx, commitment, now);
    assert forall|k: Key| #[trigger] post.games.contains_key(k) implies post.ledger_is_sound(k) by {
        assert(store.games.contains_key(ctx.game_key));
        if k != ctx.game_key {
            assert(store.games.contains_key(k));
        }
    }
}

/// A request to reveal a session of the store on a ledger of the store
/// keeps the store consistent, whether it is accepted or rejected.
pub proof fn lemma_reveal_keeps_consistent(
    store: Store,
    game_key: Key,
    ctx: EndSession,
    clicks: u32,
    revealed_hash: Seq<u8>,
    max_session_duration: i64,
    now: i64,
)
    requires
        store.consistent(),
        store.holds_game(game_key, ctx.game),
        store.holds_session(ctx.session_key, ctx.session),
    ensures
        store.close_by_reveal(
            game_key,
            ctx,
            clicks,
            revealed_hash,
            max_session_duration,
            now,
        ).consistent(),
{
    let post = store.close_by_reveal(
        game_key,
        ctx,
        clicks,
        revealed_hash,
        max_session_duration,
        now,
    );
    assert forall|k: Key| #[trigger] post.games.contains_key(k) implies post.ledger_is_sound(k) by {
        assert(store.games.contains_key(game_key));
        if k != game_key {
            assert(store.games.contains_key(k));
        }
    }
}

/// A request to cancel a session of the store on a ledger of the store
/// keeps the store consistent, whether it is accepted or rejected.
pub proof fn lemma_cancel_keeps_consistent(
    store: Store,
    game_key: Key,
    ctx: CancelSession,
    now: i64,
)
    requires
        store.consistent(),
        store.holds_game(game_key, ctx.game),
        store.holds_session(ctx.session_key, ctx.session),
    ensures
        store.close_by_cancel(game_key, ctx, now).consistent(),
{
    let post = store.close_by_cancel(game_key, ctx, now);
    assert forall|k: Key| #[trigger] post.games.contains_key(k) implies post.ledger_is_sound(k) by {
        assert(store.games.contains_key(game_key));
        if k != game_key {
            assert(store.games.contains_key(k));
        }
    }
}

/// In a consistent store a closed session can be neither revealed nor
/// cancelled again, on whatever ledger of the store and by whatever
/// caller. A caller who does not own the ledger is told `InvalidPlayer`.
/// The owner is told `SessionAlreadyRevealed` for a reveal, and
/// `InvalidSession` for a cancellation: no ledger points at a closed
/// session.
pub proof fn lemma_closed_session_stays_closed(
    store: Store,
    game_key: Key,
    session_key: Key,
    caller: Key,
    clicks: u32,
    revealed_hash: Seq<u8>,
    max_session_duration: i64,
    now: i64,
)
    requires
        store.consistent(),
        store.games.contains_key(game_key),
        store.sessions.contains_key(session_key),
        store.sessions[session_key].revealed,
    ensures
        ({
            let game = store.games[game_key];
            let again = EndSession {
                game,
                session: store.sessions[session_key],
                session_key,
                player: caller,
            };
            let is_owner = caller == game.player;
            &&& !game.has_active(session_key)
            &&& reveal_rejection(again, clicks, revealed_hash, max_session_duration, now) == Some(
                if is_owner {
                    ClickerError::SessionAlreadyRevealed
                } else {
                    ClickerError::InvalidPlayer
                },
            )
            &&& cancel_rejection(game, session_key, caller) == Some(
                if is_owner {
                    ClickerError::InvalidSession
                } else {
                    ClickerError::InvalidPlayer
                },
            )
        }),
{
}

/// In a consistent store a session is open on one ledger at most.
pub proof fn lemma_session_has_one_ledger(
    store: Store,
    game_key: Key,
    other_key: Key,
    session_key: Key,
)
    requires
        store.consistent(),
        store.games.contains_key(game_key),
        store.games.contains_key(other_key),
        store.games[game_key].has_active(session_key),
        store.games[other_key].has_active(session_key),
    ensures
        game_key == other_key,
{
}

} // verus!
