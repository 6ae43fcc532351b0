//! What holds of the operations taken together: a ledger has one open
//! session at most, a closed session stays closed, and the counter of a
//! ledger grows by accepted reveals and by nothing else.

use crate::commitment::{Hash32, Key};
use crate::error::ClickerError;
use crate::instructions::{
    cancel_rejection, reveal_rejection, session_cancelled, session_revealed, session_started,
    start_rejection, CancelSession, EndSession, StartSession,
};
use vstd::prelude::*;

verus! {

/// While a session is open on a ledger, its owner cannot open another:
/// the request is rejected with `SessionAlreadyActive`, whatever the
/// commitment, the time and the place of the new session.
pub proof fn lemma_active_ledger_rejects_start(pre: StartSession)
    requires
        pre.game.player == pre.player,
        pre.game.active_session is Some,
    ensures
        start_rejection(pre) == Some(ClickerError::SessionAlreadyActive),
{
}

/// Once a session was opened, a second request by the same player on the
/// ledger as it then stands is rejected with `SessionAlreadyActive`.
pub proof fn lemma_second_start_rejected(
    pre: StartSession,
    commitment: Hash32,
    now: i64,
    again: StartSession,
)
    requires
        start_rejection(pre) is None,
        again.game == session_started(pre, commitment, now).game,
        again.player == pre.player,
    ensures
        start_rejection(again) == Some(ClickerError::SessionAlreadyActive),
{
}

/// A session that is closed cannot be revealed again, on whatever ledger
/// and with whatever values: the owner of the ledger is told
/// `SessionAlreadyRevealed`, every other caller `InvalidPlayer`.
pub proof fn lemma_closed_session_rejects_reveal(
    pre: EndSession,
    clicks: u32,
    revealed_hash: Seq<u8>,
    max_session_duration: i64,
    now: i64,
)
    requires
        pre.session.revealed,
    ensures
        reveal_rejection(pre, clicks, revealed_hash, max_session_duration, now) == Some(
            if pre.player == pre.game.player {
                ClickerError::SessionAlreadyRevealed
            } else {
                ClickerError::InvalidPlayer
            },
        ),
{
}

/// After an accepted reveal the session is closed and the ledger is idle,
/// and every further reveal or cancellation of that session on that ledger
/// is rejected. A caller who does not own the ledger is told
/// `InvalidPlayer`. The owner is told `SessionAlreadyRevealed` for a
/// reveal, and `InvalidSession` for a cancellation.
pub proof fn lemma_reveal_is_final(
    pre: EndSession,
    clicks: u32,
    revealed_hash: Seq<u8>,
    max_session_duration: i64,
    now: i64,
    caller: Key,
    next_clicks: u32,
    next_hash: Seq<u8>,
    next_max_session_duration: i64,
    next_now: i64,
)
    requires
        reveal_rejection(pre, clicks, revealed_hash, max_session_duration, now) is None,
    ensures
        ({
            let post = session_revealed(pre, clicks, now);
            let again = EndSession {
                game: post.game,
                session: post.session,
                session_key: post.session_key,
                player: caller,
            };
            let is_owner = caller == pre.game.player;
            &&& post.session.revealed
            &&& post.game.is_idle()
            &&& reveal_rejection(
                again,
                next_clicks,
                next_hash,
                next_max_session_duration,
                next_now,
            ) == Some(
                if is_owner {
                    ClickerError::SessionAlreadyRevealed
                } else {
                    ClickerError::InvalidPlayer
                },
            )
            &&& cancel_rejection(post.game, post.session_key, caller) == Some(
                if is_owner {
                    ClickerError::InvalidSession
                } else {
                    ClickerError::InvalidPlayer
                },
            )
        }),
{
}

/// After a cancellation the session is closed and the ledger is idle, and
/// every further reveal or cancellation of that session on that ledger is
/// rejected. A caller who does not own the ledger is told `InvalidPlayer`.
/// The owner is told `SessionAlreadyRevealed` for a reveal, and
/// `InvalidSession` for a cancellation.
pub proof fn lemma_cancel_is_final(
    pre: CancelSession,
    now: i64,
    caller: Key,
    next_clicks: u32,
    next_hash: Seq<u8>,
    next_max_session_duration: i64,
    next_now: i64,
)
    requires
        cancel_rejection(pre.game, pre.session_key, pre.player) is None,
    ensures
        ({
            let post = session_cancelled(pre, now);
            let again = EndSession {
                game: post.game,
                session: post.session,
                session_key: post.session_key,
                player: caller,
            };
            let is_owner = caller == pre.game.player;
            &&& post.session.revealed
            &&& post.game.is_idle()
            &&& reveal_rejection(
                again,
                next_clicks,
                next_hash,
                next_max_session_duration,
                next_now,
            ) == Some(
                if is_owner {
                    ClickerError::SessionAlreadyRevealed
                } else {
                    ClickerError::InvalidPlayer
                },
            )
            &&& cancel_rejection(post.game, post.session_key, caller) == Some(
                if is_owner {
                    ClickerError::InvalidSession
                } else {
                    ClickerError::InvalidPlayer
                },
            )
        }),
{
}

/// A reveal is judged `InvalidSession` only for a session that is still
/// open: its owner asks for a session that is not the one open on the
/// ledger.
pub proof fn lemma_invalid_session_means_open_elsewhere(
    pre: EndSession,
    clicks: u32,
    revealed_hash: Seq<u8>,
    max_session_duration: i64,
    now: i64,
)
    ensures
        reveal_rejection(pre, clicks, revealed_hash, max_session_duration, now) == Some(
            ClickerError::InvalidSession,
        ) <==> pre.player == pre.game.player && !pre.session.revealed && !pre.game.has_active(
            pre.session_key,
        ),
{
}

/// Once its session is closed, by a reveal or by a cancellation, a ledger
/// takes a new session from its owner.
pub proof fn lemma_closed_ledger_takes_new_session(
    revealed: EndSession,
    clicks: u32,
    cancelled: CancelSession,
    now: i64,
    next_after_reveal: StartSession,
    next_after_cancel: StartSession,
)
    requires
        next_after_reveal.game == session_revealed(revealed, clicks, now).game,
        next_after_reveal.player == revealed.game.player,
        next_after_cancel.game == session_cancelled(cancelled, now).game,
        next_after_cancel.player == cancelled.game.player,
    ensures
        start_rejection(next_after_reveal) is None,
        start_rejection(next_after_cancel) is None,
{
}

/// The counter of a ledger never goes down, and only an accepted reveal
/// moves it: by the clicks revealed, where the sum fits the counter.
/// Opening and cancelling a session leave it as it was. No operation
/// changes the owner of a ledger.
pub proof fn lemma_counter_grows_by_reveals_only(
    started: StartSession,
    commitment: Hash32,
    revealed: EndSession,
    clicks: u32,
    cancelled: CancelSession,
    now: i64,
)
    requires
        revealed.game.total_clicks + clicks <= u64::MAX,
    ensures
        session_started(started, commitment, now).game.total_clicks == started.game.total_clicks,
        session_cancelled(cancelled, now).game.total_clicks == cancelled.game.total_clicks,
        session_revealed(revealed, clicks, now).game.total_clicks == revealed.game.total_clicks
            + clicks,
        session_revealed(revealed, clicks, now).game.total_clicks >= revealed.game.total_clicks,
        session_started(started, commitment, now).game.player == started.game.player,
        session_cancelled(cancelled, now).game.player == cancelled.game.player,
        session_revealed(revealed, clicks, now).game.player == revealed.game.player,
{
}

/// Closing a session leaves what was fixed at its opening as it was: the
/// player, the ledger, the commitment and the start time.
pub proof fn lemma_closing_keeps_identity(
    revealed: EndSession,
    clicks: u32,
    cancelled: CancelSession,
    now: i64,
)
    ensures
        session_revealed(revealed, clicks, now).session.same_identity(revealed.session),
        session_cancelled(cancelled, now).session.same_identity(cancelled.session),
{
}

} // verus!
