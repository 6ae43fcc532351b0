//! The four operations on a ledger and its sessions, each over the records
//! it touches. An operation either takes effect as a whole or is rejected and
//! changes nothing.

use crate::commitment::{commit, same_bytes, spec_commit, Hash32, Key};
use crate::error::ClickerError;
use crate::policy::{evaluate_policy, policy_verdict, session_duration};
use crate::state::{Game, Session};
use vstd::prelude::*;

verus! {

/// What creating a ledger works on.
#[derive(Clone, Copy, Debug, PartialEq, Eq)]
pub struct Initialize {
    /// The place of the new ledger. What it held before is dropped.
    pub game: Game,
    /// The authenticated caller, who becomes the owner.
    pub player: Key,
}

/// What opening a session works on.
#[derive(Clone, Copy, Debug, PartialEq, Eq)]
pub struct StartSession {
    /// The ledger that the session is opened on.
    pub game: Game,
    /// The key under which `game` is kept.
    pub game_key: Key,
    /// The place of the new session. What it held before is dropped.
    pub session: Session,
    /// The key under which `session` is kept.
    pub session_key: Key,
    /// The authenticated caller.
    pub player: Key,
}

/// What closing a session with a reveal works on.
#[derive(Clone, Copy, Debug, PartialEq, Eq)]
pub struct EndSession {
    /// The ledger that the session is open on.
    pub game: Game,
    /// The session that is closed.
    pub session: Session,
    /// The key under which `session` is kept.
    pub session_key: Key,
    /// The authenticated caller.
    pub player: Key,
}

/// What closing a session without a reveal works on.
#[derive(Clone, Copy, Debug, PartialEq, Eq)]
pub struct CancelSession {
    /// The ledger that the session is open on.
    pub game: Game,
    /// The session that is closed.
    pub session: Session,
    /// The key under which `session` is kept.
    pub session_key: Key,
    /// The authenticated caller.
    pub player: Key,
}

/// The outcome of a request: rejected for the given reason, or accepted.
pub open spec fn outcome_of(rejection: Option<ClickerError>) -> Result<(), ClickerError> {
    match rejection {
        Some(e) => Err(e),
        None => Ok(()),
    }
}

/// The ledger that `player` gets at time `now`: idle, with no clicks.
pub open spec fn new_game(player: Key, now: i64) -> Game {
    Game { player, total_clicks: 0, last_session_end: now, active_session: None }
}

/// Why opening a session is rejected, if it is: the caller must own the
/// ledger, and the ledger must be idle.
pub open spec fn start_rejection(pre: StartSession) -> Option<ClickerError> {
    if pre.game.player != pre.player {
        Some(ClickerError::InvalidPlayer)
    } else if !pre.game.is_idle() {
        Some(ClickerError::SessionAlreadyActive)
    } else {
        None
    }
}

/// The records after a session was opened at time `now` with the given
/// commitment: a new session, open and with no clicks, and the ledger
/// pointing at it.
pub open spec fn session_started(pre: StartSession, commitment: Hash32, now: i64) -> StartSession {
    StartSession {
        game: Game {
            player: pre.game.player,
            total_clicks: pre.game.total_clicks,
            last_session_end: pre.game.last_session_end,
            active_session: Some(pre.session_key),
        },
        game_key: pre.game_key,
        session: Session {
            player: pre.player,
            game: pre.game_key,
            commitment,
            start_time: now,
            end_time: 0,
            actual_clicks: 0,
            revealed: false,
        },
        session_key: pre.session_key,
        player: pre.player,
    }
}

/// The records after a session was cancelled at time `now`: the session is
/// closed with no clicks, and the ledger is idle again. The ledger's
/// counter and its `last_session_end` stay as they were.
pub open spec fn session_cancelled(pre: CancelSession, now: i64) -> CancelSession {
    CancelSession {
        game: Game {
            player: pre.game.player,
            total_clicks: pre.game.total_clicks,
            last_session_end: pre.game.last_session_end,
            active_session: None,
        },
        session: Session {
            player: pre.session.player,
            game: pre.session.game,
            commitment: pre.session.commitment,
            start_time: pre.session.start_time,
            end_time: now,
            actual_clicks: 0,
            revealed: true,
        },
        session_key: pre.session_key,
        player: pre.player,
    }
}

/// Why a cancellation is rejected, if it is: the caller must own the
/// ledger, and the session must be the one open on it. Whether the session
/// was closed before is not asked.
pub open spec fn cancel_rejection(game: Game, session_key: Key, player: Key) -> Option<
    ClickerError,
> {
    if game.player != player {
        Some(ClickerError::InvalidPlayer)
    } else if !game.has_active(session_key) {
        Some(ClickerError::InvalidSession)
    } else {
        None
    }
}

/// Why a reveal of `clicks` at time `now` is rejected before the commitment
/// is looked at, if it is. The guards are judged in this order: the caller
/// must own the ledger; the session must not have been closed before; it
/// must be the one open on the ledger; then the duration cap and the rate
/// cap.
pub open spec fn reveal_guard(
    pre: EndSession,
    clicks: u32,
    max_session_duration: i64,
    now: i64,
) -> Option<ClickerError> {
    if pre.game.player != pre.player {
        Some(ClickerError::InvalidPlayer)
    } else if pre.session.revealed {
        Some(ClickerError::SessionAlreadyRevealed)
    } else if !pre.game.has_active(pre.session_key) {
        Some(ClickerError::InvalidSession)
    } else {
        match policy_verdict(
            session_duration(pre.session.start_time, now),
            max_session_duration as int,
            clicks as int,
        ) {
            Err(e) => Some(e),
            Ok(_) => None,
        }
    }
}

/// Why a reveal is rejected, if it is, where `revealed_hash` is the hash of
/// the revealed values: every guard of `reveal_guard`, and last the
/// commitment, which must be `revealed_hash` byte for byte.
pub open spec fn reveal_rejection(
    pre: EndSession,
    clicks: u32,
    revealed_hash: Seq<u8>,
    max_session_duration: i64,
    now: i64,
) -> Option<ClickerError> {
    if reveal_guard(pre, clicks, max_session_duration, now) is Some {
        reveal_guard(pre, clicks, max_session_duration, now)
    } else if revealed_hash != pre.session.commitment@ {
        Some(ClickerError::InvalidCommitment)
    } else {
        None
    }
}

/// The records after an accepted reveal of `clicks` at time `now`: the
/// session is closed with that count, the ledger has the clicks added and
/// is idle again.
pub open spec fn session_revealed(pre: EndSession, clicks: u32, now: i64) -> EndSession {
    EndSession {
        game: Game {
            player: pre.game.player,
            total_clicks: (pre.game.total_clicks + clicks) as u64,
            last_session_end: now,
            active_session: None,
        },
        session: Session {
            player: pre.session.player,
            game: pre.session.game,
            commitment: pre.session.commitment,
            start_time: pre.session.start_time,
            end_time: now,
            actual_clicks: clicks,
            revealed: true,
        },
        session_key: pre.session_key,
        player: pre.player,
    }
}

/// Whether the session with the given key is the one open on the ledger.
fn is_active(game: &Game, session_key: &Key) -> (active: bool)
    ensures
        active == game.has_active(*session_key),
{
    match &game.active_session {
        Some(active) => same_bytes(active, session_key),
        None => false,
    }
}

/// Creates the caller's ledger at time `now`: idle, with no clicks. It is
/// never rejected.
pub fn initialize(ctx: &mut Initialize, now: i64) -> (outcome: Result<(), ClickerError>)
    ensures
        outcome is Ok,
        final(ctx).game == new_game(old(ctx).player, now),
        final(ctx).player == old(ctx).player,
{
    ctx.game.player = ctx.player;
    ctx.game.total_clicks = 0;
    ctx.game.last_session_end = now;
    ctx.game.active_session = None;
    Ok(())
}

/// Opens a session at time `now` with the given commitment.
pub fn start_session(ctx: &mut StartSession, commitment: Hash32, now: i64) -> (outcome: Result<
    (),
    ClickerError,
>)
    ensures
        outcome == outcome_of(start_rejection(*old(ctx))),
        outcome is Ok ==> *final(ctx) == session_started(*old(ctx), commitment, now),
        outcome is Err ==> *final(ctx) == *old(ctx),
{
    if !same_bytes(&ctx.game.player, &ctx.player) {
        return Err(ClickerError::InvalidPlayer);
    }
    if ctx.game.active_session.is_some() {
        return Err(ClickerError::SessionAlreadyActive);
    }
    ctx.session.player = ctx.player;
    ctx.session.game = ctx.game_key;
    ctx.session.commitment = commitment;
    ctx.session.start_time = now;
    ctx.session.end_time = 0;
    ctx.session.actual_clicks = 0;
    ctx.session.revealed = false;

    ctx.game.active_session = Some(ctx.session_key);
    Ok(())
}

/// Closes the session at time `now` without a reveal: no clicks are
/// counted, and no commitment is asked for.
pub fn cancel_session(ctx: &mut CancelSession, now: i64) -> (outcome: Result<(), ClickerError>)
    ensures
        outcome == outcome_of(
            cancel_rejection(old(ctx).game, old(ctx).session_key, old(ctx).player),
        ),
        outcome is Ok ==> *final(ctx) == session_cancelled(*old(ctx), now),
        outcome is Err ==> *final(ctx) == *old(ctx),
{
    if !same_bytes(&ctx.game.player, &ctx.player) {
        return Err(ClickerError::InvalidPlayer);
    }
    if !is_active(&ctx.game, &ctx.session_key) {
        return Err(ClickerError::InvalidSession);
    }
    ctx.game.active_session = None;

    ctx.session.revealed = true;
    ctx.session.actual_clicks = 0;
    ctx.session.end_time = now;
    Ok(())
}

/// Judges a reveal of `clicks` at time `now` without closing anything,
/// where `revealed_hash` is the hash of the revealed values.
pub fn check_reveal(
    ctx: &EndSession,
    clicks: u32,
    revealed_hash: &Hash32,
    max_session_duration: i64,
    now: i64,
) -> (outcome: Result<(), ClickerError>)
    ensures
        outcome == outcome_of(
            reveal_rejection(*ctx, clicks, revealed_hash@, max_session_duration, now),
        ),
{
    if !same_bytes(&ctx.game.player, &ctx.player) {
        return Err(ClickerError::InvalidPlayer);
    }
    if ctx.session.revealed {
        return Err(ClickerError::SessionAlreadyRevealed);
    }
    if !is_active(&ctx.game, &ctx.session_key) {
        return Err(ClickerError::InvalidSession);
    }
    match evaluate_policy(ctx.session.start_time, now, max_session_duration, clicks) {
        Err(e) => {
            return Err(e);
        },
        Ok(_) => {},
    }
    if !same_bytes(revealed_hash, &ctx.session.commitment) {
        return Err(ClickerError::InvalidCommitment);
    }
    Ok(())
}

/// Closes the session with a reveal of `clicks`, where `revealed_hash` is
/// the hash of the revealed values.
///
/// The ledger's counter must be able to take the clicks of a reveal that is
/// accepted.
pub fn reveal_session(
    ctx: &mut EndSession,
    clicks: u32,
    revealed_hash: &Hash32,
    max_session_duration: i64,
    now: i64,
) -> (outcome: Result<(), ClickerError>)
    requires
        reveal_rejection(*old(ctx), clicks, revealed_hash@, max_session_duration, now) is None
            ==> old(ctx).game.total_clicks + clicks <= u64::MAX,
    ensures
        outcome == outcome_of(
            reveal_rejection(*old(ctx), clicks, revealed_hash@, max_session_duration, now),
        ),
        outcome is Ok ==> *final(ctx) == session_revealed(*old(ctx), clicks, now),
        outcome is Err ==> *final(ctx) == *old(ctx),
{
    match check_reveal(ctx, clicks, revealed_hash, max_session_duration, now) {
        Err(e) => Err(e),
        Ok(_) => {
            ctx.game.total_clicks = ctx.game.total_clicks + clicks as u64;
            ctx.game.last_session_end = now;
            ctx.game.active_session = None;

            ctx.session.revealed = true;
            ctx.session.actual_clicks = clicks;
            ctx.session.end_time = now;
            Ok(())
        },
    }
}

/// Closes the session with a reveal of `clicks` under `nonce`: the hash of
/// the two and of the caller's identity must be the session's commitment.
///
/// The ledger's counter must be able to take the clicks of a reveal that is
/// accepted. `checked_end_session` asks for nothing.
pub fn end_session(
    ctx: &mut EndSession,
    clicks: u32,
    nonce: u64,
    max_session_duration: i64,
    now: i64,
) -> (outcome: Result<(), ClickerError>)
    requires
        reveal_rejection(
            *old(ctx),
            clicks,
            spec_commit(clicks, nonce, old(ctx).player@),
            max_session_duration,
            now,
        ) is None ==> old(ctx).game.total_clicks + clicks <= u64::MAX,
    ensures
        outcome == outcome_of(
            reveal_rejection(
                *old(ctx),
                clicks,
                spec_commit(clicks, nonce, old(ctx).player@),
                max_session_duration,
                now,
            ),
        ),
        outcome is Ok ==> *final(ctx) == session_revealed(*old(ctx), clicks, now),
        outcome is Err ==> *final(ctx) == *old(ctx),
{
    let revealed_hash: Hash32 = commit(clicks, nonce, ctx.player.as_slice());
    reveal_session(ctx, clicks, &revealed_hash, max_session_duration, now)
}

/// Closes the session as `end_session` does, for every ledger: where the
/// reveal passes every guard and the counter cannot take the clicks, it
/// returns `None` and changes nothing.
pub fn checked_end_session(
    ctx: &mut EndSession,
    clicks: u32,
    nonce: u64,
    max_session_duration: i64,
    now: i64,
) -> (outcome: Option<Result<(), ClickerError>>)
    ensures
        ({
            let rejection = reveal_rejection(
                *old(ctx),
                clicks,
                spec_commit(clicks, nonce, old(ctx).player@),
                max_session_duration,
                now,
            );
            let fits = old(ctx).game.total_clicks + clicks <= u64::MAX;
            &&& outcome == if rejection is None && !fits {
                None
            } else {
                Some(outcome_of(rejection))
            }
            &&& *final(ctx) == if rejection is None && fits {
                session_revealed(*old(ctx), clicks, now)
            } else {
                *old(ctx)
            }
        }),
{
    if ctx.game.total_clicks <= u64::MAX - clicks as u64 {
        Some(end_session(ctx, clicks, nonce, max_session_duration, now))
    } else {
        let revealed_hash: Hash32 = commit(clicks, nonce, ctx.player.as_slice());
        match check_reveal(ctx, clicks, &revealed_hash, max_session_duration, now) {
            Err(e) => Some(Err(e)),
            Ok(_) => None,
        }
    }
}

} // verus!
