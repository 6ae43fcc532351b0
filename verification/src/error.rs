use vstd::prelude::*;

verus! {

/// Why an operation was rejected. A rejected operation changes nothing.
#[derive(Clone, Copy, Debug, PartialEq, Eq, Structural)]
pub enum ClickerError {
    /// The declared identity does not own the target ledger.
    InvalidPlayer,
    /// A session was requested while another one is still open.
    SessionAlreadyActive,
    /// The target session is not the ledger's current active session.
    InvalidSession,
    /// The target session has already reached its terminal state.
    SessionAlreadyRevealed,
    /// The elapsed time exceeds the cap supplied by the caller.
    SessionTooLong,
    /// The recomputed hash differs from the stored commitment.
    InvalidCommitment,
    /// The claimed clicks exceed what the elapsed time allows.
    UnrealisticClickRate,
}

} // verus!
