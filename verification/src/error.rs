//! Error kinds shared by every operation of the wrapper.

use vstd::prelude::*;

verus! {

/// Why an operation was refused. Every failure aborts the whole operation:
/// no configuration change is kept and no actions are produced.
///
/// "Ledger already bound" is deliberately folded into `Unauthorized` rather
/// than reported as a kind of its own, so a caller cannot distinguish the two
/// policy refusals of `try_update_contract`.
#[derive(Debug, Clone, PartialEq, Eq)]
pub enum ContractError {
    /// A policy check failed: wrong caller, wrong funds, short allowance,
    /// a notification from the wrong origin, or a ledger already bound.
    Unauthorized,
    /// The configuration record is absent from the store.
    NotInitialized,
    /// A collaborator validator refused an identity string.
    InvalidIdentity,
    /// Summing the attached fund amounts exceeded the 128-bit range.
    ArithmeticOverflow,
    /// The synchronous allowance query could not be completed.
    CollaboratorQueryFailed,
}

} // verus!
