//! The single persisted configuration record of the wrapper.

use vstd::prelude::*;

verus! {

/// The persisted configuration: who deployed the wrapper, which token ledger
/// it is bound to, and which native denomination it accepts.
///
/// `contract` starts as the empty string (the "unbound" sentinel) and is set
/// exactly once by the owner; `owner` and `native_coin` are fixed at creation.
#[derive(Debug, Clone, PartialEq, Eq)]
pub struct State {
    /// Identity of the deployer; set once at creation.
    pub owner: String,
    /// Address of the bound token ledger; empty until bound.
    pub contract: String,
    /// Denomination of the accepted native asset.
    pub native_coin: String,
}

/// Mathematical model of a configuration record.
#[verifier::ext_equal]
pub struct StateV {
    pub owner: Seq<char>,
    pub contract: Seq<char>,
    pub native_coin: Seq<char>,
}

impl View for State {
    type V = StateV;

    open spec fn view(&self) -> StateV {
        StateV { owner: self.owner@, contract: self.contract@, native_coin: self.native_coin@ }
    }
}

/// Whether the configuration still carries the "unbound" sentinel.
pub open spec fn ledger_unbound(s: StateV) -> bool {
    s.contract.len() == 0
}

} // verus!
