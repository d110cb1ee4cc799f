//! The ledger's error vocabulary.

use vstd::prelude::*;

verus! {

/// Business-rule rejections carry the insufficient amount that was
/// available; a rejected action leaves the prior state authoritative.
/// `RuntimeError` is reserved for infrastructure failures surfaced by the
/// host bridge, never raised by the ledger core itself.
#[derive(Debug, PartialEq, Eq)]
pub enum ContractError {
    RuntimeError(String),
    CallerBalanceNotEnough(u64),
    CallerAllowanceNotEnough(u64),
    OnlyOwnerCanEvolve,
    EvolveNotAllowed,
}

} // verus!
