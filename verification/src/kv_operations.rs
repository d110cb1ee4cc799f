//! Outcome classification for the host key-value bridge.
//!
//! The asynchronous host call and the deserialization of its payload live
//! in the bridge; the ledger side only decides what a fetched outcome
//! means, and that decision is total and deterministic.

use vstd::prelude::*;
use crate::handler_result::ViewResult;

verus! {

/// Business-rule failure of a key-value read: the key has no value.
#[derive(Debug, PartialEq, Eq)]
pub enum KvError {
    NotFound,
}

/// Decide what a host fetch means: a present value succeeds, an absent
/// one is the `NotFound` contract error, and a bridge failure surfaces as
/// a runtime error — infrastructure failure, not business-rule rejection.
pub fn kv_get<T>(fetched: Result<Option<T>, String>) -> (r: ViewResult<T, KvError>)
    ensures
        match fetched {
            Ok(Some(v)) => r matches ViewResult::Success(rv) && rv == v,
            Ok(None) => r matches ViewResult::ContractError(KvError::NotFound),
            Err(e) => r matches ViewResult::RuntimeError(msg) && msg == e,
        },
{
    match fetched {
        Ok(Some(v)) => ViewResult::Success(v),
        Ok(None) => ViewResult::ContractError(KvError::NotFound),
        Err(e) => ViewResult::RuntimeError(e),
    }
}

} // verus!
