//! Result envelopes shared by contract handlers.

use vstd::prelude::*;

verus! {

/// What a write-style handler hands back on success: either a replacement
/// state or a read-only response.
#[derive(Debug)]
pub enum HandlerResult<S, Q> {
    NewState(S),
    QueryResponse(Q),
}

/// Outcome of a read-only handler.
#[derive(Debug)]
pub enum ViewResult<V, E> {
    Success(V),
    ContractError(E),
    RuntimeError(String),
}

/// Outcome of a state-changing handler.
#[derive(Debug)]
pub enum WriteResult<S, E> {
    Success(S),
    ContractError(E),
    RuntimeError(String),
}

} // verus!
