//! A minimal demonstration contract: one byte of state, one write, one view.

use vstd::prelude::*;
use crate::handler_result::{ViewResult, WriteResult};

verus! {

#[derive(Clone, Debug)]
pub struct State {
    pub x: u8,
}

#[derive(Debug)]
pub struct Action {
    pub x: u8,
}

#[derive(Debug)]
pub struct View {
    pub x: u8,
}

/// Overwrite the stored byte with the action's byte.
pub fn handle(state: State, action: Action) -> (r: WriteResult<State, ()>)
    ensures
        (r matches WriteResult::Success(ns) && ns.x == action.x),
{
    let mut state = state;
    state.x = action.x;
    WriteResult::Success(state)
}

/// Project the stored byte into a view.
pub fn view(state: &State, _action: Action) -> (r: ViewResult<View, ()>)
    ensures
        (r matches ViewResult::Success(v) && v.x == state.x),
{
    ViewResult::Success(View { x: state.x })
}

} // verus!
