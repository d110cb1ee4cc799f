//! The default evolve configuration a freshly deployed contract carries.

use vstd::prelude::*;

verus! {

#[derive(Debug)]
pub struct EvolveState {
    pub can_evolve: bool,
    pub source_transaction_id: Option<String>,
}

impl Default for EvolveState {
    /// A fresh configuration permits evolution and names no source yet.
    fn default() -> (r: Self)
        ensures
            r.can_evolve == true,
            r.source_transaction_id is None,
    {
        EvolveState { can_evolve: true, source_transaction_id: None }
    }
}

} // verus!
