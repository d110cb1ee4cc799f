//! The ledger state and its well-formedness discipline.

use vstd::prelude::*;
use crate::assoc::{all_positive, distinct_keys, lookup, sum_values, value_of};

verus! {

/// The full token-accounting snapshot: balances, allowances, supply and
/// governance fields.  Balances and allowances are sparse association
/// lists; an address with balance 0 is absent, and an owner with no
/// positive allowance is absent at the outer level.
#[derive(Clone, Debug)]
pub struct State {
    pub symbol: String,
    pub name: Option<String>,
    pub decimals: u8,
    pub total_supply: u64,
    pub balances: Vec<(String, u64)>,
    pub allowances: Vec<(String, Vec<(String, u64)>)>,
    pub owner: String,
    pub evolve: Option<String>,
    pub can_evolve: Option<bool>,
}

/// The two-level allowance table is well formed: distinct owners, and for
/// each owner a non-empty inner list with distinct spenders and strictly
/// positive amounts.
pub open spec fn allowances_wf(outer: Seq<(String, Vec<(String, u64)>)>) -> bool {
    &&& distinct_keys(outer)
    &&& forall|i: int|
        #![trigger outer[i]]
        0 <= i < outer.len() ==> distinct_keys(outer[i].1@) && all_positive(outer[i].1@)
            && outer[i].1@.len() > 0
}

/// The amount `spender` may move out of `owner`'s balance; 0 when either
/// level is absent.
pub open spec fn allowance_of(
    outer: Seq<(String, Vec<(String, u64)>)>,
    owner: Seq<char>,
    spender: Seq<char>,
) -> u64 {
    match lookup(outer, owner) {
        Some(inner) => value_of(inner@, spender),
        None => 0,
    }
}

impl State {
    /// The stored balance of `addr`, or 0 when absent.
    pub open spec fn balance_of_spec(self, addr: Seq<char>) -> u64 {
        value_of(self.balances@, addr)
    }

    /// The allowance granted by `owner` to `spender`, or 0 when absent.
    pub open spec fn allowance_spec(self, owner: Seq<char>, spender: Seq<char>) -> u64 {
        allowance_of(self.allowances@, owner, spender)
    }

    /// Representation invariant: distinct balance keys, a well-formed
    /// allowance table, and a total supply equal to the sum of all
    /// balances (nothing in scope mints or burns, so nothing recomputes
    /// it; every operation preserves it).
    pub open spec fn wf(self) -> bool {
        &&& distinct_keys(self.balances@)
        &&& allowances_wf(self.allowances@)
        &&& sum_values(self.balances@) == self.total_supply
    }

    /// No balance entry is 0.  Kept separate from `wf`: a transfer of
    /// amount 0 to an absent address records a zero entry, exactly as the
    /// ledger's update rule dictates.
    pub open spec fn balances_sparse(self) -> bool {
        all_positive(self.balances@)
    }

    /// The fields no transfer or approval touches are carried over.
    pub open spec fn same_metadata(self, other: State) -> bool {
        &&& other.symbol == self.symbol
        &&& other.name == self.name
        &&& other.decimals == self.decimals
        &&& other.owner == self.owner
        &&& other.evolve == self.evolve
        &&& other.can_evolve == self.can_evolve
    }
}

impl Default for State {
    /// An empty ledger: no token metadata, no balances, no allowances,
    /// zero supply, and evolution undecided.
    fn default() -> (r: Self)
        ensures
            r.wf(),
            r.balances_sparse(),
            r.balances@.len() == 0,
            r.allowances@.len() == 0,
            r.total_supply == 0,
            r.symbol@.len() == 0,
            r.name is None,
            r.decimals == 0,
            r.owner@.len() == 0,
            r.evolve is None,
            r.can_evolve is None,
    {
        let r = State {
            symbol: String::new(),
            name: None,
            decimals: 0,
            total_supply: 0,
            balances: Vec::new(),
            allowances: Vec::new(),
            owner: String::new(),
            evolve: None,
            can_evolve: None,
        };
        proof {
            assert(sum_values(r.balances@) == 0);
        }
        r
    }
}

} // verus!
