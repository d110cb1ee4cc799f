//! Allowance reads, the approve operation, and the shared
//! set-with-prune helper for the two-level allowance table.

use vstd::prelude::*;
use crate::action::{ActionResult, QueryResponseMsg};
use crate::assoc::{
    distinct_keys, find_key, get_value, lemma_lookup_first, lemma_lookup_push,
    lemma_lookup_remove, lookup, remove_value, set_value, value_of,
};
use crate::error::ContractError;
use crate::handler_result::HandlerResult;
use crate::state::{allowance_of, allowances_wf, State};

verus! {

/// The allowance granted by `owner` to `spender`; 0 when either level is
/// absent.  Total: no error conditions.
pub fn __get_allowance(
    allowances: &Vec<(String, Vec<(String, u64)>)>,
    owner: &String,
    spender: &String,
) -> (r: u64)
    ensures
        r == allowance_of(allowances@, owner@, spender@),
{
    match find_key(allowances, owner) {
        Some(i) => {
            proof {
                lemma_lookup_first(allowances@, owner@, i as int);
            }
            get_value(&allowances[i].1, spender)
        },
        None => {
            proof {
                lemma_lookup_first(allowances@, owner@, allowances@.len() as int);
            }
            0
        },
    }
}

/// Store `amount` under `allowances[owner][spender]`.  A positive amount
/// inserts or overwrites, creating the owner's inner list as needed; a
/// zero amount removes the spender entry and prunes the owner entirely
/// when that leaves it empty.
pub fn __set_allowance(
    allowances: &mut Vec<(String, Vec<(String, u64)>)>,
    owner: String,
    spender: String,
    amount: u64,
)
    requires
        allowances_wf(old(allowances)@),
    ensures
        allowances_wf(final(allowances)@),
        allowance_of(final(allowances)@, owner@, spender@) == amount,
        forall|o: Seq<char>, s: Seq<char>|
            !(o == owner@ && s == spender@) ==> allowance_of(final(allowances)@, o, s)
                == allowance_of(old(allowances)@, o, s),
{
    let ghost pre = allowances@;
    let found = find_key(allowances, &owner);
    match found {
        Some(i) => {
            proof {
                lemma_lookup_first(pre, owner@, i as int);
                assert(pre[i as int].0@ == owner@);
            }
            let mut entry = allowances.remove(i);
            let ghost mid = allowances@;
            let ghost old_inner = entry.1@;
            proof {
                assert(mid == pre.remove(i as int));
                pre.remove_ensures(i as int);
                assert forall|j: int|
                    0 <= j < pre.len() && j != i implies #[trigger] pre[j].0@ != pre[
                    i as int].0@ by {}
                lemma_lookup_remove(pre, i as int, owner@);
                assert forall|o: Seq<char>| o != owner@ implies lookup(mid, o) == lookup(
                    pre,
                    o,
                ) by {
                    lemma_lookup_remove(pre, i as int, o);
                }
                assert forall|j: int| 0 <= j < mid.len() implies #[trigger] mid[j].0@
                    != owner@ by {}
                assert(distinct_keys(entry.1@) && entry.1@.len() > 0);
            }
            if amount > 0 {
                set_value(&mut entry.1, &spender, amount);
                push_owner_entry(allowances, entry, Ghost(pre), Ghost(owner@));
                proof {
                    assert(lookup(entry.1@, spender@) == Some(amount));
                    assert(allowance_of(allowances@, owner@, spender@) == amount);
                    lemma_inner_unchanged(allowances@, pre, owner@, spender@, old_inner, entry.1@);
                }
            } else {
                remove_value(&mut entry.1, &spender);
                if entry.1.len() > 0 {
                    push_owner_entry(allowances, entry, Ghost(pre), Ghost(owner@));
                    proof {
                        assert(allowance_of(allowances@, owner@, spender@) == 0);
                        lemma_inner_unchanged(
                            allowances@,
                            pre,
                            owner@,
                            spender@,
                            old_inner,
                            entry.1@,
                        );
                    }
                } else {
                    proof {
                        // The inner list emptied, so the owner entry is pruned;
                        // the only spender it could have held was the removed one.
                        assert(lookup(allowances@, owner@) == None::<Vec<(String, u64)>>);
                        assert(allowance_of(allowances@, owner@, spender@) == 0);
                        assert(old_inner.len() > 0);
                        if lookup(old_inner, spender@) is None {
                            assert(entry.1@ == old_inner);
                            assert(false);
                        }
                        assert(old_inner.len() == 1);
                        if old_inner[0].0@ != spender@ {
                            assert(lookup(old_inner, spender@) == lookup(
                                old_inner.drop_first(),
                                spender@,
                            ));
                            assert(old_inner.drop_first().len() == 0);
                            assert(false);
                        }
                        assert forall|s: Seq<char>| s != spender@ implies allowance_of(
                            allowances@,
                            owner@,
                            s,
                        ) == allowance_of(pre, owner@, s) by {
                            assert(lookup(pre, owner@) == Some(pre[i as int].1));
                            lemma_lookup_first(old_inner, s, old_inner.len() as int);
                            assert(value_of(old_inner, s) == 0);
                        }
                        assert forall|o: Seq<char>, s: Seq<char>|
                            !(o == owner@ && s == spender@) implies allowance_of(allowances@, o, s)
                            == allowance_of(pre, o, s) by {
                            if o != owner@ {
                                assert(lookup(allowances@, o) == lookup(pre, o));
                            }
                        }
                    }
                }
            }
        },
        None => {
            proof {
                lemma_lookup_first(pre, owner@, pre.len() as int);
            }
            if amount > 0 {
                let mut inner: Vec<(String, u64)> = Vec::new();
                set_value(&mut inner, &spender, amount);
                push_owner_entry(allowances, (owner, inner), Ghost(pre), Ghost(owner@));
                proof {
                    assert(allowance_of(allowances@, owner@, spender@) == amount);
                    assert forall|o: Seq<char>, s: Seq<char>|
                        !(o == owner@ && s == spender@) implies allowance_of(allowances@, o, s)
                        == allowance_of(pre, o, s) by {
                        if o == owner@ {
                            assert(allowance_of(pre, o, s) == 0);
                            assert(lookup(Seq::<(String, u64)>::empty(), s) == None::<u64>);
                            assert(allowance_of(allowances@, o, s) == 0);
                        }
                    }
                }
            }
            // A zero amount for an absent owner is already pruned: nothing to do.
        },
    }
}

/// Append an owner entry whose key is absent from the table, keeping the
/// table well formed when the entry's inner list is.
fn push_owner_entry(
    allowances: &mut Vec<(String, Vec<(String, u64)>)>,
    entry: (String, Vec<(String, u64)>),
    Ghost(pre): Ghost<Seq<(String, Vec<(String, u64)>)>>,
    Ghost(owner): Ghost<Seq<char>>,
)
    requires
        entry.0@ == owner,
        forall|j: int|
            #![trigger old(allowances)@[j]]
            0 <= j < old(allowances)@.len() ==> old(allowances)@[j].0@ != owner,
        allowances_wf(old(allowances)@),
        distinct_keys(entry.1@),
        crate::assoc::all_positive(entry.1@),
        entry.1@.len() > 0,
        forall|o: Seq<char>|
            o != owner ==> lookup(old(allowances)@, o) == lookup(pre, o),
    ensures
        allowances_wf(final(allowances)@),
        lookup(final(allowances)@, owner) == Some(entry.1),
        forall|o: Seq<char>| o != owner ==> lookup(final(allowances)@, o) == lookup(pre, o),
        final(allowances)@ == old(allowances)@.push(entry),
{
    let ghost mid = allowances@;
    allowances.push(entry);
    proof {
        let pair = allowances@.last();
        assert(allowances@ == mid.push(pair));
        lemma_lookup_push(mid, pair, owner);
        assert forall|o: Seq<char>| o != owner implies lookup(allowances@, o) == lookup(
            pre,
            o,
        ) by {
            lemma_lookup_push(mid, pair, o);
        }
        assert(distinct_keys(allowances@));
        assert forall|j: int| 0 <= j < allowances@.len() implies distinct_keys(
            #[trigger] allowances@[j].1@,
        ) && crate::assoc::all_positive(allowances@[j].1@) && allowances@[j].1@.len() > 0 by {
            if j < mid.len() {
                assert(allowances@[j] == mid[j]);
            } else {
                assert(allowances@[j] == pair);
            }
        }
    }
}

/// What a successful approval leaves behind: the caller's allowance for
/// `spender` is exactly `amount` — overwritten, never added to — and
/// every other allowance, every balance and all metadata are untouched.
pub open spec fn approve_post(
    pre: State,
    caller: Seq<char>,
    spender: Seq<char>,
    amount: u64,
    r: ActionResult,
) -> bool {
    match r {
        Ok(HandlerResult::NewState(ns)) => {
            &&& ns.wf()
            &&& pre.same_metadata(ns)
            &&& ns.balances == pre.balances
            &&& ns.total_supply == pre.total_supply
            &&& ns.allowance_spec(caller, spender) == amount
            &&& forall|o: Seq<char>, s: Seq<char>|
                !(o == caller && s == spender) ==> ns.allowance_spec(o, s) == pre.allowance_spec(
                    o,
                    s,
                )
        },
        _ => false,
    }
}

/// Unconditionally store `amount` as the caller's allowance for
/// `spender`, overwriting any prior value; never fails.
pub fn approve(state: State, caller: String, spender: String, amount: u64) -> (r: ActionResult)
    requires
        state.wf(),
    ensures
        approve_post(state, caller@, spender@, amount, r),
{
    let mut state = state;
    __set_allowance(&mut state.allowances, caller, spender, amount);
    Ok(HandlerResult::NewState(state))
}

/// What the allowance query answers: the token symbol, the two addresses
/// handed in, and the stored allowance (0 when absent).  The state is
/// consumed, never changed, and the response is a pure function of it.
pub open spec fn allowance_query_post(
    pre: State,
    owner: Seq<char>,
    spender: Seq<char>,
    r: ActionResult,
) -> bool {
    match r {
        Ok(
            HandlerResult::QueryResponse(
                QueryResponseMsg::Allowance { ticker, owner: o, spender: s, allowance },
            ),
        ) => {
            &&& ticker@ == pre.symbol@
            &&& o@ == owner
            &&& s@ == spender
            &&& allowance == pre.allowance_spec(owner, spender)
        },
        _ => false,
    }
}

/// Read-only allowance query; never errors on missing entries.
pub fn allowance(state: State, owner: String, spender: String) -> (r: ActionResult)
    ensures
        allowance_query_post(state, owner@, spender@, r),
{
    let a = __get_allowance(&state.allowances, &owner, &spender);
    Ok(
        HandlerResult::QueryResponse(
            QueryResponseMsg::Allowance {
                ticker: state.symbol,
                allowance: a,
                owner,
                spender,
            },
        ),
    )
}

/// For an owner whose inner list went from `old_inner` to `new_inner`
/// while every spender other than the touched one kept its value, the
/// table-level allowances of those spenders are unchanged, and so are all
/// allowances of other owners.
proof fn lemma_inner_unchanged(
    post: Seq<(String, Vec<(String, u64)>)>,
    pre: Seq<(String, Vec<(String, u64)>)>,
    owner: Seq<char>,
    spender: Seq<char>,
    old_inner: Seq<(String, u64)>,
    new_inner: Seq<(String, u64)>,
)
    requires
        lookup(pre, owner) matches Some(v) && v@ == old_inner,
        lookup(post, owner) matches Some(v) && v@ == new_inner,
        forall|s: Seq<char>| s != spender ==> lookup(new_inner, s) == lookup(old_inner, s),
        forall|o: Seq<char>| o != owner ==> lookup(post, o) == lookup(pre, o),
    ensures
        forall|o: Seq<char>, s: Seq<char>|
            !(o == owner && s == spender) ==> allowance_of(post, o, s) == allowance_of(pre, o, s),
{
    assert forall|o: Seq<char>, s: Seq<char>| !(o == owner && s == spender) implies allowance_of(
        post,
        o,
        s,
    ) == allowance_of(pre, o, s) by {
        if o == owner {
            assert(value_of(new_inner, s) == value_of(old_inner, s));
        }
    }
}

} // verus!
