//! Sparse string-keyed association lists.
//!
//! Balances and allowances are kept as vectors of key/value pairs with
//! pairwise-distinct keys.  The spec side reads them through `lookup`
//! (first matching key wins), and the executable helpers keep the
//! distinct-keys discipline while updating in place.

use vstd::prelude::*;

verus! {

/// The value stored under `key`, if any; first match wins.
pub open spec fn lookup<V>(entries: Seq<(String, V)>, key: Seq<char>) -> Option<V>
    decreases entries.len(),
{
    if entries.len() == 0 {
        None
    } else if entries[0].0@ == key {
        Some(entries[0].1)
    } else {
        lookup(entries.drop_first(), key)
    }
}

/// The stored amount under `key`, or 0 when the key is absent.
pub open spec fn value_of(entries: Seq<(String, u64)>, key: Seq<char>) -> u64 {
    match lookup(entries, key) {
        Some(v) => v,
        None => 0,
    }
}

/// No two entries share a key.
pub open spec fn distinct_keys<V>(entries: Seq<(String, V)>) -> bool {
    forall|i: int, j: int|
        #![trigger entries[i], entries[j]]
        0 <= i < j < entries.len() ==> entries[i].0@ != entries[j].0@
}

/// Every stored amount is strictly positive (the sparsity discipline).
pub open spec fn all_positive(entries: Seq<(String, u64)>) -> bool {
    forall|i: int| #![trigger entries[i]] 0 <= i < entries.len() ==> entries[i].1 > 0
}

/// The sum of all stored amounts.
pub open spec fn sum_values(entries: Seq<(String, u64)>) -> int
    decreases entries.len(),
{
    if entries.len() == 0 {
        0
    } else {
        entries[0].1 + sum_values(entries.drop_first())
    }
}

/// If the first `i` entries do not match `key`, the lookup is decided at `i`:
/// a match there yields its value, and running off the end yields `None`.
pub proof fn lemma_lookup_first<V>(entries: Seq<(String, V)>, key: Seq<char>, i: int)
    requires
        0 <= i <= entries.len(),
        forall|j: int| #![trigger entries[j]] 0 <= j < i ==> entries[j].0@ != key,
        i < entries.len() ==> entries[i].0@ == key,
    ensures
        lookup(entries, key) == if i == entries.len() {
            None::<V>
        } else {
            Some(entries[i].1)
        },
    decreases i,
{
    if i == 0 {
    } else {
        assert(entries[0].0@ != key);
        lemma_lookup_first(entries.drop_first(), key, i - 1);
        assert forall|j: int| 0 <= j < i - 1 implies #[trigger] entries.drop_first()[j].0@ != key by {
            assert(entries.drop_first()[j] == entries[j + 1]);
        }
    }
}

/// Appending a pair whose key is absent decides lookups: the new key maps to
/// the new value and every other key is unaffected.
pub proof fn lemma_lookup_push<V>(entries: Seq<(String, V)>, pair: (String, V), key: Seq<char>)
    requires
        forall|j: int| #![trigger entries[j]] 0 <= j < entries.len() ==> entries[j].0@ != pair.0@,
    ensures
        lookup(entries.push(pair), key) == if key == pair.0@ {
            Some(pair.1)
        } else {
            lookup(entries, key)
        },
    decreases entries.len(),
{
    if entries.len() == 0 {
        assert(entries.push(pair)[0] == pair);
        assert(entries.push(pair).len() == 1);
        assert(entries.push(pair).drop_first() =~= Seq::<(String, V)>::empty());
        if key == pair.0@ {
            assert(lookup(entries.push(pair), key) == Some(pair.1));
        } else {
            assert(lookup(Seq::<(String, V)>::empty(), key) == None::<V>);
            assert(lookup(entries.push(pair), key) == None::<V>);
        }
    } else {
        assert(entries.push(pair)[0] == entries[0]);
        assert(entries.push(pair).len() == entries.len() + 1);
        if entries[0].0@ == key {
            assert(lookup(entries.push(pair), key) == Some(entries[0].1));
            assert(lookup(entries, key) == Some(entries[0].1));
        } else {
            lemma_lookup_push(entries.drop_first(), pair, key);
            assert(entries.push(pair).drop_first() =~= entries.drop_first().push(pair));
            assert(lookup(entries.push(pair), key) == lookup(
                entries.drop_first().push(pair),
                key,
            ));
            assert(lookup(entries, key) == lookup(entries.drop_first(), key));
        }
    }
}

/// Removing the only entry holding a key erases that key and no other.
pub proof fn lemma_lookup_remove<V>(entries: Seq<(String, V)>, i: int, key: Seq<char>)
    requires
        0 <= i < entries.len(),
        forall|j: int|
            #![trigger entries[j]]
            0 <= j < entries.len() && j != i ==> entries[j].0@ != entries[i].0@,
    ensures
        lookup(entries.remove(i), key) == if key == entries[i].0@ {
            None::<V>
        } else {
            lookup(entries, key)
        },
    decreases entries.len(),
{
    entries.remove_ensures(i);
    if i == 0 {
        assert(entries.remove(0) =~= entries.drop_first());
        if key == entries[0].0@ {
            lemma_lookup_first(entries.drop_first(), key, entries.len() - 1);
            assert forall|j: int| 0 <= j < entries.len() - 1 implies #[trigger] entries
                .drop_first()[j].0@ != key by {
                assert(entries.drop_first()[j] == entries[j + 1]);
            }
        }
    } else {
        assert(entries.remove(i)[0] == entries[0]);
        if entries[0].0@ == key {
        } else {
            lemma_lookup_remove(entries.drop_first(), i - 1, key);
            assert(entries.drop_first()[i - 1] == entries[i]);
            assert forall|j: int|
                0 <= j < entries.drop_first().len() && j != i - 1 implies #[trigger] entries
                .drop_first()[j].0@ != entries.drop_first()[i - 1].0@ by {
                assert(entries.drop_first()[j] == entries[j + 1]);
            }
            assert(entries.remove(i).drop_first() =~= entries.drop_first().remove(i - 1));
        }
    }
}

/// Overwriting the first entry holding a key redefines that key and no other.
pub proof fn lemma_lookup_update<V>(
    entries: Seq<(String, V)>,
    i: int,
    pair: (String, V),
    key: Seq<char>,
)
    requires
        0 <= i < entries.len(),
        pair.0@ == entries[i].0@,
        forall|j: int| #![trigger entries[j]] 0 <= j < i ==> entries[j].0@ != entries[i].0@,
    ensures
        lookup(entries.update(i, pair), key) == if key == pair.0@ {
            Some(pair.1)
        } else {
            lookup(entries, key)
        },
    decreases i,
{
    if i == 0 {
        assert(entries.update(0, pair)[0] == pair);
        if key == pair.0@ {
        } else {
            assert(entries.update(0, pair).drop_first() =~= entries.drop_first());
        }
    } else {
        assert(entries.update(i, pair)[0] == entries[0]);
        if entries[0].0@ == key {
            assert(entries[0].0@ != entries[i].0@);
        } else {
            lemma_lookup_update(entries.drop_first(), i - 1, pair, key);
            assert(entries.drop_first()[i - 1] == entries[i]);
            assert forall|j: int| 0 <= j < i - 1 implies #[trigger] entries.drop_first()[j].0@
                != entries.drop_first()[i - 1].0@ by {
                assert(entries.drop_first()[j] == entries[j + 1]);
            }
            assert(entries.update(i, pair).drop_first() =~= entries.drop_first().update(
                i - 1,
                pair,
            ));
        }
    }
}

/// Appending a pair grows the sum by its amount.
pub proof fn lemma_sum_push(entries: Seq<(String, u64)>, pair: (String, u64))
    ensures
        sum_values(entries.push(pair)) == sum_values(entries) + pair.1,
    decreases entries.len(),
{
    if entries.len() == 0 {
        assert(entries.push(pair)[0] == pair);
        assert(entries.push(pair).drop_first() =~= Seq::<(String, u64)>::empty());
        assert(sum_values(Seq::<(String, u64)>::empty()) == 0);
        assert(sum_values(entries.push(pair)) == pair.1 + sum_values(
            entries.push(pair).drop_first(),
        ));
    } else {
        assert(entries.push(pair)[0] == entries[0]);
        assert(entries.push(pair).len() == entries.len() + 1);
        lemma_sum_push(entries.drop_first(), pair);
        assert(entries.push(pair).drop_first() =~= entries.drop_first().push(pair));
        assert(sum_values(entries.push(pair)) == entries[0].1 + sum_values(
            entries.drop_first().push(pair),
        ));
        assert(sum_values(entries) == entries[0].1 + sum_values(entries.drop_first()));
    }
}

/// Removing an entry shrinks the sum by its amount.
pub proof fn lemma_sum_remove(entries: Seq<(String, u64)>, i: int)
    requires
        0 <= i < entries.len(),
    ensures
        sum_values(entries.remove(i)) == sum_values(entries) - entries[i].1,
    decreases i,
{
    if i == 0 {
        assert(entries.remove(0) =~= entries.drop_first());
    } else {
        assert(entries.remove(i)[0] == entries[0]);
        lemma_sum_remove(entries.drop_first(), i - 1);
        assert(entries.drop_first()[i - 1] == entries[i]);
        assert(entries.remove(i).drop_first() =~= entries.drop_first().remove(i - 1));
    }
}

/// Overwriting an entry moves the sum by the difference of the amounts.
pub proof fn lemma_sum_update(entries: Seq<(String, u64)>, i: int, pair: (String, u64))
    requires
        0 <= i < entries.len(),
    ensures
        sum_values(entries.update(i, pair)) == sum_values(entries) - entries[i].1 + pair.1,
    decreases i,
{
    if i == 0 {
        assert(entries.update(0, pair)[0] == pair);
        assert(entries.update(0, pair).drop_first() =~= entries.drop_first());
    } else {
        assert(entries.update(i, pair)[0] == entries[0]);
        lemma_sum_update(entries.drop_first(), i - 1, pair);
        assert(entries.drop_first()[i - 1] == entries[i]);
        assert(entries.update(i, pair).drop_first() =~= entries.drop_first().update(i - 1, pair));
    }
}

/// The sum is nonnegative and bounds every stored amount.
pub proof fn lemma_value_le_sum(entries: Seq<(String, u64)>, key: Seq<char>)
    ensures
        sum_values(entries) >= 0,
        value_of(entries, key) <= sum_values(entries),
    decreases entries.len(),
{
    if entries.len() == 0 {
    } else {
        lemma_value_le_sum(entries.drop_first(), key);
    }
}

/// Index of the first entry holding `key`, if any.
pub(crate) fn find_key<V>(entries: &Vec<(String, V)>, key: &String) -> (r: Option<usize>)
    ensures
        match r {
            Some(i) => i < entries@.len() && entries@[i as int].0@ == key@ && (forall|j: int|
                #![trigger entries@[j]]
                0 <= j < i ==> entries@[j].0@ != key@),
            None => forall|j: int|
                #![trigger entries@[j]]
                0 <= j < entries@.len() ==> entries@[j].0@ != key@,
        },
{
    let mut i: usize = 0;
    while i < entries.len()
        invariant
            i <= entries@.len(),
            forall|j: int| #![trigger entries@[j]] 0 <= j < i ==> entries@[j].0@ != key@,
        decreases entries@.len() - i,
    {
        if entries[i].0 == *key {
            return Some(i);
        }
        i = i + 1;
    }
    None
}

/// The stored amount under `key`, or 0 when the key is absent.
pub fn get_value(entries: &Vec<(String, u64)>, key: &String) -> (r: u64)
    ensures
        r == value_of(entries@, key@),
{
    match find_key(entries, key) {
        Some(i) => {
            proof {
                lemma_lookup_first(entries@, key@, i as int);
            }
            entries[i].1
        },
        None => {
            proof {
                lemma_lookup_first(entries@, key@, entries@.len() as int);
            }
            0
        },
    }
}

/// Store `val` under `key`, overwriting a present entry or appending a new one.
pub fn set_value(entries: &mut Vec<(String, u64)>, key: &String, val: u64)
    requires
        distinct_keys(old(entries)@),
    ensures
        distinct_keys(final(entries)@),
        lookup(final(entries)@, key@) == Some(val),
        value_of(final(entries)@, key@) == val,
        forall|k: Seq<char>| k != key@ ==> lookup(final(entries)@, k) == lookup(
            old(entries)@,
            k,
        ),
        sum_values(final(entries)@) == sum_values(old(entries)@) - value_of(old(entries)@, key@)
            + val,
        all_positive(old(entries)@) && val > 0 ==> all_positive(final(entries)@),
{
    let ghost pre = entries@;
    match find_key(entries, key) {
        Some(i) => {
            proof {
                lemma_lookup_first(pre, key@, i as int);
            }
            let e = &mut entries[i];
            e.1 = val;
            proof {
                let pair = entries@[i as int];
                assert(entries@ == pre.update(i as int, pair));
                assert(pair.0@ == key@ && pair.1 == val);
                lemma_lookup_update(pre, i as int, pair, key@);
                assert forall|k: Seq<char>| k != key@ implies lookup(entries@, k) == lookup(
                    pre,
                    k,
                ) by {
                    lemma_lookup_update(pre, i as int, pair, k);
                }
                lemma_sum_update(pre, i as int, pair);
                assert(distinct_keys(entries@));
                assert(all_positive(pre) && val > 0 ==> all_positive(entries@));
            }
        },
        None => {
            proof {
                lemma_lookup_first(pre, key@, pre.len() as int);
            }
            let k = key.clone();
            entries.push((k, val));
            proof {
                let pair = entries@.last();
                assert(entries@ == pre.push(pair));
                assert(pair.0@ == key@ && pair.1 == val);
                lemma_lookup_push(pre, pair, key@);
                assert forall|k2: Seq<char>| k2 != key@ implies lookup(entries@, k2) == lookup(
                    pre,
                    k2,
                ) by {
                    lemma_lookup_push(pre, pair, k2);
                }
                lemma_sum_push(pre, pair);
                assert(distinct_keys(entries@));
                assert(all_positive(pre) && val > 0 ==> all_positive(entries@));
            }
        },
    }
}

/// Drop the entry under `key`, if present.
pub fn remove_value(entries: &mut Vec<(String, u64)>, key: &String)
    requires
        distinct_keys(old(entries)@),
    ensures
        distinct_keys(final(entries)@),
        lookup(final(entries)@, key@) == None::<u64>,
        value_of(final(entries)@, key@) == 0,
        forall|k: Seq<char>| k != key@ ==> lookup(final(entries)@, k) == lookup(
            old(entries)@,
            k,
        ),
        sum_values(final(entries)@) == sum_values(old(entries)@) - value_of(old(entries)@, key@),
        all_positive(old(entries)@) ==> all_positive(final(entries)@),
        lookup(old(entries)@, key@) == None::<u64> ==> final(entries)@ == old(entries)@,
        lookup(old(entries)@, key@) is Some ==> final(entries)@.len() == old(entries)@.len() - 1,
{
    let ghost pre = entries@;
    match find_key(entries, key) {
        Some(i) => {
            proof {
                lemma_lookup_first(pre, key@, i as int);
                assert forall|j: int|
                    0 <= j < pre.len() && j != i implies #[trigger] pre[j].0@ != pre[i as int].0@
                by {}
            }
            entries.remove(i);
            proof {
                assert(entries@ == pre.remove(i as int));
                pre.remove_ensures(i as int);
                lemma_lookup_remove(pre, i as int, key@);
                assert forall|k: Seq<char>| k != key@ implies lookup(entries@, k) == lookup(
                    pre,
                    k,
                ) by {
                    lemma_lookup_remove(pre, i as int, k);
                }
                lemma_sum_remove(pre, i as int);
                assert(distinct_keys(entries@));
                assert(all_positive(pre) ==> all_positive(entries@));
            }
        },
        None => {
            proof {
                lemma_lookup_first(pre, key@, pre.len() as int);
            }
        },
    }
}

} // verus!
