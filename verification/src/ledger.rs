//! Association lists of amounts, the model behind balances and allowances.
//!
//! A list holds `(key, amount)` entries with no key twice. A key without an
//! entry stands for the amount zero, so a list denotes a total function from
//! keys to amounts.

use vstd::prelude::*;

verus! {

/// Some entry of `s` has the key `k`.
pub open spec fn has_key<K>(s: Seq<(K, u128)>, k: K) -> bool {
    exists|i: int| 0 <= i < s.len() && (#[trigger] s[i]).0 == k
}

/// The position of an entry with the key `k`, where there is one.
pub open spec fn key_index<K>(s: Seq<(K, u128)>, k: K) -> int {
    choose|i: int| 0 <= i < s.len() && (#[trigger] s[i]).0 == k
}

/// The amount recorded under `k`, zero where `k` has no entry.
pub open spec fn amount_of<K>(s: Seq<(K, u128)>, k: K) -> u128 {
    if has_key(s, k) {
        s[key_index(s, k)].1
    } else {
        0
    }
}

/// No key occurs in two entries.
pub open spec fn distinct_keys<K>(s: Seq<(K, u128)>) -> bool {
    forall|i: int, j: int| 0 <= i < j < s.len() ==> (#[trigger] s[i]).0 != (#[trigger] s[j]).0
}

/// The sum of all recorded amounts.
pub open spec fn total<K>(s: Seq<(K, u128)>) -> int
    decreases s.len(),
{
    if s.len() == 0 {
        0
    } else {
        total(s.drop_last()) + s.last().1
    }
}

/// The total function from keys to amounts that the list denotes.
pub open spec fn amounts<K>(s: Seq<(K, u128)>) -> Map<K, u128> {
    Map::new(|k: K| true, |k: K| amount_of(s, k))
}

/// In a list without repeated keys, the amount of a key is that of its entry.
pub proof fn lemma_amount_at<K>(s: Seq<(K, u128)>, i: int)
    requires
        distinct_keys(s),
        0 <= i < s.len(),
    ensures
        has_key(s, s[i].0),
        amount_of(s, s[i].0) == s[i].1,
{
    let k = s[i].0;
    assert(has_key(s, k));
    let j: int = key_index(s, k);
    assert(0 <= j < s.len() && s[j].0 == k);
    if j < i {
        assert(s[j].0 != s[i].0);
    } else if i < j {
        assert(s[i].0 != s[j].0);
    }
}

/// The sum of a list grows by the amount of a pushed entry.
pub proof fn lemma_total_push<K>(s: Seq<(K, u128)>, e: (K, u128))
    ensures
        total(s.push(e)) == total(s) + e.1,
{
    assert(s.push(e).drop_last() =~= s);
}

/// Replacing the amount of one entry changes the sum by the difference.
pub proof fn lemma_total_update<K>(s: Seq<(K, u128)>, i: int, e: (K, u128))
    requires
        0 <= i < s.len(),
    ensures
        total(s.update(i, e)) == total(s) - s[i].1 + e.1,
    decreases s.len(),
{
    let t = s.update(i, e);
    if i == s.len() - 1 {
        assert(t.drop_last() =~= s.drop_last());
    } else {
        assert(t.drop_last() =~= s.drop_last().update(i, e));
        lemma_total_update(s.drop_last(), i, e);
    }
}

/// No entry holds more than the sum, and the sum is not negative.
pub proof fn lemma_amount_le_total<K>(s: Seq<(K, u128)>, i: int)
    requires
        0 <= i < s.len(),
    ensures
        s[i].1 <= total(s),
    decreases s.len(),
{
    lemma_total_nonnegative(s.drop_last());
    if i < s.len() - 1 {
        lemma_amount_le_total(s.drop_last(), i);
    }
}

/// The sum of a list is not negative.
pub proof fn lemma_total_nonnegative<K>(s: Seq<(K, u128)>)
    ensures
        0 <= total(s),
    decreases s.len(),
{
    if s.len() > 0 {
        lemma_total_nonnegative(s.drop_last());
    }
}

/// The amount of any key is at most the sum of the list.
pub proof fn lemma_amount_of_le_total<K>(s: Seq<(K, u128)>, k: K)
    ensures
        amount_of(s, k) <= total(s),
{
    lemma_total_nonnegative(s);
    if has_key(s, k) {
        lemma_amount_le_total(s, key_index(s, k));
    }
}

/// Writing a new amount into the entry at `i` sets the amount of its key and
/// leaves every other key as it was.
pub proof fn lemma_update_amounts<K>(s: Seq<(K, u128)>, i: int, v: u128)
    requires
        distinct_keys(s),
        0 <= i < s.len(),
    ensures
        distinct_keys(s.update(i, (s[i].0, v))),
        amounts(s.update(i, (s[i].0, v))) == amounts(s).insert(s[i].0, v),
        total(s.update(i, (s[i].0, v))) == total(s) - s[i].1 + v,
{
    let k0 = s[i].0;
    let t = s.update(i, (k0, v));
    lemma_total_update(s, i, (k0, v));
    assert(distinct_keys(t)) by {
        assert forall|a: int, b: int| 0 <= a < b < t.len() implies (#[trigger] t[a]).0 != (
        #[trigger] t[b]).0 by {
            assert(t[a].0 == s[a].0);
            assert(t[b].0 == s[b].0);
        }
    }
    assert forall|k: K| amount_of(t, k) == (if k == k0 {
        v
    } else {
        amount_of(s, k)
    }) by {
        if k == k0 {
            lemma_amount_at(t, i);
        } else if has_key(s, k) {
            let j: int = key_index(s, k);
            assert(t[j] == s[j]);
            lemma_amount_at(s, j);
            lemma_amount_at(t, j);
        } else {
            if has_key(t, k) {
                let j: int = key_index(t, k);
                assert(s[j].0 == k);
            }
        }
    }
    assert(amounts(t) =~= amounts(s).insert(k0, v));
}

/// Pushing an entry for a key that had none sets the amount of that key and
/// leaves every other key as it was.
pub proof fn lemma_push_amounts<K>(s: Seq<(K, u128)>, k0: K, v: u128)
    requires
        distinct_keys(s),
        !has_key(s, k0),
    ensures
        distinct_keys(s.push((k0, v))),
        amounts(s.push((k0, v))) == amounts(s).insert(k0, v),
        total(s.push((k0, v))) == total(s) + v,
{
    let t = s.push((k0, v));
    lemma_total_push(s, (k0, v));
    assert(distinct_keys(t)) by {
        assert forall|a: int, b: int| 0 <= a < b < t.len() implies (#[trigger] t[a]).0 != (
        #[trigger] t[b]).0 by {
            if b < s.len() {
                assert(t[a] == s[a]);
                assert(t[b] == s[b]);
            } else {
                assert(t[a] == s[a]);
            }
        }
    }
    assert forall|k: K| amount_of(t, k) == (if k == k0 {
        v
    } else {
        amount_of(s, k)
    }) by {
        if k == k0 {
            lemma_amount_at(t, s.len() as int);
        } else if has_key(s, k) {
            let j: int = key_index(s, k);
            assert(t[j] == s[j]);
            lemma_amount_at(s, j);
            lemma_amount_at(t, j);
        } else {
            if has_key(t, k) {
                let j: int = key_index(t, k);
                assert(s[j].0 == k);
            }
        }
    }
    assert(amounts(t) =~= amounts(s).insert(k0, v));
}

} // verus!
