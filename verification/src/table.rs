//! Persistent-storage maps, modelled as association lists with pairwise
//! distinct keys. `IdTable` keys single ids and also tracks the sum of its
//! values, which the ledgers tie to their total supply; `PairTable` keys
//! ordered id pairs and backs the allowance maps.

use vstd::prelude::*;
use vstd::std_specs::vec::vec_index_mut;

verus! {

/// The map an entry list denotes; a later entry for a key overrides an
/// earlier one (well-formed tables never hold two entries for one key).
spec fn entries_map(s: Seq<(u128, u128)>) -> Map<u128, u128>
    decreases s.len(),
{
    if s.len() == 0 {
        Map::empty()
    } else {
        entries_map(s.drop_last()).insert(s.last().0, s.last().1)
    }
}

/// The sum of all values in an entry list.
spec fn entries_sum(s: Seq<(u128, u128)>) -> int
    decreases s.len(),
{
    if s.len() == 0 {
        0
    } else {
        entries_sum(s.drop_last()) + s.last().1
    }
}

/// No key occurs twice.
spec fn distinct_keys(s: Seq<(u128, u128)>) -> bool {
    forall|i: int, j: int| 0 <= i < j < s.len() ==> s[i].0 != s[j].0
}

/// A key is in the denoted map exactly when some entry carries it.
proof fn lemma_entries_map_contains(s: Seq<(u128, u128)>, k: u128)
    ensures
        entries_map(s).contains_key(k) <==> exists|i: int| 0 <= i < s.len() && s[i].0 == k,
    decreases s.len(),
{
    if s.len() > 0 {
        lemma_entries_map_contains(s.drop_last(), k);
        if s.last().0 == k {
            assert(s[s.len() - 1].0 == k);
        } else if entries_map(s).contains_key(k) {
            let i = choose|i: int| 0 <= i < s.drop_last().len() && s.drop_last()[i].0 == k;
            assert(s[i].0 == k);
        } else if exists|i: int| 0 <= i < s.len() && s[i].0 == k {
            let i = choose|i: int| 0 <= i < s.len() && s[i].0 == k;
            assert(s.drop_last()[i].0 == k);
        }
    }
}

/// In a well-formed list the entry at `i` gives the denoted value of its key.
proof fn lemma_entries_map_index(s: Seq<(u128, u128)>, i: int)
    requires
        distinct_keys(s),
        0 <= i < s.len(),
    ensures
        entries_map(s).contains_key(s[i].0),
        entries_map(s)[s[i].0] == s[i].1,
    decreases s.len(),
{
    if i == s.len() - 1 {
    } else {
        assert(distinct_keys(s.drop_last()));
        lemma_entries_map_index(s.drop_last(), i);
        assert(s.drop_last()[i] == s[i]);
        assert(s[i].0 != s.last().0);
    }
}

/// Replacing the entry at `i` by `(k, v)` (where entry `i` already carried
/// key `k`) denotes a plain map update and shifts the sum by the change.
proof fn lemma_entries_update(s: Seq<(u128, u128)>, i: int, k: u128, v: u128)
    requires
        distinct_keys(s),
        0 <= i < s.len(),
        s[i].0 == k,
    ensures
        distinct_keys(s.update(i, (k, v))),
        entries_map(s.update(i, (k, v))) == entries_map(s).insert(k, v),
        entries_sum(s.update(i, (k, v))) == entries_sum(s) - s[i].1 + v,
    decreases s.len(),
{
    let t = s.update(i, (k, v));
    assert(t.len() == s.len());
    assert forall|a: int, b: int| 0 <= a < b < t.len() implies t[a].0 != t[b].0 by {
        assert(s[a].0 != s[b].0);
    }
    if i == s.len() - 1 {
        assert(t.drop_last() =~= s.drop_last());
        assert(t.last() == (k, v));
        assert(entries_map(t) == entries_map(s.drop_last()).insert(k, v));
        assert(entries_map(s) == entries_map(s.drop_last()).insert(k, s[i].1));
        assert(entries_map(s.drop_last()).insert(k, v)
            =~= entries_map(s.drop_last()).insert(k, s[i].1 as u128).insert(k, v));
    } else {
        assert(distinct_keys(s.drop_last()));
        lemma_entries_update(s.drop_last(), i, k, v);
        assert(t.drop_last() =~= s.drop_last().update(i, (k, v)));
        assert(t.last() == s.last());
        assert(s[i].0 != s.last().0);
        assert(entries_map(t) == entries_map(s.drop_last()).insert(k, v).insert(s.last().0, s.last().1));
        assert(entries_map(s.drop_last()).insert(k, v).insert(s.last().0, s.last().1)
            =~= entries_map(s.drop_last()).insert(s.last().0, s.last().1).insert(k, v));
        assert(s.drop_last()[i] == s[i]);
    }
}

/// Appending an entry for a fresh key denotes a plain map insert and adds
/// its value to the sum.
proof fn lemma_entries_push(s: Seq<(u128, u128)>, k: u128, v: u128)
    requires
        distinct_keys(s),
        forall|i: int| 0 <= i < s.len() ==> s[i].0 != k,
    ensures
        distinct_keys(s.push((k, v))),
        entries_map(s.push((k, v))) == entries_map(s).insert(k, v),
        entries_sum(s.push((k, v))) == entries_sum(s) + v,
{
    let t = s.push((k, v));
    assert(t.drop_last() =~= s);
    assert(t.last() == (k, v));
    assert forall|a: int, b: int| 0 <= a < b < t.len() implies t[a].0 != t[b].0 by {
        if b < t.len() - 1 {
            assert(s[a].0 != s[b].0);
        } else {
            assert(t[a] == s[a]);
        }
    }
}

/// The sum of an entry list is never negative.
proof fn lemma_entries_sum_nonneg(s: Seq<(u128, u128)>)
    ensures
        0 <= entries_sum(s),
    decreases s.len(),
{
    if s.len() > 0 {
        lemma_entries_sum_nonneg(s.drop_last());
    }
}

/// In a well-formed list, every single value is bounded by the sum.
proof fn lemma_entry_le_sum(s: Seq<(u128, u128)>, k: u128)
    requires
        distinct_keys(s),
        entries_map(s).contains_key(k),
    ensures
        entries_map(s)[k] <= entries_sum(s),
    decreases s.len(),
{
    lemma_entries_map_contains(s, k);
    if s.last().0 == k {
        lemma_entries_sum_nonneg(s.drop_last());
    } else {
        assert(distinct_keys(s.drop_last()));
        lemma_entries_map_contains(s.drop_last(), k);
        lemma_entry_le_sum(s.drop_last(), k);
    }
}

/// In a well-formed list, any two values under distinct keys are jointly
/// bounded by the sum.
proof fn lemma_two_entries_le_sum(s: Seq<(u128, u128)>, a: u128, b: u128)
    requires
        distinct_keys(s),
        a != b,
    ensures
        map_get_or_zero(entries_map(s), a) + map_get_or_zero(entries_map(s), b) <= entries_sum(s),
    decreases s.len(),
{
    if s.len() > 0 {
        let dl = s.drop_last();
        assert(distinct_keys(dl));
        lemma_two_entries_le_sum(dl, a, b);
        let k = s.last().0;
        if k == a {
            if entries_map(dl).contains_key(b) {
                lemma_entry_le_sum(dl, b);
            } else {
                lemma_entries_sum_nonneg(dl);
            }
        } else if k == b {
            if entries_map(dl).contains_key(a) {
                lemma_entry_le_sum(dl, a);
            } else {
                lemma_entries_sum_nonneg(dl);
            }
        }
    }
}

/// Reads a map the way the ledgers do: an absent key stands for zero.
pub open spec fn map_get_or_zero(m: Map<u128, u128>, k: u128) -> u128 {
    if m.contains_key(k) {
        m[k]
    } else {
        0
    }
}

/// The balance map after moving `value` from `from` to `to`, debiting
/// before crediting, so a self-transfer leaves the balance as it was.
pub open spec fn spec_transfer_balances(pre: Map<u128, u128>, from: u128, to: u128, value: u128) -> Map<u128, u128> {
    let from_balance = map_get_or_zero(pre, from);
    let mid = if to == from {
        (from_balance - value) as u128
    } else {
        map_get_or_zero(pre, to)
    };
    pre.insert(from, (from_balance - value) as u128).insert(to, (mid + value) as u128)
}

/// A storage map from ids to 128-bit values; keys never repeat, absent keys
/// read as zero, and the sum of all values is tracked for the conservation
/// arguments of the ledgers built on top.
#[derive(Clone)]
pub struct IdTable {
    entries: Vec<(u128, u128)>,
}

impl View for IdTable {
    type V = Map<u128, u128>;

    closed spec fn view(&self) -> Map<u128, u128> {
        entries_map(self.entries@)
    }
}

impl IdTable {
    /// Keys are pairwise distinct.
    pub closed spec fn wf(self) -> bool {
        distinct_keys(self.entries@)
    }

    /// The sum of all stored values.
    pub closed spec fn sum(self) -> int {
        entries_sum(self.entries@)
    }

    /// The stored value, with absent keys reading as zero.
    pub open spec fn spec_get(self, key: u128) -> u128 {
        if self@.contains_key(key) {
            self@[key]
        } else {
            0
        }
    }

    /// Every stored value is bounded by the sum, and the sum is never
    /// negative.
    pub proof fn lemma_le_sum(self, key: u128)
        requires
            self.wf(),
        ensures
            0 <= self.sum(),
            self.spec_get(key) <= self.sum(),
    {
        lemma_entries_sum_nonneg(self.entries@);
        if self@.contains_key(key) {
            lemma_entry_le_sum(self.entries@, key);
        }
    }

    /// Any two holdings under distinct keys are jointly bounded by the
    /// sum.
    pub proof fn lemma_two_le_sum(self, a: u128, b: u128)
        requires
            self.wf(),
            a != b,
        ensures
            self.spec_get(a) + self.spec_get(b) <= self.sum(),
    {
        lemma_two_entries_le_sum(self.entries@, a, b);
    }

    pub fn new() -> (t: Self)
        ensures
            t.wf(),
            t@ == Map::<u128, u128>::empty(),
            t.sum() == 0,
    {
        IdTable { entries: Vec::new() }
    }

    pub fn contains(&self, key: u128) -> (b: bool)
        requires
            self.wf(),
        ensures
            b == self@.contains_key(key),
    {
        let n = self.entries.len();
        let mut i: usize = 0;
        while i < n
            invariant
                self.wf(),
                n == self.entries.len(),
                0 <= i <= n,
                forall|j: int| 0 <= j < i ==> self.entries@[j].0 != key,
            decreases n - i,
        {
            if self.entries[i].0 == key {
                proof {
                    lemma_entries_map_contains(self.entries@, key);
                }
                return true;
            }
            i += 1;
        }
        proof {
            lemma_entries_map_contains(self.entries@, key);
        }
        false
    }

    pub fn lookup(&self, key: u128) -> (v: u128)
        requires
            self.wf(),
        ensures
            v == self.spec_get(key),
    {
        let n = self.entries.len();
        let mut i: usize = 0;
        while i < n
            invariant
                self.wf(),
                n == self.entries.len(),
                0 <= i <= n,
                forall|j: int| 0 <= j < i ==> self.entries@[j].0 != key,
            decreases n - i,
        {
            if self.entries[i].0 == key {
                proof {
                    lemma_entries_map_index(self.entries@, i as int);
                }
                return self.entries[i].1;
            }
            i += 1;
        }
        proof {
            lemma_entries_map_contains(self.entries@, key);
        }
        0
    }

    pub fn set(&mut self, key: u128, value: u128)
        requires
            old(self).wf(),
        ensures
            final(self).wf(),
            final(self)@ == old(self)@.insert(key, value),
            final(self).sum() == old(self).sum() - old(self).spec_get(key) + value,
    {
        let n = self.entries.len();
        let mut i: usize = 0;
        while i < n
            invariant
                self.wf(),
                n == self.entries.len(),
                0 <= i <= n,
                *self == *old(self),
                forall|j: int| 0 <= j < i ==> self.entries@[j].0 != key,
            decreases n - i,
        {
            if self.entries[i].0 == key {
                proof {
                    lemma_entries_map_index(self.entries@, i as int);
                    lemma_entries_update(self.entries@, i as int, key, value);
                }
                let slot = vec_index_mut(&mut self.entries, i);
                *slot = (key, value);
                return;
            }
            i += 1;
        }
        proof {
            lemma_entries_map_contains(self.entries@, key);
            lemma_entries_push(self.entries@, key, value);
        }
        self.entries.push((key, value));
    }
}

/// The map a pair-keyed entry list denotes.
spec fn pair_entries_map(s: Seq<(u128, u128, u128)>) -> Map<(u128, u128), u128>
    decreases s.len(),
{
    if s.len() == 0 {
        Map::empty()
    } else {
        pair_entries_map(s.drop_last()).insert((s.last().0, s.last().1), s.last().2)
    }
}

/// No key pair occurs twice.
spec fn distinct_pair_keys(s: Seq<(u128, u128, u128)>) -> bool {
    forall|i: int, j: int|
        0 <= i < j < s.len() ==> !(s[i].0 == s[j].0 && s[i].1 == s[j].1)
}

/// A key pair is in the denoted map exactly when some entry carries it.
proof fn lemma_pair_entries_map_contains(s: Seq<(u128, u128, u128)>, a: u128, b: u128)
    ensures
        pair_entries_map(s).contains_key((a, b)) <==> exists|i: int|
            0 <= i < s.len() && s[i].0 == a && s[i].1 == b,
    decreases s.len(),
{
    if s.len() > 0 {
        lemma_pair_entries_map_contains(s.drop_last(), a, b);
        if s.last().0 == a && s.last().1 == b {
            assert(s[s.len() - 1].0 == a && s[s.len() - 1].1 == b);
        } else if pair_entries_map(s).contains_key((a, b)) {
            let i = choose|i: int|
                0 <= i < s.drop_last().len() && s.drop_last()[i].0 == a && s.drop_last()[i].1 == b;
            assert(s[i].0 == a && s[i].1 == b);
        } else if exists|i: int| 0 <= i < s.len() && s[i].0 == a && s[i].1 == b {
            let i = choose|i: int| 0 <= i < s.len() && s[i].0 == a && s[i].1 == b;
            assert(s.drop_last()[i].0 == a && s.drop_last()[i].1 == b);
        }
    }
}

/// In a well-formed list the entry at `i` gives the denoted value of its
/// key pair.
proof fn lemma_pair_entries_map_index(s: Seq<(u128, u128, u128)>, i: int)
    requires
        distinct_pair_keys(s),
        0 <= i < s.len(),
    ensures
        pair_entries_map(s).contains_key((s[i].0, s[i].1)),
        pair_entries_map(s)[(s[i].0, s[i].1)] == s[i].2,
    decreases s.len(),
{
    if i == s.len() - 1 {
    } else {
        assert(distinct_pair_keys(s.drop_last()));
        lemma_pair_entries_map_index(s.drop_last(), i);
        assert(s.drop_last()[i] == s[i]);
        assert(!(s[i].0 == s.last().0 && s[i].1 == s.last().1));
    }
}

/// Replacing the entry at `i` (which already carries the key pair) denotes
/// a plain map update.
proof fn lemma_pair_entries_update(s: Seq<(u128, u128, u128)>, i: int, a: u128, b: u128, v: u128)
    requires
        distinct_pair_keys(s),
        0 <= i < s.len(),
        s[i].0 == a,
        s[i].1 == b,
    ensures
        distinct_pair_keys(s.update(i, (a, b, v))),
        pair_entries_map(s.update(i, (a, b, v))) == pair_entries_map(s).insert((a, b), v),
    decreases s.len(),
{
    let t = s.update(i, (a, b, v));
    assert forall|x: int, y: int| 0 <= x < y < t.len() implies !(t[x].0 == t[y].0 && t[x].1 == t[y].1) by {
        assert(!(s[x].0 == s[y].0 && s[x].1 == s[y].1));
    }
    if i == s.len() - 1 {
        assert(t.drop_last() =~= s.drop_last());
        assert(t.last() == (a, b, v));
        assert(pair_entries_map(s.drop_last()).insert((a, b), v)
            =~= pair_entries_map(s.drop_last()).insert((a, b), s[i].2 as u128).insert((a, b), v));
    } else {
        assert(distinct_pair_keys(s.drop_last()));
        lemma_pair_entries_update(s.drop_last(), i, a, b, v);
        assert(t.drop_last() =~= s.drop_last().update(i, (a, b, v)));
        assert(t.last() == s.last());
        assert(!(s[i].0 == s.last().0 && s[i].1 == s.last().1));
        assert(pair_entries_map(s.drop_last()).insert((a, b), v).insert((s.last().0, s.last().1), s.last().2)
            =~= pair_entries_map(s.drop_last()).insert((s.last().0, s.last().1), s.last().2).insert((a, b), v));
        assert(s.drop_last()[i] == s[i]);
    }
}

/// Appending an entry for a fresh key pair denotes a plain map insert.
proof fn lemma_pair_entries_push(s: Seq<(u128, u128, u128)>, a: u128, b: u128, v: u128)
    requires
        distinct_pair_keys(s),
        forall|i: int| 0 <= i < s.len() ==> !(s[i].0 == a && s[i].1 == b),
    ensures
        distinct_pair_keys(s.push((a, b, v))),
        pair_entries_map(s.push((a, b, v))) == pair_entries_map(s).insert((a, b), v),
{
    let t = s.push((a, b, v));
    assert(t.drop_last() =~= s);
    assert(t.last() == (a, b, v));
    assert forall|x: int, y: int| 0 <= x < y < t.len() implies !(t[x].0 == t[y].0 && t[x].1 == t[y].1) by {
        if y < t.len() - 1 {
            assert(!(s[x].0 == s[y].0 && s[x].1 == s[y].1));
        } else {
            assert(t[x] == s[x]);
        }
    }
}

/// A storage map from ordered id pairs to 128-bit values; keys never
/// repeat and absent keys read as zero.
#[derive(Clone)]
pub struct PairTable {
    entries: Vec<(u128, u128, u128)>,
}

impl View for PairTable {
    type V = Map<(u128, u128), u128>;

    closed spec fn view(&self) -> Map<(u128, u128), u128> {
        pair_entries_map(self.entries@)
    }
}

impl PairTable {
    /// Key pairs are pairwise distinct.
    pub closed spec fn wf(self) -> bool {
        distinct_pair_keys(self.entries@)
    }

    /// The stored value, with absent key pairs reading as zero.
    pub open spec fn spec_get(self, a: u128, b: u128) -> u128 {
        if self@.contains_key((a, b)) {
            self@[(a, b)]
        } else {
            0
        }
    }

    pub fn new() -> (t: Self)
        ensures
            t.wf(),
            t@ == Map::<(u128, u128), u128>::empty(),
    {
        PairTable { entries: Vec::new() }
    }

    pub fn lookup(&self, a: u128, b: u128) -> (v: u128)
        requires
            self.wf(),
        ensures
            v == self.spec_get(a, b),
    {
        let n = self.entries.len();
        let mut i: usize = 0;
        while i < n
            invariant
                self.wf(),
                n == self.entries.len(),
                0 <= i <= n,
                forall|j: int| 0 <= j < i ==> !(self.entries@[j].0 == a && self.entries@[j].1 == b),
            decreases n - i,
        {
            if self.entries[i].0 == a && self.entries[i].1 == b {
                proof {
                    lemma_pair_entries_map_index(self.entries@, i as int);
                }
                return self.entries[i].2;
            }
            i += 1;
        }
        proof {
            lemma_pair_entries_map_contains(self.entries@, a, b);
        }
        0
    }

    pub fn set(&mut self, a: u128, b: u128, value: u128)
        requires
            old(self).wf(),
        ensures
            final(self).wf(),
            final(self)@ == old(self)@.insert((a, b), value),
    {
        let n = self.entries.len();
        let mut i: usize = 0;
        while i < n
            invariant
                self.wf(),
                n == self.entries.len(),
                0 <= i <= n,
                *self == *old(self),
                forall|j: int| 0 <= j < i ==> !(self.entries@[j].0 == a && self.entries@[j].1 == b),
            decreases n - i,
        {
            if self.entries[i].0 == a && self.entries[i].1 == b {
                proof {
                    lemma_pair_entries_update(self.entries@, i as int, a, b, value);
                }
                let slot = vec_index_mut(&mut self.entries, i);
                *slot = (a, b, value);
                return;
            }
            i += 1;
        }
        proof {
            lemma_pair_entries_push(self.entries@, a, b, value);
        }
        self.entries.push((a, b, value));
    }
}

} // verus!
