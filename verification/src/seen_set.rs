//! A set of recent keys with a bounded size.

use std::collections::BTreeMap;
use vstd::hash_map::StringHashMap;
use vstd::prelude::*;

verus! {

/// Keys seen so far, at most `capacity` of them. The key that has gone unseen the longest leaves
/// first: a key that is still observed outlives keys that are not.
pub struct BoundedSeenSet {
    seen: StringHashMap<u128>,
    order: BTreeMap<u128, String>,
    next_seq: u128,
    count: usize,
    capacity: usize,
}

/// `BTreeMap::pop_first` takes out the entry with the least key, where there is one.
#[verifier::external_body]
fn pop_first(m: &mut BTreeMap<u128, String>) -> (r: Option<(u128, String)>)
    ensures
        match r {
            Some(e) => {
                &&& old(m)@.contains_key(e.0)
                &&& old(m)@[e.0] == e.1
                &&& forall|k: u128| old(m)@.contains_key(k) ==> e.0 <= k
                &&& final(m)@ == old(m)@.remove(e.0)
            },
            None => old(m)@ == Map::<u128, String>::empty() && final(m)@ == old(m)@,
        },
{
    m.pop_first()
}

/// The values of a map at the keys below `n`, in the order of the keys.
spec fn listed(m: Map<u128, String>, n: nat) -> Seq<Seq<char>>
    decreases n,
{
    if n == 0 {
        Seq::empty()
    } else if m.contains_key((n - 1) as u128) {
        listed(m, (n - 1) as nat).push(m[(n - 1) as u128]@)
    } else {
        listed(m, (n - 1) as nat)
    }
}

/// `keys` without `key`.
pub open spec fn without(keys: Seq<Seq<char>>, key: Seq<char>) -> Seq<Seq<char>>
    decreases keys.len(),
{
    if keys.len() == 0 {
        keys
    } else if keys.last() == key {
        without(keys.drop_last(), key)
    } else {
        without(keys.drop_last(), key).push(keys.last())
    }
}

/// The keys after one more sighting of `key`: it is now the most recent one, and where the keys
/// exceed the capacity, the least recent one is gone.
pub open spec fn after_sighting(keys: Seq<Seq<char>>, key: Seq<char>, capacity: nat) -> Seq<
    Seq<char>,
> {
    let all = without(keys, key).push(key);
    if all.len() > capacity {
        all.subrange(1, all.len() as int)
    } else {
        all
    }
}

proof fn lemma_listed_same(a: Map<u128, String>, b: Map<u128, String>, n: nat)
    requires
        n <= u128::MAX,
        forall|k: u128| k < n ==> a.contains_key(k) == b.contains_key(k),
        forall|k: u128| k < n && a.contains_key(k) ==> a[k] == b[k],
    ensures
        listed(a, n) == listed(b, n),
    decreases n,
{
    if n > 0 {
        lemma_listed_same(a, b, (n - 1) as nat);
    }
}

/// A listed value stands at some key, and the value at a key is listed.
proof fn lemma_listed_contains(m: Map<u128, String>, n: nat, v: Seq<char>)
    requires
        n <= u128::MAX,
    ensures
        listed(m, n).contains(v) <==> exists|k: u128| k < n && #[trigger] m.contains_key(k) && m[k]@
            == v,
    decreases n,
{
    if n > 0 {
        let last = (n - 1) as u128;
        let before = listed(m, (n - 1) as nat);
        lemma_listed_contains(m, (n - 1) as nat, v);
        if m.contains_key(last) {
            let now = before.push(m[last]@);
            if now.contains(v) {
                let i = choose|i: int| 0 <= i < now.len() && now[i] == v;
                if i < before.len() {
                    assert(before[i] == v);
                    let k = choose|k: u128| k < n - 1 && #[trigger] m.contains_key(k) && m[k]@ == v;
                    assert(m.contains_key(k));
                } else {
                    assert(m.contains_key(last));
                }
            }
            if exists|k: u128| k < n && #[trigger] m.contains_key(k) && m[k]@ == v {
                let k = choose|k: u128| k < n && #[trigger] m.contains_key(k) && m[k]@ == v;
                if k < last {
                    assert(before.contains(v));
                    let i = choose|i: int| 0 <= i < before.len() && before[i] == v;
                    assert(now[i] == v);
                } else {
                    assert(now[before.len() as int] == v);
                }
            }
        }
    }
}

/// Removing the only entry with a value removes the value from the list.
proof fn lemma_listed_remove(m: Map<u128, String>, n: nat, p: u128)
    requires
        n <= u128::MAX,
        m.contains_key(p),
        forall|k: u128| m.contains_key(k) && k != p ==> m[k]@ != m[p]@,
    ensures
        listed(m.remove(p), n) == without(listed(m, n), m[p]@),
    decreases n,
{
    if n > 0 {
        let last = (n - 1) as u128;
        let before = listed(m, (n - 1) as nat);
        lemma_listed_remove(m, (n - 1) as nat, p);
        if m.contains_key(last) {
            let now = before.push(m[last]@);
            assert(now.drop_last() =~= before);
        }
    }
}

proof fn lemma_without_absent(keys: Seq<Seq<char>>, key: Seq<char>)
    requires
        !keys.contains(key),
    ensures
        without(keys, key) == keys,
    decreases keys.len(),
{
    if keys.len() > 0 {
        assert(keys[keys.len() - 1] == keys.last());
        assert forall|i: int| 0 <= i < keys.drop_last().len() implies keys.drop_last()[i] != key by {
            assert(keys[i] != key);
        }
        lemma_without_absent(keys.drop_last(), key);
        assert(keys.drop_last().push(keys.last()) =~= keys);
    }
}

/// Nothing is listed below the least key.
proof fn lemma_listed_below(m: Map<u128, String>, n: nat)
    requires
        n <= u128::MAX,
        forall|k: u128| k < n ==> !m.contains_key(k),
    ensures
        listed(m, n) == Seq::<Seq<char>>::empty(),
    decreases n,
{
    if n > 0 {
        lemma_listed_below(m, (n - 1) as nat);
    }
}

/// The value at the least key is listed first.
proof fn lemma_listed_first(m: Map<u128, String>, n: nat, k: u128)
    requires
        n <= u128::MAX,
        k < n,
        m.contains_key(k),
        forall|j: u128| m.contains_key(j) ==> k <= j,
    ensures
        listed(m, n) == seq![m[k]@] + listed(m.remove(k), n),
    decreases n,
{
    let last = (n - 1) as u128;
    if last == k {
        lemma_listed_below(m, (n - 1) as nat);
        lemma_listed_same(m, m.remove(k), (n - 1) as nat);
        assert(listed(m, n) =~= seq![m[k]@] + listed(m.remove(k), n));
    } else {
        lemma_listed_first(m, (n - 1) as nat, k);
        assert(listed(m, n) =~= seq![m[k]@] + listed(m.remove(k), n));
    }
}

impl BoundedSeenSet {
    /// The keys, the least recently seen first.
    pub closed spec fn keys(&self) -> Seq<Seq<char>> {
        listed(self.order@, self.next_seq as nat)
    }

    pub closed spec fn limit(&self) -> nat {
        self.capacity as nat
    }

    closed spec fn linked(&self) -> bool {
        &&& forall|s: u128| #[trigger]
            self.order@.contains_key(s) ==> s < self.next_seq && self.seen@.contains_key(
                self.order@[s]@,
            ) && self.seen@[self.order@[s]@] == s
        &&& forall|k: Seq<char>| #[trigger]
            self.seen@.contains_key(k) ==> self.order@.contains_key(self.seen@[k])
                && self.order@[self.seen@[k]]@ == k
        &&& self.count == self.keys().len()
    }

    pub closed spec fn wf(&self) -> bool {
        &&& self.linked()
        &&& self.keys().len() <= self.capacity
        &&& self.capacity > 0
    }

    /// The keys are distinct, and there are at most as many as the capacity.
    pub proof fn keys_are_bounded(&self)
        requires
            self.wf(),
        ensures
            self.keys().no_duplicates(),
            self.keys().len() <= self.limit(),
            0 < self.limit(),
    {
        lemma_listed_distinct(self.order@, self.next_seq as nat);
    }

    proof fn lemma_seen(&self, key: Seq<char>)
        requires
            self.linked(),
        ensures
            self.seen@.contains_key(key) <==> self.keys().contains(key),
    {
        lemma_listed_contains(self.order@, self.next_seq as nat, key);
        if self.seen@.contains_key(key) {
            assert(self.order@.contains_key(self.seen@[key]));
        }
    }

    pub fn new(capacity: usize) -> (r: Self)
        ensures
            r.wf(),
            r.keys() == Seq::<Seq<char>>::empty(),
            r.limit() == (if capacity == 0 {
                1
            } else {
                capacity as nat
            }),
    {
        BoundedSeenSet {
            seen: StringHashMap::new(),
            order: BTreeMap::new(),
            next_seq: 0,
            count: 0,
            capacity: if capacity == 0 {
                1
            } else {
                capacity
            },
        }
    }

    /// Numbers the keys anew from zero.
    fn renumber(&mut self)
        requires
            old(self).linked(),
            old(self).keys().len() <= old(self).capacity,
        ensures
            final(self).linked(),
            final(self).keys() == old(self).keys(),
            final(self).capacity == old(self).capacity,
            final(self).next_seq == old(self).count,
    {
        let ghost keys = self.keys();
        let ghost top = self.next_seq as nat;
        let ghost first = self.order@;
        let mut order: BTreeMap<u128, String> = BTreeMap::new();
        let mut seen: StringHashMap<u128> = StringHashMap::new();
        let mut next: u128 = 0;
        loop
            invariant
                next <= keys.len() <= usize::MAX,
                keys.len() == old(self).count,
                top <= u128::MAX,
                forall|s: u128| #[trigger]
                    self.order@.contains_key(s) ==> s < top && first.contains_key(s) && first[s]
                        == self.order@[s],
                forall|s: u128, t: u128|
                    #![trigger self.order@.contains_key(s), self.order@.contains_key(t)]
                    self.order@.contains_key(s) && self.order@.contains_key(t) && s != t
                        ==> self.order@[s]@ != self.order@[t]@,
                listed(order@, next as nat) + listed(self.order@, top) == keys,
                listed(order@, next as nat).len() == next,
                forall|s: u128| #[trigger]
                    order@.contains_key(s) ==> s < next && seen@.contains_key(order@[s]@)
                        && seen@[order@[s]@] == s,
                forall|k: Seq<char>| #[trigger]
                    seen@.contains_key(k) ==> order@.contains_key(seen@[k]) && order@[seen@[k]]@
                        == k,
                forall|s: u128, t: u128|
                    #![trigger self.order@.contains_key(s), order@.contains_key(t)]
                    self.order@.contains_key(s) && order@.contains_key(t) ==> self.order@[s]@
                        != order@[t]@,
                self.capacity == old(self).capacity,
                self.count == old(self).count,
            ensures
                listed(order@, next as nat) == keys,
                next == keys.len(),
            decreases keys.len() - next,
        {
            let ghost now = self.order@;
            let ghost done = order@;
            match pop_first(&mut self.order) {
                Some((s, key)) => {
                    proof {
                        lemma_listed_first(now, top, s);
                        lemma_listed_same(done, done.insert(next, key), next as nat);
                        assert(listed(done, next as nat).push(key@) + listed(now.remove(s), top)
                            =~= keys);
                        assert(!seen@.contains_key(key@)) by {
                            if seen@.contains_key(key@) {
                                assert(order@.contains_key(seen@[key@]));
                                assert(now.contains_key(s));
                            }
                        }
                    }
                    seen.insert(key.clone(), next);
                    order.insert(next, key);
                    proof {
                        assert(order@ == done.insert(next, key));
                        assert(listed(order@, (next + 1) as nat) == listed(done, next as nat).push(
                            key@,
                        ));
                    }
                    next = next + 1;
                },
                None => {
                    proof {
                        lemma_listed_below(now, top);
                        assert(listed(order@, next as nat) + Seq::<Seq<char>>::empty() =~= listed(
                            order@,
                            next as nat,
                        ));
                    }
                    break;
                },
            }
        }
        self.order = order;
        self.seen = seen;
        self.next_seq = next;
    }

    /// Records `key` and tells whether it had been recorded before. A repeated sighting makes the
    /// key the most recent one.
    pub fn check_and_insert(&mut self, key: String) -> (r: bool)
        requires
            old(self).wf(),
        ensures
            final(self).wf(),
            r == old(self).keys().contains(key@),
            final(self).keys() == after_sighting(old(self).keys(), key@, old(self).limit()),
            final(self).limit() == old(self).limit(),
    {
        if self.next_seq == u128::MAX {
            self.renumber();
            proof {
                assert(self.keys() == old(self).keys());
            }
        }
        let ghost before = *self;
        let ghost keys = self.keys();
        let seq: u128 = self.next_seq;
        let previous: Option<u128> = match self.seen.get(key.as_str()) {
            Some(s) => Some(*s),
            None => None,
        };
        proof {
            self.lemma_seen(key@);
        }
        self.seen.insert(key.clone(), seq);
        self.next_seq = seq + 1;
        if let Some(s) = previous {
            self.order.remove(&s);
            proof {
                lemma_listed_remove(before.order@, seq as nat, s);
                let gone = before.order@.remove(s);
                lemma_listed_same(gone, gone.insert(seq, key), seq as nat);
                lemma_listed_distinct(before.order@, seq as nat);
                lemma_without_length(keys, key@);
            }
            self.order.insert(seq, key);
            return true;
        }
        proof {
            lemma_without_absent(keys, key@);
            lemma_listed_same(before.order@, before.order@.insert(seq, key), seq as nat);
        }
        self.order.insert(seq, key);
        proof {
            assert(self.keys() == keys.push(key@));
        }
        if self.count < self.capacity {
            self.count = self.count + 1;
            return false;
        }
        let ghost middle = *self;
        match pop_first(&mut self.order) {
            Some((s, evicted)) => {
                proof {
                    lemma_listed_first(middle.order@, (seq + 1) as nat, s);
                    let all = keys.push(key@);
                    assert(all.subrange(1, all.len() as int) =~= listed(
                        self.order@,
                        (seq + 1) as nat,
                    ));
                }
                self.seen.remove(evicted.as_str());
            },
            None => {
                assert(middle.order@.contains_key(seq));
            },
        }
        false
    }

    /// Records `key`.
    pub fn insert(&mut self, key: String)
        requires
            old(self).wf(),
        ensures
            final(self).wf(),
            final(self).keys() == after_sighting(old(self).keys(), key@, old(self).limit()),
            final(self).limit() == old(self).limit(),
    {
        self.check_and_insert(key);
    }

    /// The number of recorded keys.
    pub fn len(&self) -> (r: usize)
        requires
            self.wf(),
        ensures
            r == self.keys().len(),
    {
        self.count
    }
}

/// Without a key that occurs once, the list is one shorter.
proof fn lemma_without_length(keys: Seq<Seq<char>>, key: Seq<char>)
    requires
        keys.no_duplicates(),
        keys.contains(key),
    ensures
        without(keys, key).len() == keys.len() - 1,
    decreases keys.len(),
{
    let front = keys.drop_last();
    let i = choose|i: int| 0 <= i < keys.len() && keys[i] == key;
    if keys.last() == key {
        assert(!front.contains(key)) by {
            if front.contains(key) {
                let j = choose|j: int| 0 <= j < front.len() && front[j] == key;
                assert(keys[j] == keys[keys.len() - 1]);
            }
        }
        lemma_without_absent(front, key);
    } else {
        assert(front[i] == key);
        lemma_without_length(front, key);
    }
}

/// Distinct values make a list without repetitions.
proof fn lemma_listed_distinct(m: Map<u128, String>, n: nat)
    requires
        n <= u128::MAX,
        forall|s: u128, t: u128|
            #![trigger m.contains_key(s), m.contains_key(t)]
            m.contains_key(s) && m.contains_key(t) && s != t ==> m[s]@ != m[t]@,
    ensures
        listed(m, n).no_duplicates(),
    decreases n,
{
    if n > 0 {
        let last = (n - 1) as u128;
        let before = listed(m, (n - 1) as nat);
        lemma_listed_distinct(m, (n - 1) as nat);
        if m.contains_key(last) {
            lemma_listed_contains(m, (n - 1) as nat, m[last]@);
            assert(!before.contains(m[last]@));
            let now = before.push(m[last]@);
            assert forall|i: int, j: int|
                0 <= i < now.len() && 0 <= j < now.len() && i != j implies now[i] != now[j] by {
                if i == before.len() {
                    assert(before[j] == now[j]);
                } else if j == before.len() {
                    assert(before[i] == now[i]);
                }
            }
        }
    }
}

/// A key that was just seen is known, as the most recent one.
pub proof fn a_sighted_key_is_known(keys: Seq<Seq<char>>, key: Seq<char>, capacity: nat)
    requires
        capacity > 0,
    ensures
        after_sighting(keys, key, capacity).contains(key),
        after_sighting(keys, key, capacity).last() == key,
{
    let now = after_sighting(keys, key, capacity);
    assert(now.last() == key);
    assert(now[now.len() - 1] == key);
}

/// A sighting forgets no other key than the least recent one, and that one only where the set is
/// full and the key is new.
pub proof fn a_sighting_forgets_only_the_least_recent(
    keys: Seq<Seq<char>>,
    key: Seq<char>,
    capacity: nat,
    other: Seq<char>,
)
    requires
        keys.contains(other),
        other != key,
        keys.no_duplicates(),
        keys.len() <= capacity,
        keys.contains(key) || keys.len() < capacity || other != keys[0],
    ensures
        after_sighting(keys, key, capacity).contains(other),
{
    lemma_without_keeps(keys, key, other);
    let rest = without(keys, key);
    let i = choose|i: int| 0 <= i < rest.len() && rest[i] == other;
    let all = rest.push(key);
    assert(all[i] == other);
    if keys.contains(key) {
        lemma_without_length(keys, key);
    } else {
        lemma_without_absent(keys, key);
        assert(rest == keys);
    }
    if all.len() > capacity {
        let kept = all.subrange(1, all.len() as int);
        assert(i > 0);
        assert(kept[i - 1] == other);
    }
}

/// `key` is one of the `k` most recent keys.
pub open spec fn among_latest(keys: Seq<Seq<char>>, key: Seq<char>, k: nat) -> bool {
    exists|i: int| 0 <= i < keys.len() && #[trigger] keys[i] == key && keys.len() - i <= k
}

/// A key is known until as many others as the set holds have been seen after it: a sighting moves
/// the latest keys back by one place at most.
pub proof fn a_sighting_keeps_the_latest(
    keys: Seq<Seq<char>>,
    key: Seq<char>,
    capacity: nat,
    other: Seq<char>,
    k: nat,
)
    requires
        among_latest(keys, other, k),
        k < capacity,
    ensures
        among_latest(after_sighting(keys, key, capacity), other, k + 1),
{
    let now = after_sighting(keys, key, capacity);
    if other == key {
        a_sighted_key_is_known(keys, key, capacity);
        assert(now[now.len() - 1] == key);
    } else {
        let rest = without(keys, key);
        let i = lemma_without_keeps_latest(keys, key, other, k);
        let all = rest.push(key);
        assert(all[i] == other);
        if all.len() > capacity {
            assert(now[i - 1] == all[i]);
        } else {
            assert(now[i] == all[i]);
        }
    }
}

proof fn lemma_without_keeps_latest(
    keys: Seq<Seq<char>>,
    key: Seq<char>,
    other: Seq<char>,
    k: nat,
) -> (at: int)
    requires
        among_latest(keys, other, k),
        other != key,
    ensures
        0 <= at < without(keys, key).len(),
        without(keys, key)[at] == other,
        without(keys, key).len() - at <= k,
    decreases keys.len(),
{
    let front = keys.drop_last();
    let i = choose|i: int| 0 <= i < keys.len() && #[trigger] keys[i] == other && keys.len() - i <= k;
    if i == keys.len() - 1 {
        without(front, key).len() as int
    } else {
        assert(front[i] == other);
        assert(among_latest(front, other, (k - 1) as nat));
        lemma_without_keeps_latest(front, key, other, (k - 1) as nat)
    }
}

proof fn lemma_without_keeps(keys: Seq<Seq<char>>, key: Seq<char>, other: Seq<char>)
    requires
        keys.contains(other),
        other != key,
    ensures
        without(keys, key).contains(other),
    decreases keys.len(),
{
    let front = keys.drop_last();
    let i = choose|i: int| 0 <= i < keys.len() && keys[i] == other;
    if i < front.len() {
        assert(front[i] == other);
        lemma_without_keeps(front, key, other);
        let rest = without(front, key);
        let j = choose|j: int| 0 <= j < rest.len() && rest[j] == other;
        assert(rest.push(keys.last())[j] == other);
    } else {
        let rest = without(front, key);
        assert(rest.push(keys.last())[rest.len() as int] == other);
    }
}

} // verus!
