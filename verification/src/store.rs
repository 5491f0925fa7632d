//! A small key-value store with a linear layout, used to model the storage
//! mappers that contracts key by addresses, hashes, buffers and indices.

use vstd::prelude::*;

verus! {

/// Keys that can be compared in executable code in agreement with their view.
pub trait MapKey: View + Sized {
    fn same_key(&self, other: &Self) -> (r: bool)
        ensures
            r == (self@ == other@),
    ;

    fn copy_key(&self) -> (r: Self)
        ensures
            r@ == self@,
    ;
}

/// Byte-wise equality of two byte strings.
pub fn bytes_eq(a: &Vec<u8>, b: &Vec<u8>) -> (r: bool)
    ensures
        r == (a@ == b@),
{
    if a.len() != b.len() {
        return false;
    }
    let mut i: usize = 0;
    while i < a.len()
        invariant
            a@.len() == b@.len(),
            i <= a@.len(),
            forall|j: int| 0 <= j < i ==> a@[j] == b@[j],
        decreases a@.len() - i,
    {
        if a[i] != b[i] {
            return false;
        }
        i = i + 1;
    }
    assert(a@ =~= b@);
    true
}

/// A copy of a byte string.
pub fn copy_bytes(a: &Vec<u8>) -> (r: Vec<u8>)
    ensures
        r@ == a@,
{
    let mut r: Vec<u8> = Vec::new();
    let mut i: usize = 0;
    while i < a.len()
        invariant
            i <= a@.len(),
            r@ == a@.subrange(0, i as int),
        decreases a@.len() - i,
    {
        r.push(a[i]);
        i = i + 1;
        assert(r@ =~= a@.subrange(0, i as int));
    }
    assert(a@.subrange(0, a@.len() as int) =~= a@);
    r
}

impl MapKey for u32 {
    fn same_key(&self, other: &Self) -> (r: bool) {
        *self == *other
    }

    fn copy_key(&self) -> (r: Self) {
        *self
    }
}

impl MapKey for Vec<u8> {
    fn same_key(&self, other: &Self) -> (r: bool) {
        bytes_eq(self, other)
    }

    fn copy_key(&self) -> (r: Self) {
        copy_bytes(self)
    }
}

impl MapKey for (Vec<u8>, u32) {
    fn same_key(&self, other: &Self) -> (r: bool) {
        bytes_eq(&self.0, &other.0) && self.1 == other.1
    }

    fn copy_key(&self) -> (r: Self) {
        (copy_bytes(&self.0), self.1)
    }
}

impl MapKey for (Vec<u8>, u64) {
    fn same_key(&self, other: &Self) -> (r: bool) {
        bytes_eq(&self.0, &other.0) && self.1 == other.1
    }

    fn copy_key(&self) -> (r: Self) {
        (copy_bytes(&self.0), self.1)
    }
}

impl MapKey for (Vec<u8>, Vec<u8>) {
    fn same_key(&self, other: &Self) -> (r: bool) {
        bytes_eq(&self.0, &other.0) && bytes_eq(&self.1, &other.1)
    }

    fn copy_key(&self) -> (r: Self) {
        (copy_bytes(&self.0), copy_bytes(&self.1))
    }
}

/// The entries hold distinct keys, and they are exactly the map's contents.
pub closed spec fn entries_match<K: View, V: View>(entries: Seq<(K, V)>, m: Map<K::V, V::V>) -> bool {
    &&& forall|i: int, j: int|
        0 <= i < j < entries.len() ==> #[trigger] entries[i].0@ != #[trigger] entries[j].0@
    &&& forall|i: int|
        0 <= i < entries.len() ==> {
            &&& m.contains_key(#[trigger] entries[i].0@)
            &&& m[entries[i].0@] == entries[i].1@
        }
    &&& forall|k: K::V|
        #[trigger] m.contains_key(k) ==> exists|i: int|
            0 <= i < entries.len() && #[trigger] entries[i].0@ == k
}

/// A map held as a list of distinct keys with their values.
pub struct LinearMap<K: MapKey, V: View> {
    entries: Vec<(K, V)>,
    contents: Ghost<Map<K::V, V::V>>,
}

impl<K: MapKey, V: View> View for LinearMap<K, V> {
    type V = Map<K::V, V::V>;

    closed spec fn view(&self) -> Map<K::V, V::V> {
        self.contents@
    }
}

impl<K: MapKey, V: View> LinearMap<K, V> {
    #[verifier::type_invariant]
    closed spec fn well_formed(self) -> bool {
        entries_match(self.entries@, self.contents@)
    }

    /// An empty map.
    pub fn new() -> (r: Self)
        ensures
            r@ == Map::<K::V, V::V>::empty(),
    {
        LinearMap { entries: Vec::new(), contents: Ghost(Map::empty()) }
    }

    fn take_entries(&mut self) -> (r: Vec<(K, V)>)
        ensures
            r@ == old(self).entries@,
            final(self)@ == Map::<K::V, V::V>::empty(),
    {
        let mut tmp = LinearMap { entries: Vec::new(), contents: Ghost(Map::empty()) };
        std::mem::swap(&mut tmp, self);
        let LinearMap { entries, contents: _ } = tmp;
        entries
    }

    fn position(&self, k: &K) -> (r: Option<usize>)
        ensures
            match r {
                Some(i) => i < self.entries@.len() && self.entries@[i as int].0@ == k@,
                None => !self@.contains_key(k@),
            },
    {
        proof {
            use_type_invariant(self);
        }
        let mut i: usize = 0;
        while i < self.entries.len()
            invariant
                i <= self.entries@.len(),
                forall|j: int| 0 <= j < i ==> self.entries@[j].0@ != k@,
            decreases self.entries@.len() - i,
        {
            if self.entries[i].0.same_key(k) {
                return Some(i);
            }
            i = i + 1;
        }
        proof {
            if self@.contains_key(k@) {
                let j = choose|j: int| 0 <= j < self.entries@.len() && #[trigger] self.entries@[j].0@ == k@;
                assert(self.entries@[j].0@ != k@);
            }
        }
        None
    }

    /// Whether the key holds a value.
    pub fn contains_key(&self, k: &K) -> (r: bool)
        ensures
            r == self@.contains_key(k@),
    {
        proof {
            use_type_invariant(self);
        }
        match self.position(k) {
            Some(i) => true,
            None => false,
        }
    }

    /// The value held at the key, if any.
    pub fn get(&self, k: &K) -> (r: Option<&V>)
        ensures
            match r {
                Some(v) => self@.contains_key(k@) && v@ == self@[k@],
                None => !self@.contains_key(k@),
            },
    {
        proof {
            use_type_invariant(self);
        }
        match self.position(k) {
            Some(i) => Some(&self.entries[i].1),
            None => None,
        }
    }

    /// Stores `v` at `k`, replacing any value held there.
    pub fn insert(&mut self, k: K, v: V)
        ensures
            final(self)@ == old(self)@.insert(k@, v@),
    {
        proof {
            use_type_invariant(&*self);
        }
        let ghost old_entries = self.entries@;
        let ghost old_contents = self.contents@;
        let ghost new_contents = self.contents@.insert(k@, v@);
        match self.position(&k) {
            Some(i) => {
                let mut entries = self.take_entries();
                entries.set(i, (k, v));
                proof {
                    assert forall|a: int, b: int|
                        0 <= a < b < entries@.len() implies #[trigger] entries@[a].0@
                            != #[trigger] entries@[b].0@ by {
                        assert(old_entries[a].0@ != old_entries[b].0@);
                    }
                    assert forall|a: int| 0 <= a < entries@.len() implies {
                        &&& new_contents.contains_key(#[trigger] entries@[a].0@)
                        &&& new_contents[entries@[a].0@] == entries@[a].1@
                    } by {
                        if a != i {
                            assert(old_entries[a].0@ != old_entries[i as int].0@);
                        }
                    }
                    assert forall|kk: K::V| #[trigger] new_contents.contains_key(kk) implies exists|j: int|
                        0 <= j < entries@.len() && #[trigger] entries@[j].0@ == kk by {
                        if kk != entries@[i as int].0@ {
                            let j = choose|j: int| 0 <= j < old_entries.len() && #[trigger] old_entries[j].0@ == kk;
                            assert(entries@[j].0@ == kk);
                        }
                    }
                }
                assert(entries_match(entries@, new_contents));
                *self = LinearMap { entries, contents: Ghost(new_contents) };
            },
            None => {
                let mut entries = self.take_entries();
                entries.push((k, v));
                proof {
                    let n = old_entries.len() as int;
                    assert forall|a: int, b: int|
                        0 <= a < b < entries@.len() implies #[trigger] entries@[a].0@
                            != #[trigger] entries@[b].0@ by {
                        if b == n {
                            assert(old_contents.contains_key(old_entries[a].0@));
                        } else {
                            assert(old_entries[a].0@ != old_entries[b].0@);
                        }
                    }
                    assert forall|a: int| 0 <= a < entries@.len() implies {
                        &&& new_contents.contains_key(#[trigger] entries@[a].0@)
                        &&& new_contents[entries@[a].0@] == entries@[a].1@
                    } by {
                        if a < n {
                            assert(old_contents.contains_key(old_entries[a].0@));
                        }
                    }
                    assert forall|kk: K::V| #[trigger] new_contents.contains_key(kk) implies exists|j: int|
                        0 <= j < entries@.len() && #[trigger] entries@[j].0@ == kk by {
                        if kk != entries@[old_entries.len() as int].0@ {
                            let j = choose|j: int| 0 <= j < old_entries.len() && #[trigger] old_entries[j].0@ == kk;
                            assert(entries@[j].0@ == kk);
                        }
                    }
                }
                assert(entries_match(entries@, new_contents));
                *self = LinearMap { entries, contents: Ghost(new_contents) };
            },
        }
    }

    /// Removes the value at `k`, and returns it.
    pub fn remove(&mut self, k: &K) -> (r: Option<V>)
        ensures
            final(self)@ == old(self)@.remove(k@),
            match r {
                Some(v) => old(self)@.contains_key(k@) && v@ == old(self)@[k@],
                None => !old(self)@.contains_key(k@),
            },
    {
        proof {
            use_type_invariant(&*self);
        }
        let ghost old_entries = self.entries@;
        let ghost old_contents = self.contents@;
        let ghost new_contents = self.contents@.remove(k@);
        match self.position(k) {
            Some(i) => {
                let mut entries = self.take_entries();
                let (_, v) = entries.remove(i);
                proof {
                    assert forall|a: int, b: int|
                        0 <= a < b < entries@.len() implies #[trigger] entries@[a].0@
                            != #[trigger] entries@[b].0@ by {
                        let oa = if a < i { a } else { a + 1 };
                        let ob = if b < i { b } else { b + 1 };
                        assert(entries@[a] == old_entries[oa]);
                        assert(entries@[b] == old_entries[ob]);
                    }
                    assert forall|a: int| 0 <= a < entries@.len() implies {
                        &&& new_contents.contains_key(#[trigger] entries@[a].0@)
                        &&& new_contents[entries@[a].0@] == entries@[a].1@
                    } by {
                        let oa = if a < i { a } else { a + 1 };
                        assert(entries@[a] == old_entries[oa]);
                        assert(old_entries[oa].0@ != old_entries[i as int].0@);
                    }
                    assert forall|kk: K::V| #[trigger] new_contents.contains_key(kk) implies exists|j: int|
                        0 <= j < entries@.len() && #[trigger] entries@[j].0@ == kk by {
                        let j = choose|j: int| 0 <= j < old_entries.len() && #[trigger] old_entries[j].0@ == kk;
                        assert(j != i);
                        let nj = if j < i { j } else { j - 1 };
                        assert(entries@[nj] == old_entries[j]);
                    }
                }
                assert(entries_match(entries@, new_contents));
                *self = LinearMap { entries, contents: Ghost(new_contents) };
                Some(v)
            },
            None => {
                proof {
                    assert(new_contents =~= self.contents@);
                }
                None
            },
        }
    }
}

} // verus!
