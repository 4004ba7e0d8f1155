//! Sets and maps keyed by account id, held as vectors without repeated keys.

use vstd::prelude::*;

use crate::account::AccountId;

verus! {

/// A finite set of accounts.
pub struct AccountSet {
    ids: Vec<AccountId>,
}

impl View for AccountSet {
    type V = Set<Seq<char>>;

    closed spec fn view(&self) -> Set<Seq<char>> {
        Set::new(|k: Seq<char>| exists|i: int| 0 <= i < self.ids@.len() && #[trigger] self.ids@[i]@ == k)
    }
}

impl AccountSet {
    #[verifier::type_invariant]
    spec fn inv(self) -> bool {
        forall|i: int, j: int|
            0 <= i < self.ids@.len() && 0 <= j < self.ids@.len() && i != j ==> #[trigger] self.ids@[i]@
                != #[trigger] self.ids@[j]@
    }

    /// The empty set.
    pub fn new() -> (s: AccountSet)
        ensures
            s@ == Set::<Seq<char>>::empty(),
    {
        let s = AccountSet { ids: Vec::new() };
        assert(s@ =~= Set::<Seq<char>>::empty());
        s
    }

    fn position(&self, a: &AccountId) -> (r: Option<usize>)
        ensures
            r matches Some(i) ==> i < self.ids@.len() && self.ids@[i as int]@ == a@,
            r is None ==> forall|i: int| 0 <= i < self.ids@.len() ==> self.ids@[i]@ != a@,
    {
        let mut i: usize = 0;
        while i < self.ids.len()
            invariant
                i <= self.ids@.len(),
                forall|j: int| 0 <= j < i ==> self.ids@[j]@ != a@,
            decreases self.ids@.len() - i,
        {
            if self.ids[i].same(a) {
                return Some(i);
            }
            i = i + 1;
        }
        None
    }

    /// Whether `a` is a member.
    pub fn contains(&self, a: &AccountId) -> (b: bool)
        ensures
            b == self@.contains(a@),
    {
        match self.position(a) {
            Some(i) => {
                assert(self@.contains(self.ids@[i as int]@));
                true
            },
            None => false,
        }
    }

    /// Adds `a`; nothing changes when it is already a member.
    pub fn insert(&mut self, a: AccountId)
        ensures
            final(self)@ == old(self)@.insert(a@),
    {
        proof {
            use_type_invariant(&*self);
        }
        if self.position(&a).is_none() {
            let ghost old_ids = self.ids@;
            let ghost k = a@;
            let mut ids: Vec<AccountId> = Vec::new();
            std::mem::swap(&mut ids, &mut self.ids);
            ids.push(a);
            self.ids = ids;
            assert forall|k2: Seq<char>| self@.contains(k2) == old(self)@.insert(k).contains(k2) by {
                if old(self)@.contains(k2) {
                    let i = choose|i: int| 0 <= i < old_ids.len() && #[trigger] old_ids[i]@ == k2;
                    assert(self.ids@[i]@ == k2);
                }
                if k2 == k {
                    assert(self.ids@[old_ids.len() as int]@ == k2);
                }
            }
            assert(self@ =~= old(self)@.insert(k));
        } else {
            assert(old(self)@.insert(a@) =~= old(self)@);
        }
    }

    /// Removes `a`; nothing changes when it is not a member.
    pub fn remove(&mut self, a: &AccountId)
        ensures
            final(self)@ == old(self)@.remove(a@),
    {
        proof {
            use_type_invariant(&*self);
        }
        match self.position(a) {
            Some(idx) => {
                let ghost old_ids = self.ids@;
                let mut ids: Vec<AccountId> = Vec::new();
                std::mem::swap(&mut ids, &mut self.ids);
                let _ = ids.remove(idx);
                self.ids = ids;
                assert forall|k2: Seq<char>|
                    self@.contains(k2) == old(self)@.remove(a@).contains(k2) by {
                    if self@.contains(k2) {
                        let j = choose|j: int| 0 <= j < self.ids@.len() && #[trigger] self.ids@[j]@ == k2;
                        if j < idx {
                            assert(old_ids[j]@ == k2);
                        } else {
                            assert(old_ids[j + 1]@ == k2);
                        }
                    }
                    if old(self)@.remove(a@).contains(k2) {
                        let j = choose|j: int| 0 <= j < old_ids.len() && #[trigger] old_ids[j]@ == k2;
                        if j < idx {
                            assert(self.ids@[j]@ == k2);
                        } else {
                            assert(j != idx);
                            assert(self.ids@[j - 1]@ == k2);
                        }
                    }
                }
                assert(self@ =~= old(self)@.remove(a@));
            },
            None => {
                assert(old(self)@.remove(a@) =~= old(self)@);
            },
        }
    }

    /// The members, each once.
    pub fn members(&self) -> (v: Vec<AccountId>)
        ensures
            forall|k: Seq<char>|
                self@.contains(k) <==> exists|i: int| 0 <= i < v@.len() && #[trigger] v@[i]@ == k,
            forall|i: int, j: int|
                0 <= i < v@.len() && 0 <= j < v@.len() && i != j ==> #[trigger] v@[i]@ != #[trigger] v@[j]@,
    {
        proof {
            use_type_invariant(self);
        }
        let mut v: Vec<AccountId> = Vec::new();
        let mut i: usize = 0;
        while i < self.ids.len()
            invariant
                i <= self.ids@.len(),
                v@.len() == i,
                forall|j: int| 0 <= j < i ==> #[trigger] v@[j]@ == self.ids@[j]@,
            decreases self.ids@.len() - i,
        {
            v.push(self.ids[i].clone());
            i = i + 1;
        }
        assert forall|k: Seq<char>|
            self@.contains(k) <==> exists|i: int| 0 <= i < v@.len() && #[trigger] v@[i]@ == k by {
            if self@.contains(k) {
                let j = choose|j: int| 0 <= j < self.ids@.len() && #[trigger] self.ids@[j]@ == k;
                assert(v@[j]@ == k);
            }
            if exists|i: int| 0 <= i < v@.len() && #[trigger] v@[i]@ == k {
                let j = choose|j: int| 0 <= j < v@.len() && #[trigger] v@[j]@ == k;
                assert(self.ids@[j]@ == k);
            }
        }
        assert forall|a: int, b: int|
            0 <= a < v@.len() && 0 <= b < v@.len() && a != b implies #[trigger] v@[a]@ != #[trigger] v@[b]@ by {
            assert(self.ids@[a]@ == v@[a]@);
            assert(self.ids@[b]@ == v@[b]@);
        }
        v
    }
}

/// A finite map from accounts to values.
pub struct AccountMap<V> {
    entries: Vec<(AccountId, V)>,
}

impl<V> AccountMap<V> {
    /// The position of key `k` among the entries.
    closed spec fn slot(self, k: Seq<char>) -> int {
        choose|i: int| 0 <= i < self.entries@.len() && #[trigger] self.entries@[i].0@ == k
    }

    closed spec fn has_key(self, k: Seq<char>) -> bool {
        exists|i: int| 0 <= i < self.entries@.len() && #[trigger] self.entries@[i].0@ == k
    }
}

impl<V> View for AccountMap<V> {
    type V = Map<Seq<char>, V>;

    closed spec fn view(&self) -> Map<Seq<char>, V> {
        Map::new(|k: Seq<char>| self.has_key(k), |k: Seq<char>| self.entries@[self.slot(k)].1)
    }
}

impl<V> AccountMap<V> {
    #[verifier::type_invariant]
    spec fn inv(self) -> bool {
        forall|i: int, j: int|
            0 <= i < self.entries@.len() && 0 <= j < self.entries@.len() && i != j
                ==> #[trigger] self.entries@[i].0@ != #[trigger] self.entries@[j].0@
    }

    /// The empty map.
    pub fn new() -> (m: AccountMap<V>)
        ensures
            m@ == Map::<Seq<char>, V>::empty(),
    {
        let m = AccountMap { entries: Vec::new() };
        assert(m@ =~= Map::<Seq<char>, V>::empty());
        m
    }

    fn position(&self, a: &AccountId) -> (r: Option<usize>)
        ensures
            r matches Some(i) ==> i < self.entries@.len() && self.entries@[i as int].0@ == a@,
            r is None ==> forall|i: int| 0 <= i < self.entries@.len() ==> self.entries@[i].0@ != a@,
    {
        let mut i: usize = 0;
        while i < self.entries.len()
            invariant
                i <= self.entries@.len(),
                forall|j: int| 0 <= j < i ==> self.entries@[j].0@ != a@,
            decreases self.entries@.len() - i,
        {
            if self.entries[i].0.same(a) {
                return Some(i);
            }
            i = i + 1;
        }
        None
    }

    /// The value stored under `a`, if any.
    pub fn get(&self, a: &AccountId) -> (r: Option<&V>)
        ensures
            r is Some <==> self@.contains_key(a@),
            r matches Some(v) ==> *v == self@[a@],
    {
        proof {
            use_type_invariant(self);
        }
        match self.position(a) {
            Some(i) => {
                assert(self.has_key(a@));
                let ghost j = self.slot(a@);
                assert(self.entries@[j].0@ == a@);
                assert(j == i);
                Some(&self.entries[i].1)
            },
            None => None,
        }
    }

    /// Whether `a` has a value.
    pub fn contains_key(&self, a: &AccountId) -> (b: bool)
        ensures
            b == self@.contains_key(a@),
    {
        self.get(a).is_some()
    }

    /// Stores `v` under `a`, replacing any value stored there before.
    pub fn insert(&mut self, a: AccountId, v: V)
        ensures
            final(self)@ == old(self)@.insert(a@, v),
    {
        proof {
            use_type_invariant(&*self);
        }
        let ghost k = a@;
        let ghost old_e = self.entries@;
        let pos = self.position(&a);
        let mut entries: Vec<(AccountId, V)> = Vec::new();
        std::mem::swap(&mut entries, &mut self.entries);
        match pos {
            Some(i) => {
                entries.set(i, (a, v));
            },
            None => {
                entries.push((a, v));
            },
        }
        self.entries = entries;
        let ghost new_e = self.entries@;
        assert forall|k2: Seq<char>| #[trigger] self@.contains_key(k2) == old(self)@.insert(k, v).contains_key(k2) by {
            if old(self)@.contains_key(k2) {
                let j = choose|j: int| 0 <= j < old_e.len() && #[trigger] old_e[j].0@ == k2;
                if k2 != k {
                    assert(new_e[j].0@ == k2);
                }
            }
            if k2 == k {
                match pos {
                    Some(i) => assert(new_e[i as int].0@ == k2),
                    None => assert(new_e[old_e.len() as int].0@ == k2),
                }
            }
            if self.has_key(k2) && k2 != k {
                let j = choose|j: int| 0 <= j < new_e.len() && #[trigger] new_e[j].0@ == k2;
                assert(old_e[j].0@ == k2);
            }
        }
        assert forall|k2: Seq<char>| #[trigger] self@.contains_key(k2) implies self@[k2] == old(self)@.insert(k, v)[k2] by {
            let j = self.slot(k2);
            assert(new_e[j].0@ == k2);
            if k2 == k {
                match pos {
                    Some(i) => assert(new_e[i as int].0@ == k2),
                    None => assert(new_e[old_e.len() as int].0@ == k2),
                }
            } else {
                assert(old_e[j].0@ == k2);
                assert(old(self).has_key(k2));
                let oj = old(self).slot(k2);
                assert(old_e[oj].0@ == k2);
                assert(oj == j);
            }
        }
        assert(self@ =~= old(self)@.insert(k, v));
    }

    /// Drops the value stored under `a`, if any.
    pub fn remove(&mut self, a: &AccountId)
        ensures
            final(self)@ == old(self)@.remove(a@),
    {
        proof {
            use_type_invariant(&*self);
        }
        let ghost k = a@;
        let ghost old_e = self.entries@;
        match self.position(a) {
            Some(idx) => {
                let mut entries: Vec<(AccountId, V)> = Vec::new();
                std::mem::swap(&mut entries, &mut self.entries);
                let _ = entries.remove(idx);
                self.entries = entries;
                let ghost new_e = self.entries@;
                assert forall|k2: Seq<char>|
                    #[trigger] self@.contains_key(k2) == old(self)@.remove(k).contains_key(k2) by {
                    if self.has_key(k2) {
                        let j = choose|j: int| 0 <= j < new_e.len() && #[trigger] new_e[j].0@ == k2;
                        if j < idx {
                            assert(old_e[j].0@ == k2);
                        } else {
                            assert(old_e[j + 1].0@ == k2);
                        }
                    }
                    if old(self)@.remove(k).contains_key(k2) {
                        let j = choose|j: int| 0 <= j < old_e.len() && #[trigger] old_e[j].0@ == k2;
                        if j < idx {
                            assert(new_e[j].0@ == k2);
                        } else {
                            assert(j != idx);
                            assert(new_e[j - 1].0@ == k2);
                        }
                    }
                }
                assert forall|k2: Seq<char>| #[trigger] self@.contains_key(k2) implies self@[k2] == old(self)@[k2] by {
                    let j = self.slot(k2);
                    assert(new_e[j].0@ == k2);
                    let oj = if j < idx { j } else { j + 1 };
                    assert(old_e[oj].0@ == k2);
                    assert(old(self).has_key(k2));
                    let s = old(self).slot(k2);
                    assert(old_e[s].0@ == k2);
                    assert(s == oj);
                }
                assert(self@ =~= old(self)@.remove(k));
            },
            None => {
                assert(old(self)@.remove(k) =~= old(self)@);
            },
        }
    }

    /// The entries, one per key.
    pub fn entries(&self) -> (r: &Vec<(AccountId, V)>)
        ensures
            forall|i: int| 0 <= i < r@.len() ==> #[trigger] self@.contains_key(r@[i].0@) && self@[r@[i].0@] == r@[i].1,
            forall|k: Seq<char>| #[trigger] self@.contains_key(k) ==> exists|i: int| 0 <= i < r@.len() && r@[i].0@ == k,
            forall|i: int, j: int|
                0 <= i < r@.len() && 0 <= j < r@.len() && i != j ==> #[trigger] r@[i].0@ != #[trigger] r@[j].0@,
    {
        proof {
            use_type_invariant(self);
            assert forall|i: int| 0 <= i < self.entries@.len() implies #[trigger] self@.contains_key(self.entries@[i].0@) && self@[self.entries@[i].0@] == self.entries@[i].1 by {
                let k = self.entries@[i].0@;
                assert(self.has_key(k));
                let s = self.slot(k);
                assert(self.entries@[s].0@ == k);
            }
        }
        &self.entries
    }
}

} // verus!
