use vstd::prelude::*;
use crate::identity::Identity;

verus! {

/// One identity and what is kept for it.
struct Slot<V> {
    key: Identity,
    value: V,
}

/// A finite map from identities to values. No identity has two slots.
pub struct Table<V> {
    slots: Vec<Slot<V>>,
}

/// Whether no two slots of `slots` are for the same identity.
spec fn distinct_keys<V>(slots: Seq<Slot<V>>) -> bool {
    forall|i: int, j: int| 0 <= i < j < slots.len() ==> slots[i].key@ != slots[j].key@
}

/// Whether `slots` has a slot for `key`.
spec fn has_key<V>(slots: Seq<Slot<V>>, key: Seq<char>) -> bool {
    exists|i: int| 0 <= i < slots.len() && #[trigger] slots[i].key@ == key
}

/// A place in `slots` where `key` stands, if it stands anywhere.
spec fn place_of<V>(slots: Seq<Slot<V>>, key: Seq<char>) -> int {
    choose|i: int| 0 <= i < slots.len() && #[trigger] slots[i].key@ == key
}

/// The map that `slots` stands for.
spec fn map_of<V>(slots: Seq<Slot<V>>) -> Map<Seq<char>, V> {
    Map::new(|k: Seq<char>| has_key(slots, k), |k: Seq<char>| slots[place_of(slots, k)].value)
}

impl<V> View for Table<V> {
    type V = Map<Seq<char>, V>;

    closed spec fn view(&self) -> Map<Seq<char>, V> {
        map_of(self.slots@)
    }
}

impl<V> Table<V> {
    #[verifier::type_invariant]
    spec fn well_formed(&self) -> bool {
        distinct_keys(self.slots@)
    }

    /// The table that holds nothing.
    pub fn new() -> (table: Table<V>)
        ensures
            table@ == Map::<Seq<char>, V>::empty(),
    {
        let table = Table { slots: Vec::new() };
        assert(table@ =~= Map::<Seq<char>, V>::empty());
        table
    }

    /// Where the slot of `key` stands.
    fn find(&self, key: &Identity) -> (place: Option<usize>)
        ensures
            match place {
                Some(i) => i < self.slots.len() && self.slots[i as int].key@ == key@,
                None => !has_key(self.slots@, key@),
            },
    {
        let mut i: usize = 0;
        while i < self.slots.len()
            invariant
                i <= self.slots.len(),
                forall|j: int| 0 <= j < i ==> self.slots[j].key@ != key@,
            decreases self.slots.len() - i,
        {
            if self.slots[i].key == *key {
                return Some(i);
            }
            i += 1;
        }
        None
    }

    /// Whether the table holds a value for `key`.
    pub fn contains_key(&self, key: &Identity) -> (held: bool)
        ensures
            held == self@.contains_key(key@),
    {
        self.find(key).is_some()
    }

    /// The value held for `key`.
    pub fn get(&self, key: &Identity) -> (value: Option<&V>)
        ensures
            match value {
                Some(v) => self@.contains_key(key@) && *v == self@[key@],
                None => !self@.contains_key(key@),
            },
    {
        proof {
            use_type_invariant(self);
        }
        match self.find(key) {
            Some(i) => {
                assert(place_of(self.slots@, key@) == i as int);
                Some(&self.slots[i].value)
            },
            None => None,
        }
    }

    /// Holds `value` for `key` from now on, in place of what was held for it.
    pub fn put(&mut self, key: Identity, value: V)
        ensures
            final(self)@ == old(self)@.insert(key@, value),
    {
        proof {
            use_type_invariant(&*self);
        }
        let place = self.find(&key);
        let ghost before = self.slots@;
        let slot = Slot { key, value };
        let mut slots: Vec<Slot<V>> = Vec::new();
        std::mem::swap(&mut slots, &mut self.slots);
        match place {
            Some(i) => {
                proof {
                    lemma_overwrite(before, i as int, slot);
                }
                slots.set(i, slot);
            },
            None => {
                proof {
                    lemma_append(before, slot);
                }
                slots.push(slot);
            },
        }
        self.slots = slots;
    }

    /// Takes the value held for `key` out of the table.
    pub fn take(&mut self, key: &Identity) -> (value: Option<V>)
        ensures
            match value {
                Some(v) => old(self)@.contains_key(key@) && v == old(self)@[key@],
                None => !old(self)@.contains_key(key@),
            },
            final(self)@ == old(self)@.remove(key@),
    {
        proof {
            use_type_invariant(&*self);
        }
        let place = self.find(key);
        match place {
            Some(i) => {
                let ghost before = self.slots@;
                let mut slots: Vec<Slot<V>> = Vec::new();
                std::mem::swap(&mut slots, &mut self.slots);
                let slot = slots.remove(i);
                proof {
                    lemma_take(before, slots@, i as int);
                }
                self.slots = slots;
                Some(slot.value)
            },
            None => {
                assert(self@ =~= old(self)@.remove(key@));
                None
            },
        }
    }
}

/// In a sequence of distinct keys, the place of a key is the one place where
/// it stands.
proof fn lemma_place<V>(slots: Seq<Slot<V>>, i: int)
    requires
        distinct_keys(slots),
        0 <= i < slots.len(),
    ensures
        has_key(slots, slots[i].key@),
        place_of(slots, slots[i].key@) == i,
{
}

/// Writing a slot over the slot of the same key gives the map with the key
/// set to the new value.
proof fn lemma_overwrite<V>(before: Seq<Slot<V>>, i: int, slot: Slot<V>)
    requires
        distinct_keys(before),
        0 <= i < before.len(),
        before[i].key@ == slot.key@,
    ensures
        distinct_keys(before.update(i, slot)),
        map_of(before.update(i, slot)) == map_of(before).insert(slot.key@, slot.value),
{
    let after = before.update(i, slot);
    assert forall|j: int| 0 <= j < after.len() implies #[trigger] after[j].key@
        == before[j].key@ by {}
    assert forall|k: Seq<char>| has_key(after, k) == has_key(before, k) by {
        if has_key(after, k) {
            assert(before[place_of(after, k)].key@ == k);
        }
        if has_key(before, k) {
            assert(after[place_of(before, k)].key@ == k);
        }
    }
    lemma_place(before, i);
    assert forall|k: Seq<char>| has_key(after, k) implies after[place_of(after, k)].value == (if k
        == slot.key@ {
        slot.value
    } else {
        before[place_of(before, k)].value
    }) by {
        let j = place_of(after, k);
        assert(before[j].key@ == k);
        lemma_place(before, j);
    }
    assert(map_of(after) =~= map_of(before).insert(slot.key@, slot.value));
}

/// Writing a slot of a new key behind the last slot gives the map with the
/// key set to the slot's value.
proof fn lemma_append<V>(before: Seq<Slot<V>>, slot: Slot<V>)
    requires
        distinct_keys(before),
        !has_key(before, slot.key@),
    ensures
        distinct_keys(before.push(slot)),
        map_of(before.push(slot)) == map_of(before).insert(slot.key@, slot.value),
{
    let after = before.push(slot);
    let last = before.len() as int;
    assert(after[last].key@ == slot.key@);
    assert forall|k: Seq<char>| has_key(after, k) == (k == slot.key@ || has_key(before, k)) by {
        if has_key(after, k) {
            let j = place_of(after, k);
            if j < last {
                assert(before[j].key@ == k);
            }
        }
        if has_key(before, k) {
            assert(after[place_of(before, k)].key@ == k);
        }
    }
    assert forall|k: Seq<char>| has_key(after, k) implies after[place_of(after, k)].value == (if k
        == slot.key@ {
        slot.value
    } else {
        before[place_of(before, k)].value
    }) by {
        let j = place_of(after, k);
        if j < last {
            assert(before[j].key@ == k);
            lemma_place(before, j);
        }
    }
    assert(map_of(after) =~= map_of(before).insert(slot.key@, slot.value));
}

/// Removing the slot at place `i` gives the map without that slot's key.
proof fn lemma_take<V>(before: Seq<Slot<V>>, after: Seq<Slot<V>>, i: int)
    requires
        distinct_keys(before),
        0 <= i < before.len(),
        after == before.remove(i),
    ensures
        distinct_keys(after),
        map_of(before).contains_key(before[i].key@),
        map_of(before)[before[i].key@] == before[i].value,
        map_of(after) == map_of(before).remove(before[i].key@),
{
    let key = before[i].key@;
    lemma_place(before, i);
    assert forall|j: int| 0 <= j < after.len() implies #[trigger] after[j] == before[if j < i {
        j
    } else {
        j + 1
    }] by {}
    assert(distinct_keys(after));
    assert forall|k: Seq<char>| has_key(after, k) == (k != key && has_key(before, k)) by {
        if has_key(after, k) {
            let j = place_of(after, k);
            let b = if j < i { j } else { j + 1 };
            assert(before[b].key@ == k);
        }
        if k != key && has_key(before, k) {
            let b = place_of(before, k);
            let j = if b < i { b } else { b - 1 };
            assert(after[j].key@ == k);
        }
    }
    assert forall|k: Seq<char>| has_key(after, k) implies after[place_of(after, k)].value
        == before[place_of(before, k)].value by {
        let j = place_of(after, k);
        let b = if j < i { j } else { j + 1 };
        assert(before[b].key@ == k);
        lemma_place(before, b);
    }
    assert(map_of(after) =~= map_of(before).remove(key));
}

} // verus!
