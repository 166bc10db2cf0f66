use vstd::prelude::*;
use crate::identity::Identity;

verus! {

/// A finite set of identities. No identity is held twice.
pub struct Roster {
    members: Vec<Identity>,
}

/// Whether no two items of `list` are the same identity.
spec fn distinct(list: Seq<Identity>) -> bool {
    forall|i: int, j: int| 0 <= i < j < list.len() ==> list[i]@ != list[j]@
}

/// The identities that stand in `list`.
spec fn set_of(list: Seq<Identity>) -> Set<Seq<char>> {
    Set::new(|k: Seq<char>| exists|i: int| 0 <= i < list.len() && #[trigger] list[i]@ == k)
}

/// Whether `list` names each identity of `set` once, and no other.
pub open spec fn enumerates(list: Seq<Identity>, set: Set<Seq<char>>) -> bool {
    &&& forall|i: int, j: int| 0 <= i < j < list.len() ==> list[i]@ != list[j]@
    &&& forall|i: int| 0 <= i < list.len() ==> set.contains(#[trigger] list[i]@)
    &&& forall|k: Seq<char>|
        set.contains(k) ==> exists|i: int| 0 <= i < list.len() && #[trigger] list[i]@ == k
}

impl View for Roster {
    type V = Set<Seq<char>>;

    closed spec fn view(&self) -> Set<Seq<char>> {
        set_of(self.members@)
    }
}

impl Roster {
    #[verifier::type_invariant]
    spec fn well_formed(&self) -> bool {
        distinct(self.members@)
    }

    /// The roster that holds nobody.
    pub fn new() -> (roster: Roster)
        ensures
            roster@ == Set::<Seq<char>>::empty(),
    {
        let roster = Roster { members: Vec::new() };
        assert(roster@ =~= Set::<Seq<char>>::empty());
        roster
    }

    /// Where `who` stands among the members.
    fn find(&self, who: &Identity) -> (place: Option<usize>)
        ensures
            match place {
                Some(i) => i < self.members.len() && self.members[i as int]@ == who@,
                None => !self@.contains(who@),
            },
    {
        let mut i: usize = 0;
        while i < self.members.len()
            invariant
                i <= self.members.len(),
                forall|j: int| 0 <= j < i ==> self.members[j]@ != who@,
            decreases self.members.len() - i,
        {
            if self.members[i] == *who {
                return Some(i);
            }
            i += 1;
        }
        None
    }

    /// Whether `who` is a member.
    pub fn contains(&self, who: &Identity) -> (held: bool)
        ensures
            held == self@.contains(who@),
    {
        self.find(who).is_some()
    }

    /// Makes `who` a member. Says whether `who` was none before.
    pub fn insert(&mut self, who: Identity) -> (fresh: bool)
        ensures
            final(self)@ == old(self)@.insert(who@),
            fresh == !old(self)@.contains(who@),
    {
        proof {
            use_type_invariant(&*self);
        }
        match self.find(&who) {
            Some(_) => {
                assert(self@ =~= old(self)@.insert(who@));
                false
            },
            None => {
                let ghost before = self.members@;
                let mut members: Vec<Identity> = Vec::new();
                std::mem::swap(&mut members, &mut self.members);
                members.push(who);
                proof {
                    let after = members@;
                    assert(after[before.len() as int]@ == who@);
                    assert forall|k: Seq<char>| set_of(after).contains(k) == (k == who@ || set_of(
                        before,
                    ).contains(k)) by {
                        if set_of(after).contains(k) {
                            let i = choose|i: int| 0 <= i < after.len() && #[trigger] after[i]@ == k;
                            if i < before.len() {
                                assert(before[i]@ == k);
                            }
                        }
                        if set_of(before).contains(k) {
                            let i = choose|i: int|
                                0 <= i < before.len() && #[trigger] before[i]@ == k;
                            assert(after[i]@ == k);
                        }
                    }
                    assert(set_of(after) =~= set_of(before).insert(who@));
                }
                self.members = members;
                true
            },
        }
    }

    /// Ends the membership of `who`. Says whether `who` was a member.
    pub fn remove(&mut self, who: &Identity) -> (was: bool)
        ensures
            final(self)@ == old(self)@.remove(who@),
            was == old(self)@.contains(who@),
    {
        proof {
            use_type_invariant(&*self);
        }
        match self.find(who) {
            Some(at) => {
                let ghost before = self.members@;
                let mut members: Vec<Identity> = Vec::new();
                std::mem::swap(&mut members, &mut self.members);
                members.remove(at);
                proof {
                    let after = members@;
                    assert forall|j: int| 0 <= j < after.len() implies #[trigger] after[j]
                        == before[if j < at { j } else { j + 1 }] by {}
                    assert forall|k: Seq<char>| set_of(after).contains(k) == (k != who@ && set_of(
                        before,
                    ).contains(k)) by {
                        if set_of(after).contains(k) {
                            let j = choose|j: int| 0 <= j < after.len() && #[trigger] after[j]@ == k;
                            let b = if j < at { j } else { j + 1 };
                            assert(before[b]@ == k);
                        }
                        if k != who@ && set_of(before).contains(k) {
                            let b = choose|b: int|
                                0 <= b < before.len() && #[trigger] before[b]@ == k;
                            let j = if b < at { b } else { b - 1 };
                            assert(after[j]@ == k);
                        }
                    }
                    assert(set_of(after) =~= set_of(before).remove(who@));
                }
                self.members = members;
                true
            },
            None => {
                assert(self@ =~= old(self)@.remove(who@));
                false
            },
        }
    }

    /// The members, each once.
    pub fn members(&self) -> (list: &[Identity])
        ensures
            enumerates(list@, self@),
    {
        proof {
            use_type_invariant(self);
        }
        self.members.as_slice()
    }
}

} // verus!
