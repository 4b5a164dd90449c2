//! Types of activity: what about an event makes a workflow run.
use super::event::lemma_to_set_push;
use crate::text::same_text;
use vstd::prelude::*;

verus! {

/// One type of activity, by its name.
#[derive(Debug)]
pub struct ActivityType(pub String);

impl ActivityType {
    pub fn new(s: String) -> (activity: ActivityType)
        ensures
            activity.0 == s,
    {
        ActivityType(s)
    }

    pub fn to_string(&self) -> (shown: String)
        ensures
            shown@ == self.0@,
    {
        self.0.clone()
    }
}

/// A set of types of activity: no name occurs in it twice, and the order in
/// which names were put in does not matter.
#[derive(Debug)]
pub struct ActivityTypes {
    pub types: Vec<ActivityType>,
}

impl View for ActivityTypes {
    type V = Set<Seq<char>>;

    open spec fn view(&self) -> Set<Seq<char>> {
        self.names().to_set()
    }
}

impl ActivityTypes {
    /// The names held, in the order in which they were put in.
    pub open spec fn names(&self) -> Seq<Seq<char>> {
        self.types@.map_values(|activity: ActivityType| activity.0@)
    }

    /// No name is held twice.
    pub open spec fn wf(&self) -> bool {
        self.names().no_duplicates()
    }

    pub fn new() -> (types: ActivityTypes)
        ensures
            types.wf(),
            types@ == Set::<Seq<char>>::empty(),
    {
        let types = ActivityTypes { types: Vec::new() };
        assert(types.names() =~= Seq::empty());
        assert(types@ =~= Set::<Seq<char>>::empty());
        types
    }

    /// How many types are held.
    pub fn len(&self) -> (len: usize)
        requires
            self.wf(),
        ensures
            len == self@.len(),
    {
        proof {
            self.names().unique_seq_to_set();
        }
        self.types.len()
    }

    /// Whether a type of the name of `activity` is held.
    pub fn contains(&self, activity: &ActivityType) -> (held: bool)
        ensures
            held == self@.contains(activity.0@),
    {
        let mut i: usize = 0;
        while i < self.types.len()
            invariant
                0 <= i <= self.types@.len(),
                forall|j: int| 0 <= j < i ==> self.names()[j] != activity.0@,
            decreases self.types@.len() - i,
        {
            if same_text(self.types[i].0.as_str(), activity.0.as_str()) {
                assert(self.names()[i as int] == activity.0@);
                return true;
            }
            i += 1;
        }
        false
    }

    /// Puts `activity` in, unless a type of its name is held already. Says
    /// whether it was put in.
    pub fn insert(&mut self, activity: ActivityType) -> (added: bool)
        requires
            old(self).wf(),
        ensures
            final(self).wf(),
            final(self)@ == old(self)@.insert(activity.0@),
            added == !old(self)@.contains(activity.0@),
    {
        if self.contains(&activity) {
            assert(self@ =~= old(self)@.insert(activity.0@));
            false
        } else {
            let ghost before = self.names();
            self.types.push(activity);
            proof {
                assert(self.names() =~= before.push(activity.0@));
                assert forall|i: int, j: int|
                    0 <= i < self.names().len() && 0 <= j < self.names().len() && i
                        != j implies self.names()[i] != self.names()[j] by {
                    if i < before.len() && j < before.len() {
                        assert(before[i] != before[j]);
                    } else if i < before.len() {
                        assert(before.to_set().contains(before[i]));
                    } else {
                        assert(before.to_set().contains(before[j]));
                    }
                }
                lemma_to_set_push(before, activity.0@);
            }
            true
        }
    }
}

} // verus!
