use std::collections::{HashMap, HashSet};

use vstd::prelude::*;

use crate::cards::CardID;
use crate::events::event_action_id::EventActionID;

verus! {

broadcast use vstd::std_specs::hash::group_hash_axioms;

/// The descriptions of each card, and the event actions already described.
pub struct CardDescriptions<T> {
    descriptions: HashMap<usize, Vec<T>>,
    event_ids: HashSet<usize>,
}

impl<T> CardDescriptions<T> {
    /// The descriptions of each card, in the order they were added.
    pub closed spec fn descriptions_spec(self) -> Map<usize, Seq<T>> {
        self.descriptions@.map_values(|v: Vec<T>| v@)
    }

    /// The event actions that were described.
    pub closed spec fn event_ids_spec(self) -> Set<usize> {
        self.event_ids@
    }

    pub fn new() -> (r: Self)
        ensures
            r.descriptions_spec() == Map::<usize, Seq<T>>::empty(),
            r.event_ids_spec() == Set::<usize>::empty(),
    {
        let r = CardDescriptions { descriptions: HashMap::new(), event_ids: HashSet::new() };
        assert(r.descriptions_spec() =~= Map::<usize, Seq<T>>::empty());
        r
    }

    /// Adds `description` after the descriptions of `card_id`.
    pub(crate) fn add_description(&mut self, card_id: CardID, description: T)
        ensures
            final(self).descriptions_spec() == old(self).descriptions_spec().insert(
                card_id@,
                if old(self).descriptions_spec().contains_key(card_id@) {
                    old(self).descriptions_spec()[card_id@].push(description)
                } else {
                    seq![description]
                },
            ),
            final(self).event_ids_spec() == old(self).event_ids_spec(),
    {
        let ghost new_list = if old(self).descriptions_spec().contains_key(card_id@) {
            old(self).descriptions_spec()[card_id@].push(description)
        } else {
            seq![description]
        };
        match self.descriptions.remove(&card_id.value()) {
            Some(mut list) => {
                list.push(description);
                self.descriptions.insert(card_id.value(), list);
            },
            None => {
                let mut list = Vec::new();
                list.push(description);
                assert(list@ =~= seq![description]);
                self.descriptions.insert(card_id.value(), list);
            },
        }
        assert(self.descriptions_spec() =~= old(self).descriptions_spec().insert(card_id@, new_list));
    }

    /// Describes the event action `event_id` on `card_id`, the first time it is given only.
    pub(crate) fn add_event_description(&mut self, event_id: EventActionID, card_id: CardID, description: T)
        ensures
            final(self).event_ids_spec() == old(self).event_ids_spec().insert(event_id@),
            old(self).event_ids_spec().contains(event_id@) ==> final(self).descriptions_spec()
                == old(self).descriptions_spec(),
            !old(self).event_ids_spec().contains(event_id@) ==> final(self).descriptions_spec()
                == old(self).descriptions_spec().insert(
                card_id@,
                if old(self).descriptions_spec().contains_key(card_id@) {
                    old(self).descriptions_spec()[card_id@].push(description)
                } else {
                    seq![description]
                },
            ),
    {
        if self.event_ids.insert(event_id.value()) {
            self.add_description(card_id, description);
        }
    }

    /// The descriptions of `card_id`, if it has any.
    pub fn descriptions(&self, card_id: CardID) -> (r: Option<&Vec<T>>)
        ensures
            match r {
                Some(list) => self.descriptions_spec().contains_key(card_id@) && list@
                    == self.descriptions_spec()[card_id@],
                None => !self.descriptions_spec().contains_key(card_id@),
            },
    {
        self.descriptions.get(&card_id.value())
    }
}

/// `after` is `before` followed by a copy of each of its items, in order.
pub open spec fn followed_by_copies<T: Clone>(before: Seq<T>, after: Seq<T>) -> bool {
    &&& after.len() == 2 * before.len()
    &&& after.take(before.len() as int) == before
    &&& forall|i: int| 0 <= i < before.len() ==> cloned::<T>(before[i], #[trigger] after[before.len() + i])
}

impl<T: Clone> CardDescriptions<T> {
    /// Appends a copy of the descriptions of `card_id` to themselves.
    ///
    /// The card to copy from plays no part: the descriptions read are those of `card_id`.
    pub(crate) fn copy_description(&mut self, card_id: CardID, copy_from_card_id: CardID)
        ensures
            final(self).event_ids_spec() == old(self).event_ids_spec(),
            !old(self).descriptions_spec().contains_key(card_id@) ==> final(self).descriptions_spec()
                == old(self).descriptions_spec(),
            old(self).descriptions_spec().contains_key(card_id@) ==> {
                &&& final(self).descriptions_spec().dom() == old(self).descriptions_spec().dom()
                &&& forall|c: usize|
                    c != card_id@ && #[trigger] old(self).descriptions_spec().contains_key(c)
                        ==> final(self).descriptions_spec()[c] == old(self).descriptions_spec()[c]
                &&& followed_by_copies(
                    old(self).descriptions_spec()[card_id@],
                    final(self).descriptions_spec()[card_id@],
                )
            },
    {
        let mut list = match self.descriptions.remove(&card_id.value()) {
            Some(list) => list,
            None => {
                return;
            },
        };
        let ghost original = list@;
        let mut copy = list.clone();
        let ghost copies = copy@;
        list.append(&mut copy);
        assert(list@.take(original.len() as int) =~= original);
        assert forall|i: int| 0 <= i < original.len() implies cloned::<T>(original[i], #[trigger] list@[original.len() + i]) by {
            assert(list@[original.len() + i] == copies[i]);
        }
        self.descriptions.insert(card_id.value(), list);
        assert(self.descriptions_spec().dom() =~= old(self).descriptions_spec().dom());
    }
}

} // verus!
