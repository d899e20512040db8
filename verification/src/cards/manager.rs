use std::collections::{HashMap, HashSet};

use vstd::prelude::*;

use crate::cards::{CardBuilder, CardID};
use crate::events::event_action_id::{EventActionID, EventActionIDBuilder};
use crate::events::{AddEventListener, Event, EventListenerConstructor};
use crate::identifications::{ActionID, SourceCardID};
use crate::map_keys::{copy_set, keys_of};
use crate::stack::priority::GetState;

verus! {

broadcast use vstd::std_specs::hash::group_hash_axioms;

/// Hands out card identifiers and keeps what cards can do.
pub struct CardManager<EventManager, ListenerInput = ()> {
    next_card_id_index: usize,
    event_action_id_builder: EventActionIDBuilder,
    card_actions: CardActions,
    event_manager: EventManager,
    event_tracker: CardEventTracker<EventManager, ListenerInput>,
}

impl<EventManager, ListenerInput> CardManager<EventManager, ListenerInput> {
    /// The identifier the next card gets.
    pub closed spec fn next_card_id_spec(self) -> usize {
        self.next_card_id_index
    }

    pub closed spec fn card_actions_spec(self) -> CardActions {
        self.card_actions
    }

    pub closed spec fn event_manager_spec(self) -> EventManager {
        self.event_manager
    }

    pub closed spec fn event_tracker_spec(self) -> CardEventTracker<EventManager, ListenerInput> {
        self.event_tracker
    }

    pub(crate) fn new(event_manager: EventManager) -> (r: Self)
        ensures
            r.next_card_id_spec() == 0,
            r.card_actions_spec().names_spec().len() == 0,
            r.card_actions_spec().tracker_spec() == Map::<usize, Seq<Seq<char>>>::empty(),
            r.event_manager_spec() == event_manager,
            r.event_tracker_spec().events_spec() == Map::<usize, Seq<TrackedListener<ListenerInput>>>::empty(),
    {
        CardManager {
            next_card_id_index: 0,
            event_action_id_builder: EventActionIDBuilder::default(),
            card_actions: CardActions::new(),
            event_manager,
            event_tracker: CardEventTracker::new(),
        }
    }

    pub fn card_actions(&self) -> (r: &CardActions)
        ensures
            *r == self.card_actions_spec(),
    {
        &self.card_actions
    }

    pub fn event_manager(&self) -> (r: &EventManager)
        ensures
            *r == self.event_manager_spec(),
    {
        &self.event_manager
    }

    pub fn event_tracker(&self) -> (r: &CardEventTracker<EventManager, ListenerInput>)
        ensures
            *r == self.event_tracker_spec(),
    {
        &self.event_tracker
    }

    /// A builder for the next card.
    pub fn builder(&mut self) -> (r: CardBuilder<'_, EventManager>)
        ensures
            *r.next_id_ref() == old(self).next_card_id_spec(),
            *r.card_actions_ref() == old(self).card_actions_spec(),
            *r.event_manager_ref() == old(self).event_manager_spec(),
            final(self).next_card_id_spec() == *final(r.next_id_ref()),
            final(self).card_actions_spec() == *final(r.card_actions_ref()),
            final(self).event_manager_spec() == *final(r.event_manager_ref()),
            final(self).event_tracker_spec() == old(self).event_tracker_spec(),
    {
        CardBuilder::new(&mut self.card_actions, &mut self.event_manager, &mut self.next_card_id_index)
    }
}

impl<EventManager, ListenerInput> GetState<CardActions> for CardManager<EventManager, ListenerInput> {
    closed spec fn state_spec(&self) -> CardActions {
        self.card_actions
    }

    fn state(&self) -> (r: &CardActions) {
        self.card_actions()
    }
}

/// The actions each card can take.
pub struct CardActions {
    names: Vec<ActionID>,
    cards: Vec<HashSet<usize>>,
    card_actions_tracker: HashMap<usize, Vec<ActionID>>,
}

/// The names of a list of actions.
pub open spec fn action_names(actions: Seq<ActionID>) -> Seq<Seq<char>> {
    actions.map_values(|a: ActionID| a@)
}

/// The position of the action named like `action_id` among `names`, if there is one.
fn find_name(names: &Vec<ActionID>, action_id: &ActionID) -> (r: Option<usize>)
    ensures
        match r {
            Some(i) => i < names@.len() && names@[i as int]@ == action_id@,
            None => forall|i: int| 0 <= i < names@.len() ==> names@[i]@ != action_id@,
        },
{
    let mut i: usize = 0;
    while i < names.len()
        invariant
            i <= names@.len(),
            forall|j: int| 0 <= j < i ==> names@[j]@ != action_id@,
        decreases names@.len() - i,
    {
        if names[i].same(action_id) {
            return Some(i);
        }
        i = i + 1;
    }
    None
}

/// Each name once, a card set for each name, and each recorded action among the names.
spec fn actions_wf(names: Seq<ActionID>, cards_len: nat, tracker: Map<usize, Vec<ActionID>>) -> bool {
    &&& names.len() == cards_len
    &&& forall|i: int, j: int| 0 <= i < j < names.len() ==> names[i]@ != names[j]@
    &&& forall|c: usize, k: int|
        #![trigger tracker[c]@[k]]
        tracker.contains_key(c) && 0 <= k < tracker[c]@.len() ==> action_names(names).contains(tracker[c]@[k]@)
}

impl CardActions {
    /// The names of the actions, each once.
    pub closed spec fn names_spec(self) -> Seq<Seq<char>> {
        action_names(self.names@)
    }

    /// The cards that can take each action, in the order of [`Self::names_spec`].
    pub closed spec fn cards_spec(self) -> Seq<Set<usize>> {
        self.cards@.map_values(|s: HashSet<usize>| s@)
    }

    /// The actions recorded for each card.
    pub closed spec fn tracker_spec(self) -> Map<usize, Seq<Seq<char>>> {
        self.card_actions_tracker@.map_values(|v: Vec<ActionID>| action_names(v@))
    }

    /// Each name once, a card set for each name, and each held action known.
    #[verifier::type_invariant]
    closed spec fn wf(self) -> bool {
        actions_wf(self.names@, self.cards@.len(), self.card_actions_tracker@)
    }

    /// Whether `card` can take the action named `name`.
    pub open spec fn contains_spec(self, name: Seq<char>, card: CardID) -> bool {
        exists|i: int|
            0 <= i < self.names_spec().len() && self.names_spec()[i] == name
                && #[trigger] self.cards_spec()[i].contains(card@)
    }

    /// Whether actions were recorded for `card`.
    pub open spec fn tracks_card(self, card: CardID) -> bool {
        self.tracker_spec().contains_key(card@)
    }

    /// The actions recorded for `card`, none where it has no record.
    pub open spec fn held_spec(self, card: CardID) -> Seq<Seq<char>> {
        if self.tracks_card(card) {
            self.tracker_spec()[card@]
        } else {
            Seq::empty()
        }
    }

    /// `after` is `self` once `card` was recorded to take the action `name`.
    pub open spec fn inserted(self, after: CardActions, name: Seq<char>, card: CardID) -> bool {
        &&& (exists|i: int| 0 <= i < self.names_spec().len() && self.names_spec()[i] == name) ==> {
            &&& after.names_spec() == self.names_spec()
            &&& after.cards_spec().len() == self.cards_spec().len()
            &&& forall|i: int|
                0 <= i < self.cards_spec().len() ==> #[trigger] after.cards_spec()[i] == if self.names_spec()[i]
                    == name {
                    self.cards_spec()[i].insert(card@)
                } else {
                    self.cards_spec()[i]
                }
            &&& after.tracker_spec() == self.tracker_spec().insert(card@, self.held_spec(card).push(name))
        }
        &&& !(exists|i: int| 0 <= i < self.names_spec().len() && self.names_spec()[i] == name) ==> {
            &&& after.names_spec() == self.names_spec().push(name)
            &&& after.cards_spec() == self.cards_spec().push(set![card@])
            &&& after.tracker_spec() == self.tracker_spec().insert(card@, seq![name])
        }
    }

    fn new() -> (r: Self)
        ensures
            r.names_spec().len() == 0,
            r.cards_spec().len() == 0,
            r.tracker_spec() == Map::<usize, Seq<Seq<char>>>::empty(),
    {
        let r = CardActions { names: Vec::new(), cards: Vec::new(), card_actions_tracker: HashMap::new() };
        assert(r.tracker_spec() =~= Map::<usize, Seq<Seq<char>>>::empty());
        r
    }

    /// The position of the action named like `action_id`, if there is one.
    fn find(&self, action_id: &ActionID) -> (r: Option<usize>)
        ensures
            match r {
                Some(i) => i < self.names_spec().len() && self.names_spec()[i as int] == action_id@,
                None => forall|i: int| 0 <= i < self.names_spec().len() ==> self.names_spec()[i] != action_id@,
            },
    {
        find_name(&self.names, action_id)
    }

    /// Whether `card_id` can take the action `action_id`.
    pub fn contains_action(&self, action_id: ActionID, card_id: CardID) -> (r: bool)
        ensures
            r == self.contains_spec(action_id@, card_id),
    {
        proof {
            use_type_invariant(self);
        }
        match self.find(&action_id) {
            Some(i) => {
                let r = self.cards[i].contains(&card_id.value());
                proof {
                    assert(self.cards_spec()[i as int] == self.cards@[i as int]@);
                    if r {
                        assert(self.cards_spec()[i as int].contains(card_id@));
                    } else {
                        assert forall|j: int| 0 <= j < self.names_spec().len() && self.names_spec()[j] == action_id@ implies !#[trigger] self.cards_spec()[j].contains(card_id@) by {
                            if j != i {
                                assert(self.names@[j]@ == self.names@[i as int]@);
                            }
                        }
                    }
                }
                r
            },
            None => false,
        }
    }

    /// Records that `card_id` can take the action `action_id`. For an action already
    /// known, the action is added after those recorded for the card; for a new action,
    /// the card's record becomes that action alone. A card without a record gets one.
    pub fn insert_action(&mut self, action_id: ActionID, card_id: CardID)
        ensures
            old(self).inserted(*final(self), action_id@, card_id),
            final(self).names_spec().len() == final(self).cards_spec().len(),
            final(self).contains_spec(action_id@, card_id),
            forall|name: Seq<char>, card: CardID|
                !(name == action_id@ && card@ == card_id@) ==> #[trigger] final(self).contains_spec(name, card)
                    == old(self).contains_spec(name, card),
    {
        proof {
            use_type_invariant(&*self);
        }
        let found = self.find(&action_id);
        let mut this = CardActions::new();
        core::mem::swap(&mut this, self);
        let CardActions { mut names, mut cards, mut card_actions_tracker } = this;
        let ghost old_tracker = old(self).card_actions_tracker@;
        let ghost old_names = old(self).names@;
        match found {
            Some(i) => {
                let mut held = match card_actions_tracker.remove(&card_id.value()) {
                    Some(h) => h,
                    None => Vec::new(),
                };
                let ghost prior = held@;
                assert(action_names(prior) == old(self).held_spec(card_id)) by {
                    if !old_tracker.contains_key(card_id@) {
                        assert(action_names(prior) =~= Seq::<Seq<char>>::empty());
                    }
                }
                held.push(action_id);
                let ghost h = held@;
                assert(action_names(h) =~= old(self).held_spec(card_id).push(action_id@));
                card_actions_tracker.insert(card_id.value(), held);
                let set = &mut cards[i];
                set.insert(card_id.value());
                proof {
                    assert forall|c: usize, k: int|
                        #![trigger card_actions_tracker@[c]@[k]]
                        card_actions_tracker@.contains_key(c) && 0 <= k < card_actions_tracker@[c]@.len()
                        implies action_names(names@).contains(card_actions_tracker@[c]@[k]@) by {
                        if c == card_id@ && k == h.len() - 1 {
                            assert(action_names(names@)[i as int] == card_actions_tracker@[c]@[k]@);
                        } else {
                            assert(card_actions_tracker@[c]@[k] == old_tracker[c]@[k]);
                        }
                    }
                    assert(actions_wf(names@, cards@.len(), card_actions_tracker@));
                }
                *self = CardActions { names, cards, card_actions_tracker };
                assert forall|j: int| 0 <= j < old(self).cards_spec().len() implies #[trigger] self.cards_spec()[j] == if old(
                    self,
                ).names_spec()[j] == action_id@ {
                    old(self).cards_spec()[j].insert(card_id@)
                } else {
                    old(self).cards_spec()[j]
                } by {
                    if j != i {
                        assert(old(self).names@[j]@ != old(self).names@[i as int]@);
                    }
                }
                assert(self.tracker_spec() =~= old(self).tracker_spec().insert(card_id@, old(self).held_spec(card_id).push(action_id@)));
            },
            None => {
                let mut set = HashSet::new();
                set.insert(card_id.value());
                assert(set@ =~= set![card_id@]);
                names.push(action_id);
                cards.push(set);
                let mut held = Vec::new();
                held.push(action_id);
                let ghost h = held@;
                assert(action_names(h) =~= seq![action_id@]);
                card_actions_tracker.insert(card_id.value(), held);
                proof {
                    assert forall|c: usize, k: int|
                        #![trigger card_actions_tracker@[c]@[k]]
                        card_actions_tracker@.contains_key(c) && 0 <= k < card_actions_tracker@[c]@.len()
                        implies action_names(names@).contains(card_actions_tracker@[c]@[k]@) by {
                        if c == card_id@ && k == h.len() - 1 {
                            assert(action_names(names@)[names@.len() - 1] == card_actions_tracker@[c]@[k]@);
                        } else {
                            assert(card_actions_tracker@[c]@[k] == old_tracker[c]@[k]);
                            assert(action_names(old_names).contains(old_tracker[c]@[k]@));
                            let j = choose|j: int| 0 <= j < old_names.len() && action_names(old_names)[j] == old_tracker[c]@[k]@;
                            assert(action_names(names@)[j] == action_names(old_names)[j]);
                        }
                    }
                    assert forall|a: int, b: int| 0 <= a < b < names@.len() implies names@[a]@ != names@[b]@ by {
                        if b == names@.len() - 1 {
                            assert(old(self).names_spec()[a] == old_names[a]@);
                        }
                    }
                    assert(actions_wf(names@, cards@.len(), card_actions_tracker@));
                }
                *self = CardActions { names, cards, card_actions_tracker };
                assert(self.names_spec() =~= old(self).names_spec().push(action_id@));
                assert(self.cards_spec() =~= old(self).cards_spec().push(set![card_id@]));
                assert(self.tracker_spec() =~= old(self).tracker_spec().insert(card_id@, seq![action_id@]));
            },
        }
        proof {
            use_type_invariant(&*self);
            lemma_inserted_action_is_contained(*old(self), *self, action_id@, card_id);
        }
    }
}

impl Clone for CardActions {
    /// The same names, card sets and records.
    fn clone(&self) -> (r: Self)
        ensures
            r.names_spec() == self.names_spec(),
            r.cards_spec() == self.cards_spec(),
            r.tracker_spec() == self.tracker_spec(),
    {
        proof {
            use_type_invariant(self);
        }
        let mut names: Vec<ActionID> = Vec::new();
        let mut cards: Vec<HashSet<usize>> = Vec::new();
        let mut i: usize = 0;
        while i < self.names.len()
            invariant
                i <= self.names@.len(),
                self.names@.len() == self.cards@.len(),
                names@ == self.names@.take(i as int),
                cards@.len() == i,
                forall|j: int| 0 <= j < i ==> #[trigger] cards@[j]@ == self.cards@[j]@,
            decreases self.names@.len() - i,
        {
            names.push(self.names[i]);
            cards.push(copy_set(&self.cards[i]));
            assert(self.names@.take(i + 1) =~= self.names@.take(i as int).push(self.names@[i as int]));
            i = i + 1;
        }
        assert(self.names@.take(self.names@.len() as int) =~= self.names@);
        let r = CardActions { names, cards, card_actions_tracker: self.card_actions_tracker.clone() };
        assert(r.cards_spec() =~= self.cards_spec());
        r
    }
}

impl<EventManager: Clone, ListenerInput: Clone> Clone for CardManager<EventManager, ListenerInput> {
    /// The same identifiers to hand out, card actions and records, and a copy of the
    /// event manager.
    fn clone(&self) -> (r: Self)
        ensures
            r.next_card_id_spec() == self.next_card_id_spec(),
            r.card_actions_spec().names_spec() == self.card_actions_spec().names_spec(),
            r.card_actions_spec().cards_spec() == self.card_actions_spec().cards_spec(),
            r.card_actions_spec().tracker_spec() == self.card_actions_spec().tracker_spec(),
            cloned(self.event_manager_spec(), r.event_manager_spec()),
            tracker_cloned(self.event_tracker_spec().events_spec(), r.event_tracker_spec().events_spec()),
    {
        CardManager {
            next_card_id_index: self.next_card_id_index,
            event_action_id_builder: self.event_action_id_builder.clone(),
            card_actions: self.card_actions.clone(),
            event_manager: self.event_manager.clone(),
            event_tracker: self.event_tracker.clone(),
        }
    }
}

/// `copy` holds the entries of `original` in order, each with a copy of its input.
pub open spec fn entries_cloned<ListenerInput: Clone>(
    original: Seq<TrackedListener<ListenerInput>>,
    copy: Seq<TrackedListener<ListenerInput>>,
) -> bool {
    &&& copy.len() == original.len()
    &&& forall|j: int|
        0 <= j < original.len() ==> {
            &&& (#[trigger] copy[j]).0 == original[j].0
            &&& copy[j].1 == original[j].1
            &&& copy[j].2 == original[j].2
            &&& cloned(original[j].3, copy[j].3)
        }
}

/// The tracker records of `original` and `copy` are for the same cards, and each card's
/// entries in `copy` are those of `original` with copies of their inputs.
pub open spec fn tracker_cloned<ListenerInput: Clone>(
    original: Map<usize, Seq<TrackedListener<ListenerInput>>>,
    copy: Map<usize, Seq<TrackedListener<ListenerInput>>>,
) -> bool {
    &&& copy.dom() == original.dom()
    &&& forall|c: usize| #[trigger] original.contains_key(c) ==> entries_cloned(original[c], copy[c])
}

impl<EventManager, ListenerInput: Clone> Clone for CardEventTracker<EventManager, ListenerInput> {
    /// The same records, each with a copy of its input.
    fn clone(&self) -> (r: Self)
        ensures
            tracker_cloned(self.events_spec(), r.events_spec()),
    {
        let keys = keys_of(&self.events);
        let mut events: HashMap<usize, Vec<TrackedListener<ListenerInput>>> = HashMap::new();
        let mut i: usize = 0;
        while i < keys.len()
            invariant
                i <= keys@.len(),
                keys@.to_set() == self.events@.dom(),
                events@.dom() == keys@.take(i as int).to_set(),
                forall|c: usize| #[trigger] events@.contains_key(c) ==> entries_cloned(self.events@[c]@, events@[c]@),
            decreases keys@.len() - i,
        {
            let key = keys[i];
            assert(keys@.to_set().contains(key));
            let entries = self.events.get(&key).unwrap();
            let mut copy: Vec<TrackedListener<ListenerInput>> = Vec::new();
            let mut j: usize = 0;
            while j < entries.len()
                invariant
                    j <= entries@.len(),
                    copy@.len() == j,
                    forall|k: int|
                        0 <= k < j ==> {
                            &&& (#[trigger] copy@[k]).0 == entries@[k].0
                            &&& copy@[k].1 == entries@[k].1
                            &&& copy@[k].2 == entries@[k].2
                            &&& cloned(entries@[k].3, copy@[k].3)
                        },
                decreases entries@.len() - j,
            {
                let entry = &entries[j];
                let input = entry.3.clone();
                assert(cloned(entry.3, input));
                copy.push((entry.0, entry.1, entry.2, input));
                j = j + 1;
            }
            events.insert(key, copy);
            proof {
                assert(keys@.take(i + 1) =~= keys@.take(i as int).push(key));
                keys@.take(i as int).lemma_push_to_set_commute(key);
            }
            i = i + 1;
        }
        assert(keys@.take(keys@.len() as int) =~= keys@);
        let r = CardEventTracker { events, _m: core::marker::PhantomData };
        assert(r.events_spec().dom() =~= self.events_spec().dom());
        r
    }
}

impl CardActions {
    /// `after` is `self` once `card_id` was let take each action recorded for
    /// `to_copy_card_id`; nothing is recorded for `card_id`.
    pub open spec fn actions_copied(self, after: CardActions, card_id: CardID, to_copy_card_id: CardID) -> bool {
        &&& after.names_spec() == self.names_spec()
        &&& after.tracker_spec() == self.tracker_spec()
        &&& after.cards_spec().len() == self.cards_spec().len()
        &&& forall|i: int|
            0 <= i < self.cards_spec().len() ==> #[trigger] after.cards_spec()[i] == if self.tracks_card(
                to_copy_card_id,
            ) && self.tracker_spec()[to_copy_card_id@].contains(self.names_spec()[i]) {
                self.cards_spec()[i].insert(card_id@)
            } else {
                self.cards_spec()[i]
            }
    }

    /// Lets `card_id` take each action recorded for `to_copy_card_id`.
    ///
    /// The actions are not recorded for `card_id` itself.
    pub fn copy_actions(&mut self, card_id: CardID, to_copy_card_id: CardID)
        ensures
            old(self).actions_copied(*final(self), card_id, to_copy_card_id),
            final(self).names_spec().len() == final(self).cards_spec().len(),
            forall|name: Seq<char>|
                old(self).held_spec(to_copy_card_id).contains(name)
                    ==> #[trigger] final(self).contains_spec(name, card_id),
            forall|name: Seq<char>, card: CardID|
                !(card@ == card_id@ && old(self).held_spec(to_copy_card_id).contains(name))
                    ==> #[trigger] final(self).contains_spec(name, card) == old(self).contains_spec(name, card),
    {
        proof {
            use_type_invariant(&*self);
        }
        let mut this = CardActions::new();
        core::mem::swap(&mut this, self);
        let CardActions { names, mut cards, card_actions_tracker } = this;
        let ghost old_cards = cards@;
        match card_actions_tracker.get(&to_copy_card_id.value()) {
            Some(held) => {
                let mut k: usize = 0;
                while k < held.len()
                    invariant
                        k <= held@.len(),
                        names@ == old(self).names@,
                        card_actions_tracker@ == old(self).card_actions_tracker@,
                        card_actions_tracker@.contains_key(to_copy_card_id@),
                        *held == card_actions_tracker@[to_copy_card_id@],
                        actions_wf(names@, old_cards.len(), card_actions_tracker@),
                        cards@.len() == old_cards.len(),
                        forall|i: int|
                            0 <= i < old_cards.len() ==> #[trigger] cards@[i]@ == if action_names(
                                held@.take(k as int),
                            ).contains(action_names(names@)[i]) {
                                old_cards[i]@.insert(card_id@)
                            } else {
                                old_cards[i]@
                            },
                    decreases held@.len() - k,
                {
                    let action_id = held[k];
                    assert(action_names(names@).contains(held@[k as int]@));
                    let i = find_name(&names, &action_id).unwrap();
                    let ghost before = cards@;
                    let set = &mut cards[i];
                    set.insert(card_id.value());
                    proof {
                        let prev = action_names(held@.take(k as int));
                        let next = action_names(held@.take(k + 1));
                        assert(next =~= prev.push(action_id@));
                        assert forall|j: int| 0 <= j < old_cards.len() implies #[trigger] cards@[j]@ == if next.contains(
                            action_names(names@)[j],
                        ) {
                            old_cards[j]@.insert(card_id@)
                        } else {
                            old_cards[j]@
                        } by {
                            let x = action_names(names@)[j];
                            if prev.contains(x) {
                                let m = choose|m: int| 0 <= m < prev.len() && prev[m] == x;
                                assert(next[m] == x);
                            }
                            if j == i {
                                assert(next[k as int] == x);
                                assert(cards@[j]@ =~= old_cards[j]@.insert(card_id@));
                            } else {
                                assert(cards@[j] == before[j]);
                                if next.contains(x) && !prev.contains(x) {
                                    let m = choose|m: int| 0 <= m < next.len() && next[m] == x;
                                    if m < k {
                                        assert(prev[m] == x);
                                    }
                                    assert(names@[j]@ == names@[i as int]@);
                                }
                            }
                        }
                    }
                    k = k + 1;
                }
                proof {
                    assert(held@.take(held@.len() as int) =~= held@);
                }
            },
            None => {},
        }
        proof {
            assert(actions_wf(names@, cards@.len(), card_actions_tracker@));
        }
        *self = CardActions { names, cards, card_actions_tracker };
        proof {
            assert forall|i: int| 0 <= i < old(self).cards_spec().len() implies #[trigger] self.cards_spec()[i]
                == if old(self).tracks_card(to_copy_card_id) && old(self).tracker_spec()[to_copy_card_id@].contains(
                old(self).names_spec()[i],
            ) {
                old(self).cards_spec()[i].insert(card_id@)
            } else {
                old(self).cards_spec()[i]
            } by {
                if old(self).tracks_card(to_copy_card_id) {
                    assert(old(self).tracker_spec()[to_copy_card_id@] == action_names(old(self).card_actions_tracker@[to_copy_card_id@]@));
                }
            }
        }
        proof {
            use_type_invariant(&*self);
            assert forall|name: Seq<char>| #[trigger] old(self).held_spec(to_copy_card_id).contains(name) implies old(self).names_spec().contains(name) by {
                let held = old(self).card_actions_tracker@[to_copy_card_id@]@;
                let k = choose|k: int| 0 <= k < old(self).held_spec(to_copy_card_id).len() && old(self).held_spec(to_copy_card_id)[k] == name;
                assert(action_names(held)[k] == held[k]@);
                assert(action_names(old(self).names@).contains(old(self).card_actions_tracker@[to_copy_card_id@]@[k]@));
            }
            lemma_copied_actions_are_contained(*old(self), *self, card_id, to_copy_card_id);
        }
    }
}

/// Once a card was recorded to take an action, it can take it, and every other card
/// and action are as before.
pub proof fn lemma_inserted_action_is_contained(before: CardActions, after: CardActions, name: Seq<char>, card: CardID)
    requires
        before.names_spec().len() == before.cards_spec().len(),
        before.inserted(after, name, card),
    ensures
        after.names_spec().len() == after.cards_spec().len(),
        after.contains_spec(name, card),
        forall|n: Seq<char>, c: CardID|
            !(n == name && c@ == card@) ==> #[trigger] after.contains_spec(n, c) == before.contains_spec(n, c),
{
    if exists|i: int| 0 <= i < before.names_spec().len() && before.names_spec()[i] == name {
        let i = choose|i: int| 0 <= i < before.names_spec().len() && before.names_spec()[i] == name;
        assert(after.cards_spec()[i] == before.cards_spec()[i].insert(card@));
        assert(after.names_spec()[i] == name);
        assert(after.cards_spec()[i].contains(card@));
        assert forall|n: Seq<char>, c: CardID|
            !(n == name && c@ == card@) implies #[trigger] after.contains_spec(n, c) == before.contains_spec(n, c) by {
            if after.contains_spec(n, c) {
                let j = choose|j: int|
                    0 <= j < after.names_spec().len() && after.names_spec()[j] == n && #[trigger] after.cards_spec()[j].contains(c@);
                assert(before.cards_spec()[j].contains(c@));
            }
            if before.contains_spec(n, c) {
                let j = choose|j: int|
                    0 <= j < before.names_spec().len() && before.names_spec()[j] == n && #[trigger] before.cards_spec()[j].contains(c@);
                assert(after.cards_spec()[j].contains(c@));
            }
        }
    } else {
        let i = before.names_spec().len() as int;
        assert(after.names_spec()[i] == name);
        assert(after.cards_spec()[i].contains(card@));
        assert forall|n: Seq<char>, c: CardID|
            !(n == name && c@ == card@) implies #[trigger] after.contains_spec(n, c) == before.contains_spec(n, c) by {
            if after.contains_spec(n, c) {
                let j = choose|j: int|
                    0 <= j < after.names_spec().len() && after.names_spec()[j] == n && #[trigger] after.cards_spec()[j].contains(c@);
                if j == i {
                    assert(after.cards_spec()[j] == set![card@]);
                } else {
                    assert(before.cards_spec()[j].contains(c@));
                }
            }
            if before.contains_spec(n, c) {
                let j = choose|j: int|
                    0 <= j < before.names_spec().len() && before.names_spec()[j] == n && #[trigger] before.cards_spec()[j].contains(c@);
                assert(after.cards_spec()[j] == before.cards_spec()[j]);
                assert(after.names_spec()[j] == n);
            }
        }
    }
}

/// Once a card copied the actions of another, it can take each action recorded for the
/// other card, and every other card and action are as before.
pub proof fn lemma_copied_actions_are_contained(before: CardActions, after: CardActions, card: CardID, to_copy: CardID)
    requires
        before.names_spec().len() == before.cards_spec().len(),
        forall|name: Seq<char>| #[trigger] before.held_spec(to_copy).contains(name) ==> before.names_spec().contains(name),
        before.actions_copied(after, card, to_copy),
    ensures
        after.names_spec().len() == after.cards_spec().len(),
        forall|name: Seq<char>| before.held_spec(to_copy).contains(name) ==> #[trigger] after.contains_spec(name, card),
        forall|name: Seq<char>, c: CardID|
            !(c@ == card@ && before.held_spec(to_copy).contains(name)) ==> #[trigger] after.contains_spec(name, c)
                == before.contains_spec(name, c),
{
    assert forall|name: Seq<char>| before.held_spec(to_copy).contains(name) implies #[trigger] after.contains_spec(name, card) by {
        assert(before.names_spec().contains(name));
        let i = choose|i: int| 0 <= i < before.names_spec().len() && before.names_spec()[i] == name;
        assert(after.cards_spec()[i].contains(card@));
    }
    assert forall|name: Seq<char>, c: CardID|
        !(c@ == card@ && before.held_spec(to_copy).contains(name)) implies #[trigger] after.contains_spec(name, c)
            == before.contains_spec(name, c) by {
        if after.contains_spec(name, c) {
            let j = choose|j: int|
                0 <= j < after.names_spec().len() && after.names_spec()[j] == name && #[trigger] after.cards_spec()[j].contains(c@);
            assert(before.cards_spec()[j].contains(c@));
        }
        if before.contains_spec(name, c) {
            let j = choose|j: int|
                0 <= j < before.names_spec().len() && before.names_spec()[j] == name && #[trigger] before.cards_spec()[j].contains(c@);
            assert(after.cards_spec()[j].contains(c@));
        }
    }
}

/// Identifies an event manager of a game.
#[derive(Debug, Clone, Copy, Hash, PartialEq, Eq, Structural)]
pub struct EventManagerID(usize);

impl View for EventManagerID {
    type V = usize;

    closed spec fn view(&self) -> usize {
        self.0
    }
}

impl EventManagerID {
    pub fn new(index: usize) -> (r: Self)
        ensures
            r@ == index,
    {
        EventManagerID(index)
    }

    pub fn index(&self) -> (r: usize)
        ensures
            r == self@,
    {
        self.0
    }
}

/// The position of a listener in its event manager.
#[derive(Debug, Clone, Copy, Hash, PartialEq, Eq, Structural)]
pub struct EventManagerIndex(usize);

impl View for EventManagerIndex {
    type V = usize;

    closed spec fn view(&self) -> usize {
        self.0
    }
}

impl EventManagerIndex {
    pub(crate) fn new(index: usize) -> (r: Self)
        ensures
            r@ == index,
    {
        EventManagerIndex(index)
    }

    pub(crate) fn index(&self) -> (r: usize)
        ensures
            r == self@,
    {
        self.0
    }
}

/// What the tracker keeps of a listener a card added: the identifier it was added under,
/// where it sits, and the input it was made from.
pub type TrackedListener<ListenerInput> = (EventActionID, EventManagerID, EventManagerIndex, ListenerInput);

/// `listener` is made, for `card_id`, from a copy of the input kept in `entry`.
pub open spec fn rebuilt_from<State, Ev: Event<State>, Listener: EventListenerConstructor<State, Ev>>(
    entry: TrackedListener<Listener::Input>,
    card_id: CardID,
    listener: Listener,
) -> bool where Listener::Input: Clone {
    exists|input: Listener::Input|
        cloned(entry.3, input) && call_ensures(Listener::new_listener, (SourceCardID(card_id), input), listener)
}

/// `added` holds one listener for each of `entries`, in order, each made for `card_id`
/// from a copy of the entry's input.
pub open spec fn listeners_rebuilt<State, Ev: Event<State>, Listener: EventListenerConstructor<State, Ev>>(
    entries: Seq<TrackedListener<Listener::Input>>,
    card_id: CardID,
    added: Seq<Listener>,
) -> bool where Listener::Input: Clone {
    &&& added.len() == entries.len()
    &&& forall|j: int| 0 <= j < entries.len() ==> #[trigger] rebuilt_from(entries[j], card_id, added[j])
}

/// The listeners each card added to the event managers.
pub struct CardEventTracker<EventManager, ListenerInput = ()> {
    events: HashMap<usize, Vec<TrackedListener<ListenerInput>>>,
    _m: core::marker::PhantomData<EventManager>,
}

impl<EventManager, ListenerInput> CardEventTracker<EventManager, ListenerInput> {
    /// The listeners of each card, in the order they were added.
    pub closed spec fn events_spec(self) -> Map<usize, Seq<TrackedListener<ListenerInput>>> {
        self.events@.map_values(|v: Vec<TrackedListener<ListenerInput>>| v@)
    }

    fn new() -> (r: Self)
        ensures
            r.events_spec() == Map::<usize, Seq<TrackedListener<ListenerInput>>>::empty(),
    {
        let r = CardEventTracker { events: HashMap::new(), _m: core::marker::PhantomData };
        assert(r.events_spec() =~= Map::<usize, Seq<TrackedListener<ListenerInput>>>::empty());
        r
    }

    /// Records that `card_id` added, from `listener_input`, a listener at `index` of the
    /// event manager `id`.
    pub(crate) fn track_event(
        &mut self,
        card_id: CardID,
        event_action_id: EventActionID,
        id: EventManagerID,
        index: EventManagerIndex,
        listener_input: ListenerInput,
    )
        ensures
            final(self).events_spec() == old(self).events_spec().insert(
                card_id@,
                if old(self).events_spec().contains_key(card_id@) {
                    old(self).events_spec()[card_id@].push((event_action_id, id, index, listener_input))
                } else {
                    seq![(event_action_id, id, index, listener_input)]
                },
            ),
    {
        let value = (event_action_id, id, index, listener_input);
        let ghost v = value;
        match self.events.remove(&card_id.value()) {
            Some(mut events) => {
                events.push(value);
                self.events.insert(card_id.value(), events);
            },
            None => {
                let mut events = Vec::new();
                events.push(value);
                self.events.insert(card_id.value(), events);
                assert(events@ =~= seq![v]);
            },
        }
        assert(self.events_spec() =~= old(self).events_spec().insert(
            card_id@,
            if old(self).events_spec().contains_key(card_id@) {
                old(self).events_spec()[card_id@].push(v)
            } else {
                seq![v]
            },
        ));
    }

    /// Gives `card_id`, in `event_manager`, a listener made from a copy of the input of
    /// each listener that `to_copy_card_id` added, in the order they were added.
    pub(crate) fn copy_events<State, Ev: Event<State>, Listener: EventListenerConstructor<State, Ev, Input = ListenerInput>>(
        &mut self,
        event_manager: &mut EventManager,
        card_id: CardID,
        to_copy_card_id: CardID,
    ) where EventManager: AddEventListener<State, Ev, Listener = Listener>, ListenerInput: Clone
        ensures
            final(self).events_spec() == old(self).events_spec(),
            !old(self).events_spec().contains_key(to_copy_card_id@) ==> final(event_manager).listeners_spec()
                == old(event_manager).listeners_spec(),
            old(self).events_spec().contains_key(to_copy_card_id@) ==> exists|added: Seq<Listener>|
                listeners_rebuilt(old(self).events_spec()[to_copy_card_id@], card_id, added)
                    && final(event_manager).listeners_spec() == old(event_manager).listeners_spec() + added,
    {
        match self.events.get(&to_copy_card_id.value()) {
            Some(events) => {
                let ghost start = event_manager.listeners_spec();
                let ghost mut added: Seq<Listener> = Seq::empty();
                let mut i: usize = 0;
                while i < events.len()
                    invariant
                        i <= events@.len(),
                        listeners_rebuilt(events@.take(i as int), card_id, added),
                        event_manager.listeners_spec() == start + added,
                    decreases events@.len() - i,
                {
                    let entry = &events[i];
                    let input = entry.3.clone();
                    assert(cloned(entry.3, input));
                    assert(entry.3 == events@[i as int].3);
                    let listener = Listener::new_listener(SourceCardID(card_id), input);
                    assert(call_ensures(Listener::new_listener, (SourceCardID(card_id), input), listener));
                    assert(rebuilt_from(events@[i as int], card_id, listener));
                    event_manager.add_listener(listener);
                    proof {
                        let prev = added;
                        added = added.push(listener);
                        assert forall|j: int| 0 <= j < events@.take(i + 1).len() implies #[trigger] rebuilt_from(
                            events@.take(i + 1)[j],
                            card_id,
                            added[j],
                        ) by {
                            if j < i {
                                assert(events@.take(i + 1)[j] == events@.take(i as int)[j]);
                                assert(added[j] == prev[j]);
                            }
                        }
                        assert(start + added =~= (start + prev).push(listener));
                    }
                    i = i + 1;
                }
                assert(events@.take(events@.len() as int) =~= events@);
            },
            None => {},
        }
    }

    /// The listeners that `card_id` added, if it added any.
    pub(crate) fn events_for_card(&self, card_id: CardID) -> (r: Option<Vec<(EventManagerID, EventManagerIndex)>>)
        ensures
            !self.events_spec().contains_key(card_id@) ==> r is None,
            self.events_spec().contains_key(card_id@) ==> (r matches Some(v) && v@.len()
                == self.events_spec()[card_id@].len() && forall|i: int|
                0 <= i < v@.len() ==> #[trigger] v@[i] == (
                    self.events_spec()[card_id@][i].1,
                    self.events_spec()[card_id@][i].2,
                )),
    {
        match self.events.get(&card_id.value()) {
            Some(events) => {
                let mut r: Vec<(EventManagerID, EventManagerIndex)> = Vec::new();
                let mut i: usize = 0;
                while i < events.len()
                    invariant
                        i <= events@.len(),
                        r@.len() == i,
                        forall|j: int| 0 <= j < i ==> #[trigger] r@[j] == (events@[j].1, events@[j].2),
                    decreases events@.len() - i,
                {
                    let id = events[i].1;
                    let index = events[i].2;
                    r.push((id, index));
                    i = i + 1;
                }
                Some(r)
            },
            None => None,
        }
    }
}

} // verus!
