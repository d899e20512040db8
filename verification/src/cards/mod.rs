//! Cards, their identifiers and how they are built.
pub mod command;
pub mod description;
pub mod events;
pub mod manager;

pub use manager::{CardActions, CardEventTracker, CardManager, EventManagerID, EventManagerIndex};

use vstd::prelude::*;

use crate::events::{AddEventListener, Event, EventListenerConstructor};
use crate::identifications::{ActionIdentifier, SourceCardID, ValidCardID};
use crate::stack::priority::GetState;
use crate::validation::{
    StateFilter, StateFilterInput, StateFilterInputCombination, StateFilterInputConversion,
    ValidAction,
};

verus! {

/// A card: its identifier and what kind of card it is.
pub struct Card<Kind> {
    id: CardID,
    kind: Kind,
}

/// What a [`Card`] holds.
pub struct CardView<Kind> {
    pub id: CardID,
    pub kind: Kind,
}

impl<Kind> View for Card<Kind> {
    type V = CardView<Kind>;

    closed spec fn view(&self) -> CardView<Kind> {
        CardView { id: self.id, kind: self.kind }
    }
}

impl<Kind> Card<Kind> {
    pub fn new(card_id: CardID, kind: Kind) -> (r: Self)
        ensures
            r@.id == card_id,
            r@.kind == kind,
    {
        Card { id: card_id, kind }
    }

    pub fn id(&self) -> (r: CardID)
        ensures
            r == self@.id,
    {
        self.id
    }

    pub fn kind(&self) -> (r: &Kind)
        ensures
            *r == self@.kind,
    {
        &self.kind
    }

    pub fn kind_mut(&mut self) -> (r: &mut Kind)
        ensures
            *r == old(self)@.kind,
            final(self)@.kind == *final(r),
            final(self)@.id == old(self)@.id,
    {
        &mut self.kind
    }

    pub fn take_kind(self) -> (r: Kind)
        ensures
            r == self@.kind,
    {
        self.kind
    }

    /// The same card, as another kind.
    pub fn into_kind<NewKind>(self) -> (r: Card<NewKind>) where Kind: Into<NewKind>
        ensures
            r@.id == self@.id,
            call_ensures(Kind::into, (self@.kind,), r@.kind),
    {
        Card { id: self.id, kind: self.kind.into() }
    }
}

/// Identifies a card.
#[derive(Debug, Clone, Copy, PartialEq, Eq, Hash, Structural)]
pub struct CardID(usize);

impl View for CardID {
    type V = usize;

    closed spec fn view(&self) -> usize {
        self.0
    }
}

impl StateFilterInput for CardID {}

impl CardID {
    /// A card identifier is determined by its number.
    pub proof fn lemma_view_injective(a: CardID, b: CardID)
        ensures
            a@ == b@ ==> a == b,
    {
    }

    pub(crate) fn new(id: usize) -> (r: Self)
        ensures
            r@ == id,
    {
        CardID(id)
    }

    pub(crate) fn clone_id(&self) -> (r: Self)
        ensures
            r == *self,
    {
        CardID::new(self.0)
    }

    /// The number of this identifier.
    pub fn value(&self) -> (r: usize)
        ensures
            r == self@,
    {
        self.0
    }
}

/// Builds cards with fresh identifiers.
pub struct CardBuilder<'a, EventManager> {
    card_actions: &'a mut CardActions,
    event_manager: &'a mut EventManager,
    next_id: &'a mut usize,
}

impl<'a, EventManager> CardBuilder<'a, EventManager> {
    pub closed spec fn next_id_ref(self) -> &'a mut usize {
        self.next_id
    }

    pub closed spec fn card_actions_ref(self) -> &'a mut CardActions {
        self.card_actions
    }

    pub closed spec fn event_manager_ref(self) -> &'a mut EventManager {
        self.event_manager
    }

    pub(crate) fn new(
        card_actions: &'a mut CardActions,
        event_manager: &'a mut EventManager,
        next_id: &'a mut usize,
    ) -> (r: Self)
        ensures
            *r.card_actions_ref() == *old(card_actions),
            *r.event_manager_ref() == *old(event_manager),
            *r.next_id_ref() == *old(next_id),
            *final(card_actions) == *final(r.card_actions_ref()),
            *final(event_manager) == *final(r.event_manager_ref()),
            *final(next_id) == *final(r.next_id_ref()),
    {
        CardBuilder { card_actions, event_manager, next_id }
    }

    /// Starts a card of `kind` with the next free identifier.
    pub fn build<Kind>(self, kind: Kind) -> (r: CardKindBuilder<'a, EventManager, Kind>)
        requires
            *old(self.next_id_ref()) < usize::MAX,
        ensures
            r.card_spec()@.id@ == *old(self.next_id_ref()),
            r.card_spec()@.kind == kind,
            *final(self.next_id_ref()) == *old(self.next_id_ref()) + 1,
            *r.card_actions_ref() == *old(self.card_actions_ref()),
            *r.event_manager_ref() == *old(self.event_manager_ref()),
            *final(self.card_actions_ref()) == *final(r.card_actions_ref()),
            *final(self.event_manager_ref()) == *final(r.event_manager_ref()),
    {
        let CardBuilder { card_actions, event_manager, next_id } = self;
        let id = CardID::new(*next_id);
        *next_id = *next_id + 1;
        CardKindBuilder { card_actions, event_manager, card: Card::new(id, kind) }
    }
}

/// A card being built, with the actions and events it takes part in.
pub struct CardKindBuilder<'a, EventManager, Kind> {
    card_actions: &'a mut CardActions,
    event_manager: &'a mut EventManager,
    card: Card<Kind>,
}

impl<'a, EventManager, Kind> CardKindBuilder<'a, EventManager, Kind> {
    pub closed spec fn card_spec(self) -> Card<Kind> {
        self.card
    }

    pub closed spec fn card_actions_ref(self) -> &'a mut CardActions {
        self.card_actions
    }

    pub closed spec fn event_manager_ref(self) -> &'a mut EventManager {
        self.event_manager
    }

    /// Records that the card can take the action `Action`.
    pub fn with_action<Action: ActionIdentifier>(self) -> (r: Self)
        ensures
            r.card_spec() == self.card_spec(),
            old(self.card_actions_ref()).inserted(
                *r.card_actions_ref(),
                Action::action_id_spec()@,
                self.card_spec()@.id,
            ),
            r.card_actions_ref().contains_spec(Action::action_id_spec()@, self.card_spec()@.id),
            forall|name: Seq<char>, card: CardID|
                !(name == Action::action_id_spec()@ && card@ == self.card_spec()@.id@)
                    ==> #[trigger] r.card_actions_ref().contains_spec(name, card)
                    == old(self.card_actions_ref()).contains_spec(name, card),
            *final(self.card_actions_ref()) == *final(r.card_actions_ref()),
            *r.event_manager_ref() == *old(self.event_manager_ref()),
            *final(self.event_manager_ref()) == *final(r.event_manager_ref()),
    {
        let CardKindBuilder { card_actions, event_manager, card } = self;
        card_actions.insert_action(Action::action_id(), card.id());
        CardKindBuilder { card_actions, event_manager, card }
    }

    /// Sets up, for the card, a listener made from `listener_input`.
    pub fn with_event<State, Ev: Event<State>, Listener: EventListenerConstructor<State, Ev>>(
        self,
        listener_input: Listener::Input,
    ) -> (r: Self) where EventManager: AddEventListener<State, Ev, Listener = Listener>
        ensures
            r.card_spec() == self.card_spec(),
            *r.card_actions_ref() == *old(self.card_actions_ref()),
            *final(self.card_actions_ref()) == *final(r.card_actions_ref()),
            exists|listener: Listener|
                call_ensures(Listener::new_listener, (SourceCardID(self.card_spec()@.id), listener_input), listener)
                    && r.event_manager_ref().listeners_spec() == old(
                    self.event_manager_ref(),
                ).listeners_spec().push(listener),
            *final(self.event_manager_ref()) == *final(r.event_manager_ref()),
    {
        let CardKindBuilder { card_actions, event_manager, card } = self;
        let listener = Listener::new_listener(SourceCardID(card.id()), listener_input);
        assert(call_ensures(Listener::new_listener, (SourceCardID(card@.id), listener_input), listener));
        let ghost before = event_manager.listeners_spec();
        event_manager.add_listener(listener);
        assert(event_manager.listeners_spec() == before.push(listener));
        let r = CardKindBuilder { card_actions, event_manager, card };
        assert(r.event_manager_ref().listeners_spec() == old(self.event_manager_ref()).listeners_spec().push(listener));
        r
    }

    pub fn finish(self) -> (r: Card<Kind>)
        ensures
            r == self.card_spec(),
    {
        self.card
    }
}

/// Passes when the source card of the input can take the action `Action`.
pub struct SourceCardFilter<Action>(core::marker::PhantomData<Action>);

impl<
    Input: StateFilterInput + StateFilterInputConversion<SourceCardID>,
    Action: ValidAction<State, Input> + ActionIdentifier,
    State: GetState<CardActions>,
> StateFilter<State, Input> for SourceCardFilter<Action> where
    Input::Remainder: StateFilterInputCombination<ValidCardID<()>>,
 {
    type ValidOutput = <Input::Remainder as StateFilterInputCombination<ValidCardID<()>>>::Combined;
    type Error = InvalidSourceCardError;

    open spec fn filter_spec(state: State, value: Input) -> Result<Self::ValidOutput, InvalidSourceCardError> {
        let (source_card_id, remainder) = value.split_spec();
        if state.state_spec().contains_spec(Action::action_id_spec()@, source_card_id.0) {
            Ok(remainder.combine_spec(ValidCardID::of(source_card_id.0)))
        } else {
            Err(InvalidSourceCardError(source_card_id))
        }
    }

    fn filter(state: &State, value: Input) -> (r: Result<Self::ValidOutput, InvalidSourceCardError>) {
        let (source_card_id, remainder) = value.split_take();
        if state.state().contains_action(<Action as ActionIdentifier>::action_id(), source_card_id.0) {
            Ok(remainder.combine(ValidCardID::new(source_card_id.0)))
        } else {
            Err(InvalidSourceCardError(source_card_id))
        }
    }
}

/// The source-card filter lets an input through exactly when the card actions of the state
/// say its source card can take the action `Action`; otherwise it refuses with that source
/// card.
pub proof fn lemma_source_card_filter_passes_iff_card_can_act<
    State: GetState<CardActions>,
    Input: StateFilterInput + StateFilterInputConversion<SourceCardID>,
    Action: ValidAction<State, Input> + ActionIdentifier,
>(state: State, value: Input) where Input::Remainder: StateFilterInputCombination<ValidCardID<()>>
    ensures
        (<SourceCardFilter<Action> as StateFilter<State, Input>>::filter_spec(state, value) is Ok)
            <==> state.state_spec().contains_spec(Action::action_id_spec()@, value.split_spec().0.0),
        !state.state_spec().contains_spec(Action::action_id_spec()@, value.split_spec().0.0) ==> <SourceCardFilter<
            Action,
        > as StateFilter<State, Input>>::filter_spec(state, value) == Err::<
            <SourceCardFilter<Action> as StateFilter<State, Input>>::ValidOutput,
            InvalidSourceCardError,
        >(InvalidSourceCardError(value.split_spec().0)),
{
}

/// The source card cannot take the action.
pub struct InvalidSourceCardError(pub SourceCardID);

} // verus!
