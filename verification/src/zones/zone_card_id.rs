use vstd::prelude::*;

use crate::cards::CardID;
use crate::zones::{Zone, ZoneContext};

verus! {

/// A card identifier that was found in a zone of type `Z`.
pub struct ZoneCardID<'a, Z: Zone>(CardID, core::marker::PhantomData<&'a Z>);

impl<'a, Z: Zone> View for ZoneCardID<'a, Z> {
    type V = CardID;

    closed spec fn view(&self) -> CardID {
        self.0
    }
}

impl<'a, Z: Zone> ZoneCardID<'a, Z> {
    /// The zone identifier of `card_id`.
    pub closed spec fn of(card_id: CardID) -> Self {
        ZoneCardID(card_id, core::marker::PhantomData)
    }

    /// A zone identifier is determined by the identifier it holds.
    pub proof fn lemma_of(v: Self, card_id: CardID)
        ensures
            Self::of(v@) == v,
            Self::of(card_id)@ == card_id,
    {
    }

    pub(crate) fn new(card_id: CardID) -> (r: Self)
        ensures
            r == Self::of(card_id),
            r@ == card_id,
    {
        ZoneCardID(card_id, core::marker::PhantomData)
    }

    pub(crate) fn clone_id(&self) -> (r: Self)
        ensures
            r == *self,
    {
        ZoneCardID::new(self.0.clone_id())
    }

    pub fn card_id(&self) -> (r: CardID)
        ensures
            r == self@,
    {
        self.0
    }

    /// What `f` takes out for this identifier, which must be something.
    pub fn remove<T>(&self, f: impl FnOnce(&Self) -> Option<T>) -> (r: T)
        requires
            f.requires((self,)),
            forall|o: Option<T>| f.ensures((self,), o) ==> o is Some,
        ensures
            f.ensures((self,), Some(r)),
    {
        f(self).unwrap()
    }
}

/// A state together with a card that was found in one of its zones.
pub struct ValidZoneCardContext<State, Z> {
    card_id: CardID,
    state: State,
    _p: core::marker::PhantomData<Z>,
}

impl<State, Z: Zone> ValidZoneCardContext<State, Z> {
    pub closed spec fn card_id_spec(self) -> CardID {
        self.card_id
    }

    pub closed spec fn state_spec(self) -> State {
        self.state
    }

    /// Looks for a card in the zone that `get_zone` picks out of `state`, with
    /// `get_valid_card_id`.
    pub fn new(
        state: State,
        get_zone: impl Fn(&State) -> &Z,
        get_valid_card_id: impl for<'a> FnOnce(ZoneContext<'a, Z, ()>) -> ZoneCardID<'a, Z>,
    ) -> (r: Self)
        requires
            get_zone.requires((&state,)),
            forall|zone: &Z|
                get_zone.ensures((&state,), zone) ==> get_valid_card_id.requires(
                    (ZoneContext::<Z, ()>::of(zone),),
                ),
        ensures
            r.state_spec() == state,
            exists|zone: &Z, found: ZoneCardID<Z>|
                get_zone.ensures((&state,), zone) && get_valid_card_id.ensures(
                    (ZoneContext::<Z, ()>::of(zone),),
                    found,
                ) && found@ == r.card_id_spec(),
    {
        let card_id = {
            let zone = get_zone(&state);
            let found = get_valid_card_id(ZoneContext::new(zone));
            found.card_id()
        };
        ValidZoneCardContext { card_id, state, _p: core::marker::PhantomData }
    }

    /// Hands the state and the card that was found to `f`.
    pub fn execute<'a, R>(self, f: impl FnOnce(State, ZoneCardID<'a, Z>) -> R) -> (r: R) where Z: 'a
        requires
            f.requires((self.state_spec(), ZoneCardID::<'a, Z>::of(self.card_id_spec()))),
        ensures
            f.ensures((self.state_spec(), ZoneCardID::<'a, Z>::of(self.card_id_spec())), r),
    {
        f(self.state, ZoneCardID::new(self.card_id))
    }
}

} // verus!
