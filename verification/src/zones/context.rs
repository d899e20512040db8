use vstd::prelude::*;

use crate::cards::{Card, CardID};
use crate::identifications::ValidCardID;
use crate::zones::{cards_hold, Zone};

verus! {

/// Read access to a zone, which hands out identifiers checked against it.
pub struct ZoneContext<'a, Z: Zone, T> {
    zone: &'a Z,
    _m: core::marker::PhantomData<T>,
}

impl<'a, Z: Zone, T> ZoneContext<'a, Z, T> {
    /// The context of `zone`.
    pub closed spec fn of(zone: &'a Z) -> Self {
        ZoneContext { zone, _m: core::marker::PhantomData }
    }

    /// The cards of the zone, in order.
    pub closed spec fn cards_spec(self) -> Seq<Card<Z::CardKind>> {
        self.zone.cards_spec()
    }

    pub(crate) fn new(zone: &'a Z) -> (r: Self)
        ensures
            r == Self::of(zone),
            r.cards_spec() == zone.cards_spec(),
    {
        ZoneContext { zone, _m: core::marker::PhantomData }
    }

    /// The checked identifier of `card_id`, if the zone holds that card.
    pub fn get_zone_card_id(&self, card_id: CardID) -> (r: Option<ValidCardID<(Z, T)>>)
        ensures
            match r {
                Some(valid) => valid@ == card_id && cards_hold(self.cards_spec(), card_id),
                None => !cards_hold(self.cards_spec(), card_id),
            },
    {
        match self.zone.get_card(card_id) {
            Some(card) => {
                proof {
                    let i = choose|i: int| 0 <= i < self.zone.cards_spec().len() && self.zone.cards_spec()[i] == *card;
                    assert(self.zone.cards_spec()[i]@.id == card_id);
                }
                Some(ValidCardID::new(card.id()))
            },
            None => None,
        }
    }

    /// The checked identifier of the card at `index`, if there is one.
    pub fn get_zone_card_id_from_index(&self, index: usize) -> (r: Option<ValidCardID<(Z, T)>>)
        ensures
            index < self.cards_spec().len() ==> (r matches Some(valid) && valid@ == self.cards_spec()[index as int]@.id),
            index >= self.cards_spec().len() ==> r is None,
    {
        match self.zone.get_card_from_index(index) {
            Some(card) => Some(ValidCardID::new(card.id())),
            None => None,
        }
    }

    /// The checked identifiers of the cards, in order.
    pub fn zone_card_ids(&self) -> (r: Vec<ValidCardID<(Z, T)>>)
        ensures
            r@.len() == self.cards_spec().len(),
            forall|i: int| 0 <= i < r@.len() ==> (#[trigger] r@[i])@ == self.cards_spec()[i]@.id,
    {
        let count = self.zone.filled_count();
        let mut r: Vec<ValidCardID<(Z, T)>> = Vec::new();
        let mut i: usize = 0;
        while i < count
            invariant
                count == self.cards_spec().len(),
                i <= count,
                r@.len() == i,
                forall|j: int| 0 <= j < i ==> (#[trigger] r@[j])@ == self.cards_spec()[j]@.id,
            decreases count - i,
        {
            let card = self.zone.get_card_from_index(i).unwrap();
            r.push(ValidCardID::new(card.id()));
            i = i + 1;
        }
        r
    }
}

} // verus!
