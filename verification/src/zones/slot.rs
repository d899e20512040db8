use vstd::prelude::*;

use crate::cards::Card;
use crate::zones::{added_or_replaced, FiniteZone, InfiniteZone, Zone};

verus! {

/// A zone made of slots.
pub trait SlotZone: Zone {
    fn max_slots(&self) -> usize;
}

/// A place for at most one card.
pub struct Slot<CardKind> {
    card: Option<Card<CardKind>>,
}

impl<CardKind> View for Slot<CardKind> {
    type V = Option<Card<CardKind>>;

    closed spec fn view(&self) -> Option<Card<CardKind>> {
        self.card
    }
}

impl<CardKind> Slot<CardKind> {
    /// An empty slot.
    pub fn new() -> (r: Self)
        ensures
            r@ is None,
    {
        Slot { card: None }
    }

    pub fn is_occupied(&self) -> (r: bool)
        ensures
            r == self@ is Some,
    {
        self.card.is_some()
    }

    /// Puts `card` in the slot and hands back the card that was there.
    pub fn put(&mut self, card: Card<CardKind>) -> (r: Option<Card<CardKind>>)
        ensures
            final(self)@ == Some(card),
            r == old(self)@,
    {
        let r = self.card.take();
        self.card = Some(card);
        r
    }

    pub fn occupier(&self) -> (r: Option<&Card<CardKind>>)
        ensures
            match r {
                Some(card) => self@ == Some(*card),
                None => self@ is None,
            },
    {
        match &self.card {
            Some(card) => Some(card),
            None => None,
        }
    }

    pub fn occupier_mut(&mut self) -> (r: Option<&mut Card<CardKind>>)
        ensures
            match r {
                Some(card) => old(self)@ == Some(*card) && final(self)@ == Some(*final(card)),
                None => old(self)@ is None && final(self)@ is None,
            },
    {
        match &mut self.card {
            Some(card) => Some(card),
            None => None,
        }
    }

    /// Prepares moving the card of this slot into `to_slot`.
    pub fn transfer_to_slot<'a, ToCardKind>(&'a mut self, to_slot: &'a mut Slot<ToCardKind>) -> (r: SlotToSlotTransport<'a, CardKind, ToCardKind>) where
        Card<CardKind>: Into<Card<ToCardKind>>,

        ensures
            *r.from_slot_ref() == *old(self),
            *r.to_slot_ref() == *old(to_slot),
            *final(self) == *final(r.from_slot_ref()),
            *final(to_slot) == *final(r.to_slot_ref()),
    {
        SlotToSlotTransport { from_slot: self, to_slot }
    }

    /// Prepares moving the card of this slot into a zone without a limit.
    pub fn transfer_to_infinite_zone<'a, ToZone: InfiniteZone>(&'a mut self, to_zone: &'a mut ToZone) -> (r: SlotToInfiniteZoneTransport<'a, CardKind, ToZone>) where
        Card<CardKind>: Into<Card<ToZone::CardKind>>,

        ensures
            *r.from_slot_ref() == *old(self),
            *r.to_zone_ref() == *old(to_zone),
            *final(self) == *final(r.from_slot_ref()),
            *final(to_zone) == *final(r.to_zone_ref()),
    {
        SlotToInfiniteZoneTransport { from_slot: self, to_zone }
    }

    /// Prepares moving the card of this slot into a zone with a limit.
    pub fn transfer_to_finite_zone<'a, ToZone: FiniteZone>(&'a mut self, to_zone: &'a mut ToZone) -> (r: SlotToFiniteZoneTransport<'a, CardKind, ToZone>) where
        Card<CardKind>: Into<Card<ToZone::CardKind>>,

        ensures
            *r.from_slot_ref() == *old(self),
            *r.to_zone_ref() == *old(to_zone),
            *final(self) == *final(r.from_slot_ref()),
            *final(to_zone) == *final(r.to_zone_ref()),
    {
        SlotToFiniteZoneTransport { from_slot: self, to_zone }
    }
}

/// Moves the card of one slot into another slot.
pub struct SlotToSlotTransport<'a, FromCardKind, ToCardKind> {
    from_slot: &'a mut Slot<FromCardKind>,
    to_slot: &'a mut Slot<ToCardKind>,
}

impl<'a, FromCardKind, ToCardKind> SlotToSlotTransport<'a, FromCardKind, ToCardKind> {
    pub closed spec fn from_slot_ref(self) -> &'a mut Slot<FromCardKind> {
        self.from_slot
    }

    pub closed spec fn to_slot_ref(self) -> &'a mut Slot<ToCardKind> {
        self.to_slot
    }
}

impl<'a, FromCardKind, ToCardKind> SlotToSlotTransport<'a, FromCardKind, ToCardKind> where
    Card<FromCardKind>: Into<Card<ToCardKind>>,
 {
    /// Moves the card over: refused when the slot it goes to is occupied, or when there is no
    /// card to move; then neither slot changes.
    pub fn transport(self) -> (r: Result<(), SlotToSlotTransportError>)
        ensures
            old(self.to_slot_ref())@ is Some ==> r == Err::<(), SlotToSlotTransportError>(
                SlotToSlotTransportError::SlotOccupied(ZoneSlotOccupiedError),
            ),
            old(self.to_slot_ref())@ is None && old(self.from_slot_ref())@ is None ==> r == Err::<
                (),
                SlotToSlotTransportError,
            >(SlotToSlotTransportError::NoSlotCard(CardNotInSlotError)),
            r is Err ==> *final(self.from_slot_ref()) == *old(self.from_slot_ref()) && *final(self.to_slot_ref()) == *old(self.to_slot_ref()),
            old(self.to_slot_ref())@ is None && old(self.from_slot_ref())@ is Some ==> r is Ok
                && final(self.from_slot_ref())@ is None && (final(self.to_slot_ref())@ matches Some(
                moved,
            ) && call_ensures(
                <Card<FromCardKind> as Into<Card<ToCardKind>>>::into,
                (old(self.from_slot_ref())@.unwrap(),),
                moved,
            )),
    {
        let SlotToSlotTransport { from_slot, to_slot } = self;
        if to_slot.is_occupied() {
            Err(SlotToSlotTransportError::SlotOccupied(ZoneSlotOccupiedError))
        } else {
            match from_slot.card.take() {
                Some(card) => {
                    to_slot.card = Some(card.into());
                    Ok(())
                },
                None => Err(SlotToSlotTransportError::NoSlotCard(CardNotInSlotError)),
            }
        }
    }
}

/// The slot to move a card into holds a card already.
#[derive(Debug, PartialEq, Eq, Structural)]
pub struct ZoneSlotOccupiedError;

/// There is no card in the slot to move.
#[derive(Debug, PartialEq, Eq, Structural)]
pub struct CardNotInSlotError;

/// Why a card could not be moved from a slot into another slot.
#[derive(Debug, PartialEq, Eq, Structural)]
pub enum SlotToSlotTransportError {
    SlotOccupied(ZoneSlotOccupiedError),
    NoSlotCard(CardNotInSlotError),
}

impl From<ZoneSlotOccupiedError> for SlotToSlotTransportError {
    fn from(e: ZoneSlotOccupiedError) -> (r: Self) {
        SlotToSlotTransportError::SlotOccupied(e)
    }
}

impl vstd::std_specs::convert::FromSpecImpl<ZoneSlotOccupiedError> for SlotToSlotTransportError {
    open spec fn obeys_from_spec() -> bool {
        true
    }

    open spec fn from_spec(e: ZoneSlotOccupiedError) -> Self {
        SlotToSlotTransportError::SlotOccupied(e)
    }
}

impl From<CardNotInSlotError> for SlotToSlotTransportError {
    fn from(e: CardNotInSlotError) -> (r: Self) {
        SlotToSlotTransportError::NoSlotCard(e)
    }
}

impl vstd::std_specs::convert::FromSpecImpl<CardNotInSlotError> for SlotToSlotTransportError {
    open spec fn obeys_from_spec() -> bool {
        true
    }

    open spec fn from_spec(e: CardNotInSlotError) -> Self {
        SlotToSlotTransportError::NoSlotCard(e)
    }
}

/// Moves the card of a slot into a zone with a limit.
pub struct SlotToFiniteZoneTransport<'a, FromCardKind, ToZone: FiniteZone> {
    from_slot: &'a mut Slot<FromCardKind>,
    to_zone: &'a mut ToZone,
}

impl<'a, FromCardKind, ToZone: FiniteZone> SlotToFiniteZoneTransport<'a, FromCardKind, ToZone> {
    pub closed spec fn from_slot_ref(self) -> &'a mut Slot<FromCardKind> {
        self.from_slot
    }

    pub closed spec fn to_zone_ref(self) -> &'a mut ToZone {
        self.to_zone
    }
}

impl<'a, FromCardKind, ToZone: FiniteZone> SlotToFiniteZoneTransport<'a, FromCardKind, ToZone> where
    Card<FromCardKind>: Into<Card<ToZone::CardKind>>,
 {
    /// Moves the card over: refused when the zone is full, or when there is no card to move;
    /// then neither the slot nor the zone changes.
    pub fn transport(self) -> (r: Result<(), SlotToFiniteZoneTransportError>)
        requires
            old(self.to_zone_ref()).cards_spec().len() <= old(self.to_zone_ref()).max_count_spec(),
        ensures
            old(self.to_zone_ref()).cards_spec().len() == old(self.to_zone_ref()).max_count_spec()
                ==> r == Err::<(), SlotToFiniteZoneTransportError>(
                SlotToFiniteZoneTransportError::ZoneIsFull,
            ),
            old(self.to_zone_ref()).cards_spec().len() < old(self.to_zone_ref()).max_count_spec() && old(self.from_slot_ref())@ is None ==> r == Err::<(), SlotToFiniteZoneTransportError>(
                SlotToFiniteZoneTransportError::CardNotInSlot(CardNotInSlotError),
            ),
            r is Err ==> *final(self.from_slot_ref()) == *old(self.from_slot_ref()) && *final(self.to_zone_ref()) == *old(self.to_zone_ref()),
            old(self.to_zone_ref()).cards_spec().len() < old(self.to_zone_ref()).max_count_spec() && old(self.from_slot_ref())@ is Some ==> r is Ok && final(self.from_slot_ref())@ is None && exists|
                moved: Card<ToZone::CardKind>,
            |
                call_ensures(
                    <Card<FromCardKind> as Into<Card<ToZone::CardKind>>>::into,
                    (old(self.from_slot_ref())@.unwrap(),),
                    moved,
                ) && added_or_replaced(old(self.to_zone_ref()).cards_spec(), final(self.to_zone_ref()).cards_spec(), moved),
    {
        let SlotToFiniteZoneTransport { from_slot, to_zone } = self;
        if to_zone.has_space() {
            match from_slot.card.take() {
                Some(card) => {
                    let moved = card.into();
                    assert(call_ensures(<Card<FromCardKind> as Into<Card<ToZone::CardKind>>>::into, (card,), moved));
                    let ghost before = to_zone.cards_spec();
                    to_zone.add_card_unchecked(moved);
                    assert(added_or_replaced(before, to_zone.cards_spec(), moved));
                    assert(card == old(self.from_slot_ref())@.unwrap());
                    Ok(())
                },
                None => Err(SlotToFiniteZoneTransportError::CardNotInSlot(CardNotInSlotError)),
            }
        } else {
            Err(SlotToFiniteZoneTransportError::ZoneIsFull)
        }
    }
}

/// Why a card could not be moved from a slot into a zone with a limit.
#[derive(Debug, PartialEq, Eq, Structural)]
pub enum SlotToFiniteZoneTransportError {
    ZoneIsFull,
    CardNotInSlot(CardNotInSlotError),
}

impl From<CardNotInSlotError> for SlotToFiniteZoneTransportError {
    fn from(e: CardNotInSlotError) -> (r: Self) {
        SlotToFiniteZoneTransportError::CardNotInSlot(e)
    }
}

impl vstd::std_specs::convert::FromSpecImpl<CardNotInSlotError> for SlotToFiniteZoneTransportError {
    open spec fn obeys_from_spec() -> bool {
        true
    }

    open spec fn from_spec(e: CardNotInSlotError) -> Self {
        SlotToFiniteZoneTransportError::CardNotInSlot(e)
    }
}

/// Moves the card of a slot into a zone without a limit.
pub struct SlotToInfiniteZoneTransport<'a, FromCardKind, ToZone: InfiniteZone> {
    from_slot: &'a mut Slot<FromCardKind>,
    to_zone: &'a mut ToZone,
}

impl<'a, FromCardKind, ToZone: InfiniteZone> SlotToInfiniteZoneTransport<'a, FromCardKind, ToZone> {
    pub closed spec fn from_slot_ref(self) -> &'a mut Slot<FromCardKind> {
        self.from_slot
    }

    pub closed spec fn to_zone_ref(self) -> &'a mut ToZone {
        self.to_zone
    }
}

impl<'a, FromCardKind, ToZone: InfiniteZone> SlotToInfiniteZoneTransport<'a, FromCardKind, ToZone> where
    Card<FromCardKind>: Into<Card<ToZone::CardKind>>,
 {
    /// Moves the card over; refused, with nothing changed, when there is no card to move.
    pub fn transport(self) -> (r: Result<(), CardNotInSlotError>)
        ensures
            old(self.from_slot_ref())@ is None ==> r == Err::<(), CardNotInSlotError>(CardNotInSlotError)
                && *final(self.from_slot_ref()) == *old(self.from_slot_ref()) && *final(self.to_zone_ref()) == *old(self.to_zone_ref()),
            old(self.from_slot_ref())@ is Some ==> r is Ok && final(self.from_slot_ref())@ is None
                && exists|moved: Card<ToZone::CardKind>|
                call_ensures(
                    <Card<FromCardKind> as Into<Card<ToZone::CardKind>>>::into,
                    (old(self.from_slot_ref())@.unwrap(),),
                    moved,
                ) && added_or_replaced(old(self.to_zone_ref()).cards_spec(), final(self.to_zone_ref()).cards_spec(), moved),
    {
        let SlotToInfiniteZoneTransport { from_slot, to_zone } = self;
        match from_slot.card.take() {
            Some(card) => {
                let moved = card.into();
                assert(call_ensures(<Card<FromCardKind> as Into<Card<ToZone::CardKind>>>::into, (card,), moved));
                let ghost before = to_zone.cards_spec();
                to_zone.add_card(moved);
                assert(added_or_replaced(before, to_zone.cards_spec(), moved));
                assert(before == old(self.to_zone_ref()).cards_spec());
                assert(card == old(self.from_slot_ref())@.unwrap());
                Ok(())
            },
            None => Err(CardNotInSlotError),
        }
    }
}

} // verus!
