//! Zones of cards, the slots a card can sit in, and moving cards between them.
pub mod context;
pub mod slot;
pub mod zone_card_id;

pub use context::ZoneContext;
pub use slot::{
    CardNotInSlotError, Slot, SlotToFiniteZoneTransport, SlotToFiniteZoneTransportError,
    SlotToInfiniteZoneTransport, SlotToSlotTransport, SlotToSlotTransportError, SlotZone,
    ZoneSlotOccupiedError,
};
pub use zone_card_id::{ValidZoneCardContext, ZoneCardID};

pub use crate::identifications::ValidCardID;

use std::collections::HashMap;

use vstd::prelude::*;

use crate::cards::{Card, CardID};
use crate::identifications::{MutID, PlayerID, PlayerManager, ValidPlayerID};
use crate::map_keys::{keys_of, map_get_mut};

verus! {

broadcast use vstd::std_specs::hash::group_hash_axioms;

/// The zones of each player.
pub struct ZoneManager<Z: Zones> {
    zones: HashMap<usize, Z>,
}

/// The zones a player starts with.
pub trait Zones: Sized {
    fn new(player_id: PlayerID) -> Self;
}

impl<Z: Zones> ZoneManager<Z> {
    /// The zones, by the number of their player's identifier.
    pub closed spec fn zones_spec(self) -> Map<usize, Z> {
        self.zones@
    }

    /// Zones for each player of `player_manager`.
    pub fn new<P>(player_manager: &PlayerManager<P>) -> (r: Self)
        ensures
            r.zones_spec().dom() == player_manager.players_spec().dom(),
            forall|k: usize|
                #[trigger] r.zones_spec().contains_key(k) ==> exists|player_id: PlayerID|
                    player_id@ == k && call_ensures(Z::new, (player_id,), r.zones_spec()[k]),
    {
        let players = player_manager.players();
        let mut zones: HashMap<usize, Z> = HashMap::with_capacity(players.len());
        let mut i: usize = 0;
        while i < players.len()
            invariant
                i <= players@.len(),
                forall|j: int| 0 <= j < players@.len() ==> player_manager.players_spec().contains_key(#[trigger] players@[j]@@),
                forall|k: usize| zones@.contains_key(k) <==> exists|j: int| 0 <= j < i && #[trigger] players@[j]@@ == k,
                forall|k: usize|
                    #[trigger] zones@.contains_key(k) ==> exists|player_id: PlayerID|
                        player_id@ == k && call_ensures(Z::new, (player_id,), zones@[k]),
            decreases players@.len() - i,
        {
            let player_id = players[i].id();
            let zone = Z::new(player_id);
            assert(call_ensures(Z::new, (player_id,), zone));
            zones.insert(player_id.value(), zone);
            proof {
                assert forall|k: usize|
                    #[trigger] zones@.contains_key(k) implies exists|p: PlayerID|
                        p@ == k && call_ensures(Z::new, (p,), zones@[k]) by {
                    if k == player_id@ {
                        assert(player_id@ == k && call_ensures(Z::new, (player_id,), zones@[k]));
                    }
                }
                assert forall|k: usize| zones@.contains_key(k) <==> exists|j: int| 0 <= j < i + 1 && #[trigger] players@[j]@@ == k by {
                    if k == player_id@ {
                        assert(players@[i as int]@@ == k);
                    }
                }
            }
            i = i + 1;
        }
        assert(zones@.dom() =~= player_manager.players_spec().dom());
        ZoneManager { zones }
    }

    /// The zones of each player.
    pub fn zones(&self) -> (r: Vec<(ValidPlayerID<()>, &Z)>)
        ensures
            r@.len() == self.zones_spec().len(),
            forall|i: int|
                0 <= i < r@.len() ==> self.zones_spec().contains_key(#[trigger] r@[i].0@@)
                    && *r@[i].1 == self.zones_spec()[r@[i].0@@],
            forall|k: usize| self.zones_spec().contains_key(k) ==> exists|i: int| 0 <= i < r@.len() && #[trigger] r@[i].0@@ == k,
    {
        let keys = keys_of(&self.zones);
        let mut r: Vec<(ValidPlayerID<()>, &Z)> = Vec::new();
        let mut i: usize = 0;
        while i < keys.len()
            invariant
                i <= keys@.len(),
                keys@.to_set() == self.zones@.dom(),
                r@.len() == i,
                forall|j: int| 0 <= j < i ==> (#[trigger] r@[j]).0@@ == keys@[j] && *r@[j].1 == self.zones@[keys@[j]],
            decreases keys@.len() - i,
        {
            assert(keys@.to_set().contains(keys@[i as int]));
            let zone = self.zones.get(&keys[i]).unwrap();
            r.push((ValidPlayerID::new(PlayerID::from_value(keys[i])), zone));
            i = i + 1;
        }
        assert forall|k: usize| self.zones_spec().contains_key(k) implies exists|i: int| 0 <= i < r@.len() && #[trigger] r@[i].0@@ == k by {
            assert(keys@.to_set().contains(k));
            let j = choose|j: int| 0 <= j < keys@.len() && keys@[j] == k;
            assert(r@[j].0@@ == k);
        }
        assert forall|i: int| 0 <= i < r@.len() implies self.zones_spec().contains_key(#[trigger] r@[i].0@@)
            && *r@[i].1 == self.zones_spec()[r@[i].0@@] by {
            assert(keys@.to_set().contains(keys@[i]));
        }
        r
    }

    /// The zones of `player_id`, if the player has any.
    pub fn get_zone(&self, player_id: PlayerID) -> (r: Option<&Z>)
        ensures
            match r {
                Some(z) => self.zones_spec().contains_key(player_id@) && *z == self.zones_spec()[player_id@],
                None => !self.zones_spec().contains_key(player_id@),
            },
    {
        self.zones.get(&player_id.value())
    }

    /// The zones of `player_id`, to change, if the player has any.
    pub fn get_zone_mut(&mut self, player_id: PlayerID) -> (r: Option<&mut Z>)
        ensures
            match r {
                Some(z) => old(self).zones_spec().contains_key(player_id@) && *z == old(self).zones_spec()[player_id@]
                    && final(self).zones_spec() == old(self).zones_spec().insert(player_id@, *final(z)),
                None => !old(self).zones_spec().contains_key(player_id@) && final(self).zones_spec() == old(self).zones_spec(),
            },
    {
        map_get_mut(&mut self.zones, player_id.value())
    }

    /// The zones of a checked player, to change.
    pub fn valid_zone_mut<F>(&mut self, valid_player_id: ValidPlayerID<F>) -> (r: &mut Z)
        requires
            old(self).zones_spec().contains_key(valid_player_id@@),
        ensures
            *r == old(self).zones_spec()[valid_player_id@@],
            final(self).zones_spec() == old(self).zones_spec().insert(valid_player_id@@, *final(r)),
    {
        self.get_zone_mut(valid_player_id.id()).unwrap()
    }

    /// The zones of a checked player.
    pub fn valid_zone<F>(&self, valid_player_id: &ValidPlayerID<F>) -> (r: &Z)
        requires
            self.zones_spec().contains_key(valid_player_id@@),
        ensures
            *r == self.zones_spec()[valid_player_id@@],
    {
        self.get_zone(valid_player_id.id()).unwrap()
    }
}

/// Whether one of `cards` has the identifier `card_id`.
pub open spec fn cards_hold<K>(cards: Seq<Card<K>>, card_id: CardID) -> bool {
    exists|i: int| 0 <= i < cards.len() && (#[trigger] cards[i])@.id == card_id
}

/// Whether `zone` holds a card with the identifier `card_id`.
pub open spec fn zone_holds<Z: Zone>(zone: Z, card_id: CardID) -> bool {
    cards_hold(zone.cards_spec(), card_id)
}

/// A place that holds cards in order, each identifier once.
pub trait Zone: Sized {
    type CardKind;
    type CardFilter;

    /// The cards of the zone, in order.
    spec fn cards_spec(&self) -> Seq<Card<Self::CardKind>>;

    fn filled_count(&self) -> (r: usize)
        ensures
            r == self.cards_spec().len(),
    ;

    fn get_card(&self, card_id: CardID) -> (r: Option<&Card<Self::CardKind>>)
        ensures
            match r {
                Some(card) => card@.id == card_id && self.cards_spec().contains(*card),
                None => !cards_hold(self.cards_spec(), card_id),
            },
    ;

    /// The card `card_id`, to change in place, if the zone holds it.
    fn get_card_mut(&mut self, card_id: MutID<CardID>) -> (r: Option<&mut Card<Self::CardKind>>)
        ensures
            match r {
                Some(card) => card@.id == card_id@ && exists|i: int|
                    0 <= i < old(self).cards_spec().len() && #[trigger] old(self).cards_spec()[i] == *card
                        && final(self).cards_spec() == old(self).cards_spec().update(i, *final(card)),
                None => !cards_hold(old(self).cards_spec(), card_id@) && final(self).cards_spec() == old(
                    self,
                ).cards_spec(),
            },
    ;

    fn valid_card(&self, valid_card_id: &ValidCardID<Self::CardFilter>) -> (r: &Card<Self::CardKind>)
        requires
            cards_hold(self.cards_spec(), valid_card_id@),
        ensures
            r@.id == valid_card_id@,
            self.cards_spec().contains(*r),
    {
        self.get_card(valid_card_id.card_id()).unwrap()
    }

    fn valid_card_mut(&mut self, valid_card_id: MutID<ValidCardID<Self::CardFilter>>) -> (r: &mut Card<Self::CardKind>)
        requires
            cards_hold(old(self).cards_spec(), valid_card_id@@),
        ensures
            r@.id == valid_card_id@@,
            exists|i: int|
                0 <= i < old(self).cards_spec().len() && #[trigger] old(self).cards_spec()[i] == *r
                    && final(self).cards_spec() == old(self).cards_spec().update(i, *final(r)),
    {
        self.get_card_mut(MutID::new(valid_card_id.take_id().card_id())).unwrap()
    }

    fn get_card_from_index(&self, index: usize) -> (r: Option<&Card<Self::CardKind>>)
        ensures
            index < self.cards_spec().len() ==> (r matches Some(card) && *card == self.cards_spec()[index as int]),
            index >= self.cards_spec().len() ==> r is None,
    ;

    /// The checked identifiers of the cards, in order.
    fn valid_cards(&self) -> (r: Vec<ValidCardID<Self::CardFilter>>)
        ensures
            r@.len() == self.cards_spec().len(),
            forall|i: int| 0 <= i < r@.len() ==> (#[trigger] r@[i])@ == self.cards_spec()[i]@.id,
    {
        let count = self.filled_count();
        let mut r: Vec<ValidCardID<Self::CardFilter>> = Vec::new();
        let mut i: usize = 0;
        while i < count
            invariant
                count == self.cards_spec().len(),
                i <= count,
                r@.len() == i,
                forall|j: int| 0 <= j < i ==> (#[trigger] r@[j])@ == self.cards_spec()[j]@.id,
            decreases count - i,
        {
            let card = self.get_card_from_index(i).unwrap();
            r.push(ValidCardID::new(card.id()));
            i = i + 1;
        }
        r
    }
}

/// A zone that holds at most a number of cards.
pub trait FiniteZone: ArrayZone {
    spec fn max_count_spec(&self) -> usize;

    fn max_count(&self) -> (r: usize)
        ensures
            r == self.max_count_spec(),
    ;

    /// Whether another card fits in.
    fn has_space(&self) -> (r: bool)
        requires
            self.cards_spec().len() <= self.max_count_spec(),
        ensures
            r == (self.cards_spec().len() < self.max_count_spec()),
    {
        self.max_count() - self.filled_count() != 0
    }

    /// Adds `card` when there is room: in place of the card with the same identifier where
    /// there is one, else at the end.
    fn add_card(&mut self, card: Card<Self::CardKind>) -> (r: Result<(), ZoneFullError>)
        requires
            old(self).cards_spec().len() <= old(self).max_count_spec(),
        ensures
            old(self).cards_spec().len() < old(self).max_count_spec() ==> r is Ok
                && added_or_replaced(old(self).cards_spec(), final(self).cards_spec(), card),
            old(self).cards_spec().len() == old(self).max_count_spec() ==> r == Err::<(), ZoneFullError>(ZoneFullError(card@.id))
                && final(self).cards_spec() == old(self).cards_spec(),
    {
        if self.has_space() {
            self.add_card_unchecked(card);
            Ok(())
        } else {
            Err(ZoneFullError::new(card.id()))
        }
    }

    /// Use [`add_card`](Self::add_card) instead. Never call this method directly.
    fn add_card_unchecked(&mut self, card: Card<Self::CardKind>)
        requires
            old(self).cards_spec().len() < old(self).max_count_spec(),
        ensures
            added_or_replaced(old(self).cards_spec(), final(self).cards_spec(), card),
            final(self).max_count_spec() == old(self).max_count_spec(),
    ;
}

/// `after` is `before` with `card` added: in place of the card with the same identifier
/// where there is one, else at the end.
pub open spec fn added_or_replaced<K>(before: Seq<Card<K>>, after: Seq<Card<K>>, card: Card<K>) -> bool {
    if cards_hold(before, card@.id) {
        exists|i: int| 0 <= i < before.len() && #[trigger] before[i]@.id == card@.id && after == before.update(i, card)
    } else {
        after == before.push(card)
    }
}

/// A zone without a limit on its cards.
pub trait InfiniteZone: ArrayZone {
    /// Adds `card`; a card with the same identifier is replaced in place.
    fn add_card(&mut self, card: Card<Self::CardKind>)
        ensures
            added_or_replaced(old(self).cards_spec(), final(self).cards_spec(), card),
    ;
}

/// `after` is `before` without the card `card_id`, which was `removed`.
pub open spec fn removed_from<K>(before: Seq<Card<K>>, after: Seq<Card<K>>, card_id: CardID, removed: Card<K>) -> bool {
    exists|i: int|
        0 <= i < before.len() && #[trigger] before[i] == removed && removed@.id == card_id && after
            == before.remove(i)
}

/// Taking a card out of a zone leaves one card fewer, the others in order; the card that
/// was taken out was in the zone and has the identifier asked for.
pub proof fn lemma_removed_card<K>(before: Seq<Card<K>>, after: Seq<Card<K>>, card_id: CardID, removed: Card<K>)
    requires
        removed_from(before, after, card_id, removed),
    ensures
        after.len() == before.len() - 1,
        before.contains(removed),
        removed@.id == card_id,
        cards_hold(before, card_id),
{
    let i = choose|i: int| 0 <= i < before.len() && #[trigger] before[i] == removed && removed@.id == card_id && after == before.remove(i);
    assert(before[i]@.id == card_id);
}

/// A zone whose cards can be taken out.
pub trait ArrayZone: Zone {
    /// Takes the card out, keeping the others in order.
    fn remove_card(&mut self, zone_card_id: ValidCardID<Self::CardFilter>) -> (r: Card<Self::CardKind>)
        requires
            zone_holds(*old(self), zone_card_id@),
        ensures
            removed_from(old(self).cards_spec(), final(self).cards_spec(), zone_card_id@, r),
    ;
}

/// Moving the cards of a zone whose cards can be taken out.
///
/// Every [`ArrayZone`] has these methods.
pub trait ZoneTransfer: ArrayZone {
    fn transfer_to_slot<'a, ToCardKind>(&'a mut self, to_slot: &'a mut Slot<ToCardKind>) -> (r: ZoneToSlotTransport<'a, Self, ToCardKind>) where
        Card<Self::CardKind>: Into<Card<ToCardKind>>,

        ensures
            *r.from_zone_ref() == *old(self),
            *r.to_slot_ref() == *old(to_slot),
            *final(self) == *final(r.from_zone_ref()),
            *final(to_slot) == *final(r.to_slot_ref()),
    {
        ZoneToSlotTransport { from_zone: self, to_slot }
    }

    fn transfer_to_infinite_zone<'a, ToZone: InfiniteZone<CardFilter = Self::CardFilter>>(&'a mut self, to_zone: &'a mut ToZone) -> (r: ZoneToInfiniteZoneTransport<'a, Self, ToZone>) where
        Card<Self::CardKind>: Into<Card<ToZone::CardKind>>,

        ensures
            *r.from_zone_ref() == *old(self),
            *r.to_zone_ref() == *old(to_zone),
            *final(self) == *final(r.from_zone_ref()),
            *final(to_zone) == *final(r.to_zone_ref()),
    {
        ZoneToInfiniteZoneTransport { from_zone: self, to_zone }
    }

    fn transfer_to_finite_zone<'a, ToZone: FiniteZone<CardFilter = Self::CardFilter>>(&'a mut self, to_zone: &'a mut ToZone) -> (r: ZoneToFiniteZoneTransport<'a, Self, ToZone>) where
        Card<Self::CardKind>: Into<Card<ToZone::CardKind>>,

        ensures
            *r.from_zone_ref() == *old(self),
            *r.to_zone_ref() == *old(to_zone),
            *final(self) == *final(r.from_zone_ref()),
            *final(to_zone) == *final(r.to_zone_ref()),
    {
        ZoneToFiniteZoneTransport { from_zone: self, to_zone }
    }
}

impl<Z: ArrayZone> ZoneTransfer for Z {}

/// The card could not be added: there was no room.
pub struct ZoneFullError(pub CardID);

impl ZoneFullError {
    pub closed spec fn card_id_spec(self) -> CardID {
        self.0
    }

    pub fn new(card_id: CardID) -> (r: Self)
        ensures
            r == ZoneFullError(card_id),
    {
        ZoneFullError(card_id)
    }

    pub fn card_id(self) -> (r: CardID)
        ensures
            r == self.card_id_spec(),
    {
        self.0
    }
}

/// Moves a card from a zone into a slot.
pub struct ZoneToSlotTransport<'a, FromZ: ArrayZone, ToCardKind> {
    from_zone: &'a mut FromZ,
    to_slot: &'a mut Slot<ToCardKind>,
}

impl<'a, FromZ: ArrayZone, ToCardKind> ZoneToSlotTransport<'a, FromZ, ToCardKind> {
    pub closed spec fn from_zone_ref(self) -> &'a mut FromZ {
        self.from_zone
    }

    pub closed spec fn to_slot_ref(self) -> &'a mut Slot<ToCardKind> {
        self.to_slot
    }
}

impl<'a, FromZ: ArrayZone, ToCardKind> ZoneToSlotTransport<'a, FromZ, ToCardKind> where
    Card<FromZ::CardKind>: Into<Card<ToCardKind>>,
 {
    /// Moves the card into the slot, unless the slot is occupied.
    pub fn transport(self, zone_card_id: ValidCardID<FromZ::CardFilter>) -> (r: Result<(), ZoneFullError>)
        requires
            zone_holds(*old(self.from_zone_ref()), zone_card_id@),
        ensures
            old(self.to_slot_ref())@ is Some ==> r == Err::<(), ZoneFullError>(ZoneFullError(zone_card_id@))
                && *final(self.from_zone_ref()) == *old(self.from_zone_ref())
                && *final(self.to_slot_ref()) == *old(self.to_slot_ref()),
            old(self.to_slot_ref())@ is None ==> r is Ok && exists|card: Card<FromZ::CardKind>|
                removed_from(old(self.from_zone_ref()).cards_spec(), final(self.from_zone_ref()).cards_spec(), zone_card_id@, card)
                && (final(self.to_slot_ref())@ matches Some(moved) && call_ensures(
                    <Card<FromZ::CardKind> as Into<Card<ToCardKind>>>::into,
                    (card,),
                    moved,
                )),
    {
        let ZoneToSlotTransport { from_zone, to_slot } = self;
        if to_slot.is_occupied() {
            Err(ZoneFullError(zone_card_id.card_id()))
        } else {
            let card = from_zone.remove_card(zone_card_id);
            let _ = to_slot.put(card.into());
            Ok(())
        }
    }
}

/// Moves a card from a zone into a zone with a limit.
pub struct ZoneToFiniteZoneTransport<'a, FromZ: ArrayZone<CardFilter = ToZ::CardFilter>, ToZ: FiniteZone> {
    from_zone: &'a mut FromZ,
    to_zone: &'a mut ToZ,
}

impl<'a, FromZ: ArrayZone<CardFilter = ToZ::CardFilter>, ToZ: FiniteZone> ZoneToFiniteZoneTransport<'a, FromZ, ToZ> {
    pub closed spec fn from_zone_ref(self) -> &'a mut FromZ {
        self.from_zone
    }

    pub closed spec fn to_zone_ref(self) -> &'a mut ToZ {
        self.to_zone
    }
}

impl<'a, FromZ: ArrayZone<CardFilter = ToZ::CardFilter>, ToZ: FiniteZone> ZoneToFiniteZoneTransport<'a, FromZ, ToZ> where
    Card<FromZ::CardKind>: Into<Card<ToZ::CardKind>>,
 {
    /// Moves the card over, unless the zone it goes to is full.
    pub fn transport(self, zone_card_id: ValidCardID<FromZ::CardFilter>) -> (r: Result<(), ZoneFullError>)
        requires
            zone_holds(*old(self.from_zone_ref()), zone_card_id@),
            old(self.to_zone_ref()).cards_spec().len() <= old(self.to_zone_ref()).max_count_spec(),
        ensures
            old(self.to_zone_ref()).cards_spec().len() == old(self.to_zone_ref()).max_count_spec() ==> r
                == Err::<(), ZoneFullError>(ZoneFullError(zone_card_id@))
                && *final(self.from_zone_ref()) == *old(self.from_zone_ref())
                && *final(self.to_zone_ref()) == *old(self.to_zone_ref()),
            old(self.to_zone_ref()).cards_spec().len() < old(self.to_zone_ref()).max_count_spec() ==> r is Ok
                && exists|card: Card<FromZ::CardKind>, moved: Card<ToZ::CardKind>|
                removed_from(old(self.from_zone_ref()).cards_spec(), final(self.from_zone_ref()).cards_spec(), zone_card_id@, card)
                && call_ensures(<Card<FromZ::CardKind> as Into<Card<ToZ::CardKind>>>::into, (card,), moved)
                && added_or_replaced(old(self.to_zone_ref()).cards_spec(), final(self.to_zone_ref()).cards_spec(), moved),
    {
        let ZoneToFiniteZoneTransport { from_zone, to_zone } = self;
        if to_zone.has_space() {
            let card = from_zone.remove_card(zone_card_id);
            let moved = card.into();
            to_zone.add_card_unchecked(moved);
            Ok(())
        } else {
            Err(ZoneFullError(zone_card_id.card_id()))
        }
    }
}

/// Moves a card from a zone into a zone without a limit.
pub struct ZoneToInfiniteZoneTransport<'a, FromZ: ArrayZone, ToZ: InfiniteZone> {
    from_zone: &'a mut FromZ,
    to_zone: &'a mut ToZ,
}

impl<'a, FromZ: ArrayZone, ToZ: InfiniteZone> ZoneToInfiniteZoneTransport<'a, FromZ, ToZ> {
    pub closed spec fn from_zone_ref(self) -> &'a mut FromZ {
        self.from_zone
    }

    pub closed spec fn to_zone_ref(self) -> &'a mut ToZ {
        self.to_zone
    }
}

impl<'a, FromZ: ArrayZone, ToZ: InfiniteZone> ZoneToInfiniteZoneTransport<'a, FromZ, ToZ> where
    Card<FromZ::CardKind>: Into<Card<ToZ::CardKind>>,
 {
    /// Moves the card over.
    pub fn transport(self, zone_card_id: ValidCardID<FromZ::CardFilter>)
        requires
            zone_holds(*old(self.from_zone_ref()), zone_card_id@),
        ensures
            exists|card: Card<FromZ::CardKind>, moved: Card<ToZ::CardKind>|
                removed_from(old(self.from_zone_ref()).cards_spec(), final(self.from_zone_ref()).cards_spec(), zone_card_id@, card)
                && call_ensures(<Card<FromZ::CardKind> as Into<Card<ToZ::CardKind>>>::into, (card,), moved)
                && added_or_replaced(old(self.to_zone_ref()).cards_spec(), final(self.to_zone_ref()).cards_spec(), moved),
    {
        let ZoneToInfiniteZoneTransport { from_zone, to_zone } = self;
        let card = from_zone.remove_card(zone_card_id);
        to_zone.add_card(card.into());
    }
}

} // verus!
