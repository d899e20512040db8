use std::collections::HashMap;

use card_game::cards::{Card, CardID, CardManager};
use card_game::identifications::{
    GetValidCardIDFromZone, MutID, PlayerID, PlayerIDBuilder, PlayerManager, ValidCardID,
};
use card_game::zones::{
    ArrayZone, FiniteZone, InfiniteZone, Slot, SlotToFiniteZoneTransportError,
    SlotToSlotTransportError, Zone, ZoneManager, Zones, ZoneTransfer,
};
use card_game::CardGameBuilder;
use indexmap::IndexMap;
use vstd::prelude::Seq;

struct Hand {
    cards: IndexMap<CardID, Card<u32>>,
    limit: usize,
}

struct Deck {
    cards: IndexMap<CardID, Card<u32>>,
}

fn ghost_only() -> ! {
    panic!("only the verifier reads this")
}

impl Zone for Hand {
    type CardKind = u32;
    type CardFilter = Hand;
    fn cards_spec(&self) -> Seq<Card<u32>> {
        ghost_only()
    }
    fn filled_count(&self) -> usize {
        self.cards.len()
    }
    fn get_card(&self, card_id: CardID) -> Option<&Card<u32>> {
        self.cards.get(&card_id)
    }
    fn get_card_mut(&mut self, card_id: MutID<CardID>) -> Option<&mut Card<u32>> {
        self.cards.get_mut(card_id.id())
    }
    fn get_card_from_index(&self, index: usize) -> Option<&Card<u32>> {
        self.cards.get_index(index).map(|(_, card)| card)
    }
}

impl ArrayZone for Hand {
    fn remove_card(&mut self, zone_card_id: ValidCardID<Hand>) -> Card<u32> {
        self.cards.shift_remove(&zone_card_id.card_id()).unwrap()
    }
}

impl FiniteZone for Hand {
    fn max_count_spec(&self) -> usize {
        self.limit
    }
    fn max_count(&self) -> usize {
        self.limit
    }
    fn add_card_unchecked(&mut self, card: Card<u32>) {
        self.cards.insert(card.id(), card);
    }
}

impl Zone for Deck {
    type CardKind = u32;
    type CardFilter = Hand;
    fn cards_spec(&self) -> Seq<Card<u32>> {
        ghost_only()
    }
    fn filled_count(&self) -> usize {
        self.cards.len()
    }
    fn get_card(&self, card_id: CardID) -> Option<&Card<u32>> {
        self.cards.get(&card_id)
    }
    fn get_card_mut(&mut self, card_id: MutID<CardID>) -> Option<&mut Card<u32>> {
        self.cards.get_mut(card_id.id())
    }
    fn get_card_from_index(&self, index: usize) -> Option<&Card<u32>> {
        self.cards.get_index(index).map(|(_, card)| card)
    }
}

impl ArrayZone for Deck {
    fn remove_card(&mut self, zone_card_id: ValidCardID<Hand>) -> Card<u32> {
        self.cards.shift_remove(&zone_card_id.card_id()).unwrap()
    }
}

impl InfiniteZone for Deck {
    fn add_card(&mut self, card: Card<u32>) {
        self.cards.insert(card.id(), card);
    }
}

struct Cards;

impl CardGameBuilder<()> for Cards {
    type GenerationData = usize;
    type Game = Vec<Card<u32>>;

    fn generate(_: PlayerIDBuilder, mut card_manager: CardManager<()>, count: usize) -> Vec<Card<u32>> {
        let mut cards = Vec::new();
        for i in 0..count {
            cards.push(card_manager.builder().build(i as u32).finish());
        }
        cards
    }
}

fn hand_with(cards: Vec<Card<u32>>, limit: usize) -> Hand {
    let mut hand = Hand { cards: IndexMap::new(), limit };
    for card in cards {
        hand.add_card(card).ok().unwrap();
    }
    hand
}

#[test]
fn a_full_hand_refuses_a_card() {
    let mut cards = Cards::new(3);
    let extra = cards.pop().unwrap();
    let mut hand = hand_with(cards, 2);
    assert!(!hand.has_space());
    match FiniteZone::add_card(&mut hand, extra) {
        Ok(()) => panic!("the hand is full"),
        Err(error) => assert_eq!(error.card_id().value(), 2),
    }
    assert_eq!(hand.filled_count(), 2);
}

#[test]
fn cards_are_checked_in_order() {
    let hand = hand_with(Cards::new(3), 5);
    let ids = hand.valid_cards();
    assert_eq!(ids.len(), 3);
    assert_eq!(ids[0].card_id().value(), 0);
    assert_eq!(ids[2].card_id().value(), 2);
    assert_eq!(*hand.valid_card(&ids[1]).kind(), 1);
    assert!(hand.get_card_from_index(3).is_none());
}

#[test]
fn moving_to_a_zone_without_a_limit_keeps_the_card() {
    let mut hand = hand_with(Cards::new(2), 5);
    let mut deck = Deck { cards: IndexMap::new() };
    let ids = hand.valid_cards();
    let moved = ids[0].card_id();
    hand.transfer_to_infinite_zone(&mut deck).transport(ValidCardID::from(ids.into_iter().next().unwrap()));
    assert_eq!(hand.filled_count(), 1);
    assert_eq!(deck.filled_count(), 1);
    assert!(deck.get_card(moved).is_some());
    assert!(hand.get_card(moved).is_none());
}

#[test]
fn moving_to_a_full_zone_is_refused() {
    let mut cards = Cards::new(3);
    let last = cards.pop().unwrap();
    let mut from = hand_with(vec![last], 3);
    let mut full = hand_with(cards, 2);
    let id = from.valid_cards().into_iter().next().unwrap();
    match from.transfer_to_finite_zone(&mut full).transport(id) {
        Ok(()) => panic!("the zone is full"),
        Err(error) => assert_eq!(error.card_id().value(), 2),
    }
    assert_eq!(from.filled_count(), 1);
    assert_eq!(full.filled_count(), 2);
}

#[test]
fn a_card_moves_into_an_empty_slot_only() {
    let mut cards = Cards::new(2);
    let mut hand = hand_with(vec![cards.pop().unwrap()], 3);
    let mut slot = Slot::<u32>::new();
    assert!(!slot.is_occupied());
    let id = hand.valid_cards().into_iter().next().unwrap();
    assert!(hand.transfer_to_slot(&mut slot).transport(id).is_ok());
    assert!(slot.is_occupied());
    assert_eq!(slot.occupier().unwrap().id().value(), 1);
    assert_eq!(hand.filled_count(), 0);
    let first = cards.pop().unwrap();
    let mut other = hand_with(vec![first], 3);
    let id = other.valid_cards().into_iter().next().unwrap();
    assert!(other.transfer_to_slot(&mut slot).transport(id).is_err());
    assert_eq!(other.filled_count(), 1);
}

#[test]
fn slots_hand_their_card_on() {
    let mut cards = Cards::new(1);
    let mut from = Slot::new();
    let mut to = Slot::<u32>::new();
    assert!(matches!(
        from.transfer_to_slot(&mut to).transport(),
        Err(SlotToSlotTransportError::NoSlotCard(_))
    ));
    assert!(from.put(cards.pop().unwrap()).is_none());
    assert!(from.transfer_to_slot(&mut to).transport().is_ok());
    assert!(!from.is_occupied());
    assert_eq!(to.occupier().unwrap().id().value(), 0);
    let mut back = Slot::<u32>::new();
    assert!(back.put(Cards::new(1).pop().unwrap()).is_none());
    assert!(matches!(
        back.transfer_to_slot(&mut to).transport(),
        Err(SlotToSlotTransportError::SlotOccupied(_))
    ));
}

#[test]
fn a_slot_fills_a_zone_while_there_is_room() {
    let mut cards = Cards::new(2);
    let mut slot = Slot::new();
    let mut hand = hand_with(vec![cards.pop().unwrap()], 1);
    assert!(slot.put(cards.pop().unwrap()).is_none());
    assert!(matches!(
        slot.transfer_to_finite_zone(&mut hand).transport(),
        Err(SlotToFiniteZoneTransportError::ZoneIsFull)
    ));
    let mut roomy = Hand { cards: IndexMap::new(), limit: 4 };
    assert!(slot.transfer_to_finite_zone(&mut roomy).transport().is_ok());
    assert_eq!(roomy.filled_count(), 1);
    assert!(matches!(
        slot.transfer_to_finite_zone(&mut roomy).transport(),
        Err(SlotToFiniteZoneTransportError::CardNotInSlot(_))
    ));
    let mut deck = Deck { cards: IndexMap::new() };
    assert!(slot.transfer_to_infinite_zone(&mut deck).transport().is_err());
}

struct PlayerZones {
    owner: PlayerID,
    hand: Hand,
}

impl Zones for PlayerZones {
    fn new(player_id: PlayerID) -> Self {
        PlayerZones { owner: player_id, hand: Hand { cards: IndexMap::new(), limit: 2 } }
    }
}

#[test]
fn each_player_gets_zones() {
    let mut players = HashMap::new();
    players.insert(0usize, "ann");
    players.insert(1usize, "bob");
    let player_manager = PlayerManager::new(players);
    let mut zones = ZoneManager::<PlayerZones>::new(&player_manager);
    assert_eq!(zones.zones().len(), 2);
    for (player, player_zones) in zones.zones() {
        assert_eq!(player.id().value(), player_zones.owner.value());
    }
    let active = player_manager.active_player_id();
    let card = Cards::new(1).pop().unwrap();
    let id = card.id();
    zones.get_zone_mut(active.id()).unwrap().hand.add_card(card).ok().unwrap();
    assert!(zones.valid_zone(&active).hand.get_card(id).is_some());
    assert!(zones.get_zone(active.id()).unwrap().hand.get_card(id).is_some());
    assert_eq!(zones.valid_zone_mut(active).hand.filled_count(), 1);
}

#[test]
fn cards_are_checked_against_a_zone() {
    let mut cards = Cards::new(2);
    let outside = cards.pop().unwrap();
    let hand = hand_with(cards, 3);
    let inside = hand.get_card_from_index(0).unwrap().id();
    let checked = <ValidCardID<Hand> as GetValidCardIDFromZone<Hand>>::try_new(inside, &hand);
    assert!(matches!(checked, Ok(ref id) if id.card_id() == inside));
    match <ValidCardID<Hand> as GetValidCardIDFromZone<Hand>>::try_new(outside.id(), &hand) {
        Ok(_) => panic!("the card is elsewhere"),
        Err(missing) => assert_eq!(missing.0.value(), outside.id().value()),
    }
}

#[test]
fn a_card_changes_in_its_zone() {
    let mut hand = hand_with(Cards::new(2), 3);
    let id = hand.valid_cards().into_iter().nth(1).unwrap();
    let card_id = id.card_id();
    *hand.valid_card_mut(MutID::new(id)).kind_mut() = 40;
    assert_eq!(*hand.get_card(card_id).unwrap().kind(), 40);
}

#[test]
fn moving_to_a_zone_with_room_keeps_the_order() {
    let mut cards = Cards::new(3);
    let last = cards.pop().unwrap();
    let mut from = hand_with(cards, 3);
    let mut to = hand_with(vec![last], 3);
    let first = from.valid_cards().into_iter().next().unwrap();
    let moved = first.card_id();
    assert!(from.transfer_to_finite_zone(&mut to).transport(first).is_ok());
    assert_eq!(to.filled_count(), 2);
    assert_eq!(to.get_card_from_index(1).unwrap().id(), moved);
    assert_eq!(from.filled_count(), 1);
}

#[test]
fn a_card_already_in_an_unlimited_zone_is_replaced_in_place() {
    let mut cards = Cards::new(2);
    let second = cards.pop().unwrap();
    let first = cards.pop().unwrap();
    let first_id = first.id();
    let mut deck = Deck { cards: IndexMap::new() };
    InfiniteZone::add_card(&mut deck, first);
    InfiniteZone::add_card(&mut deck, second);
    let mut same_id = Cards::new(1).pop().unwrap();
    assert_eq!(same_id.id().value(), first_id.value());
    *same_id.kind_mut() = 9;
    InfiniteZone::add_card(&mut deck, same_id);
    assert_eq!(deck.filled_count(), 2);
    assert_eq!(deck.get_card_from_index(0).unwrap().id().value(), first_id.value());
    assert_eq!(*deck.get_card_from_index(0).unwrap().kind(), 9);
}

#[test]
fn a_card_already_in_a_limited_zone_is_replaced_in_place() {
    let mut hand = hand_with(Cards::new(2), 3);
    let mut same_id = Cards::new(1).pop().unwrap();
    *same_id.kind_mut() = 9;
    assert!(FiniteZone::add_card(&mut hand, same_id).is_ok());
    assert_eq!(hand.filled_count(), 2);
    assert_eq!(hand.get_card_from_index(0).unwrap().id().value(), 0);
    assert_eq!(*hand.get_card_from_index(0).unwrap().kind(), 9);
}
