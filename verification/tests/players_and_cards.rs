use std::collections::HashMap;

use card_game::cards::{CardManager, EventManagerID};
use card_game::cards::description::CardDescriptions;
use card_game::events::EventActionIDBuilder;
use card_game::identifications::{ActionID, MutID, PlayerIDBuilder, PlayerManager, ValidPlayerID};
use card_game::CardGameBuilder;
use card_game::example::actions::StackDamageAndHeal;
use card_game::example::game::Game;
use card_game::example::identifications::CharacterID;
use card_game::example::stack::{RemoveCharacters, StackAction};
use card_game::stack::priority::Priority;

struct TestGame;

impl CardGameBuilder<()> for TestGame {
    type GenerationData = u32;
    type Game = (PlayerIDBuilder, CardManager<()>, u32);

    fn generate(
        player_id_builder: PlayerIDBuilder,
        card_manager: CardManager<()>,
        generation_data: u32,
    ) -> (PlayerIDBuilder, CardManager<()>, u32) {
        (player_id_builder, card_manager, generation_data)
    }
}

fn players(count: usize) -> PlayerManager<&'static str> {
    let names = ["ann", "bob", "cid", "dee"];
    let mut map = HashMap::new();
    for i in 0..count {
        map.insert(i, names[i]);
    }
    PlayerManager::new(map)
}

#[test]
fn turns_go_round_the_players() {
    let mut manager = players(3);
    assert_eq!(manager.active_player_id().id().value(), 0);
    assert_eq!(manager.next_player_id().id().value(), 1);
    assert_eq!(manager.next_player_id().id().value(), 2);
    assert_eq!(manager.next_player_id().id().value(), 0);
    assert_eq!(manager.active_player_id().id().value(), 0);
}

#[test]
fn a_single_player_keeps_the_turn() {
    let mut manager = players(1);
    assert_eq!(manager.next_player_id().id().value(), 0);
    assert_eq!(manager.next_player_id().id().value(), 0);
}

#[test]
fn every_player_is_listed_once() {
    let manager = players(4);
    assert_eq!(manager.player_count(), 4);
    let mut seen = manager
        .players()
        .into_iter()
        .map(|p| p.id().value())
        .collect::<Vec<_>>();
    seen.sort();
    assert_eq!(seen, vec![0, 1, 2, 3]);
}

#[test]
fn only_known_players_are_checked() {
    let (mut builder, _, _) = TestGame::new(0);
    let first = builder.generate_player_id();
    let second = builder.generate_player_id();
    assert_eq!(first.value(), 0);
    assert_eq!(second.value(), 1);
    let manager = players(1);
    assert!(ValidPlayerID::<()>::try_new(&manager, first).is_ok());
    match ValidPlayerID::<()>::try_new(&manager, second) {
        Ok(_) => panic!("the second player is not in the game"),
        Err(missing) => assert_eq!(missing.0.value(), 1),
    }
}

#[test]
fn built_cards_get_fresh_identifiers() {
    let (_, mut card_manager, data) = TestGame::new(7);
    assert_eq!(data, 7);
    let first = card_manager.builder().build("goblin").finish();
    let second = card_manager.builder().build("elf").finish();
    assert_eq!(first.id().value(), 0);
    assert_eq!(second.id().value(), 1);
    assert_eq!(*second.kind(), "elf");
    assert_eq!(first.take_kind(), "goblin");
}

#[test]
fn fresh_cards_take_no_action() {
    let (_, mut card_manager, _) = TestGame::new(0);
    let card = card_manager.builder().build(1u8).finish();
    assert!(!card_manager.card_actions().contains_action(ActionID::new("attack"), card.id()));
}

#[test]
fn action_names_compare_by_text() {
    assert!(ActionID::new("attack") == ActionID::new("attack"));
    assert!(ActionID::new("attack") != ActionID::new("defend"));
}

#[test]
fn event_action_ids_count_up() {
    let mut builder = EventActionIDBuilder::default();
    assert_eq!(builder.build().value(), 0);
    assert_eq!(builder.build().value(), 1);
    assert_eq!(EventManagerID::new(4).index(), 4);
}

#[test]
fn mutable_identifiers_hand_back_their_identifier() {
    let id = MutID::new(5u8);
    assert_eq!(*id.id(), 5);
    assert_eq!(id.take_id(), 5);
}

#[test]
fn descriptions_start_empty() {
    let (_, mut card_manager, _) = TestGame::new(0);
    let card = card_manager.builder().build(()).finish();
    let descriptions = CardDescriptions::<&str>::new();
    assert!(descriptions.descriptions(card.id()).is_none());
}

#[test]
fn a_stack_pops_what_was_stacked_last() {
    let priority = Priority::new(Game::start()).stack(StackDamageAndHeal::new(CharacterID::new(0)));
    assert_eq!(priority.stack_count(), 0);
    let priority = priority.stack(StackAction::RemoveCharacters(RemoveCharacters::default()));
    assert_eq!(priority.stack_count(), 1);
    let (_state, mut stack) = priority.take_contents();
    assert!(matches!(stack.pop(), Some(StackAction::RemoveCharacters(_))));
    assert!(stack.pop().is_none());
    assert_eq!(stack.full_stack().len(), 0);
}

struct Attack;

impl card_game::identifications::ActionIdentifier for Attack {
    fn action_id_spec() -> ActionID {
        ActionID::new("attack")
    }
    fn action_id() -> ActionID {
        ActionID::new("attack")
    }
}

#[test]
fn an_inserted_action_is_held_and_can_be_copied() {
    let (_, mut card_manager, _) = TestGame::new(0);
    let fighter = card_manager.builder().build(1u8).with_action::<Attack>().finish();
    let other = card_manager.builder().build(2u8).finish();
    let actions = card_manager.card_actions();
    assert!(actions.contains_action(ActionID::new("attack"), fighter.id()));
    assert!(!actions.contains_action(ActionID::new("attack"), other.id()));
    assert!(!actions.contains_action(ActionID::new("defend"), fighter.id()));
    let mut actions = actions.clone();
    actions.copy_actions(other.id(), fighter.id());
    assert!(actions.contains_action(ActionID::new("attack"), other.id()));
    actions.insert_action(ActionID::new("defend"), other.id());
    assert!(actions.contains_action(ActionID::new("defend"), other.id()));
    assert!(!actions.contains_action(ActionID::new("defend"), fighter.id()));
    actions.insert_action(ActionID::new("attack"), other.id());
    assert!(actions.contains_action(ActionID::new("attack"), other.id()));
}

#[test]
fn generated_player_ids_differ() {
    let (mut builder, _, _) = TestGame::new(0);
    let ids = (0..5).map(|_| builder.generate_player_id().value()).collect::<Vec<_>>();
    assert_eq!(ids, vec![0, 1, 2, 3, 4]);
}

#[test]
fn a_new_action_name_restarts_the_cards_record() {
    let (_, mut card_manager, _) = TestGame::new(0);
    let fighter = card_manager.builder().build(1u8).with_action::<Attack>().finish();
    let mut actions = card_manager.card_actions().clone();
    actions.insert_action(ActionID::new("defend"), fighter.id());
    assert!(actions.contains_action(ActionID::new("attack"), fighter.id()));
    assert!(actions.contains_action(ActionID::new("defend"), fighter.id()));
    let other = card_manager.builder().build(2u8).finish();
    actions.copy_actions(other.id(), fighter.id());
    assert!(actions.contains_action(ActionID::new("defend"), other.id()));
    assert!(!actions.contains_action(ActionID::new("attack"), other.id()));
}
