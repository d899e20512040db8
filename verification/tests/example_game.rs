use card_game::example::actions::StackDamageAndHeal;
use card_game::example::game::{Character, Game, StartOfTurnState};
use card_game::example::identifications::CharacterID;
use card_game::example::resolvers::{HaltStack, Resolver};
use card_game::example::stack::{RemoveCharacters, StackAction};
use card_game::stack::priority::{Priority, ResolveStack, Resolver as _};

fn two_characters() -> StartOfTurnState {
    let mut game = Game::new();
    game.insert_character(CharacterID::new(0), Character { health: 3 });
    game.insert_character(CharacterID::new(1), Character { health: 3 });
    StartOfTurnState::new(game)
}

fn health(state: &StartOfTurnState, id: usize) -> usize {
    state.game().character_health(CharacterID::new(id)).unwrap()
}

#[test]
fn game() {
    let state = two_characters();
    let priority = Priority::new(state).stack(StackDamageAndHeal::new(CharacterID::new(0)));
    match priority.resolve_next(&mut Resolver) {
        ResolveStack::Complete(new_stack) => match new_stack.resolve_next(&mut Resolver) {
            ResolveStack::Halt(requirement) => match requirement {
                HaltStack::DealDamageRequirement(deal_damage) => {
                    let priority = match deal_damage.select(CharacterID::new(0)) {
                        Ok(priority) => priority,
                        Err(_) => panic!("the target should pass"),
                    };
                    assert_eq!(health(priority.state(), 0), 2);
                    assert_eq!(health(priority.state(), 1), 3);
                    match priority.resolve_next(&mut Resolver) {
                        ResolveStack::Complete(r) => match r {
                            Ok(r) => {
                                let priority = match r.select(CharacterID::new(0)) {
                                    Ok(priority) => priority,
                                    Err(_) => panic!("the target should pass"),
                                };
                                assert_eq!(health(priority.state(), 0), 3);
                                assert_eq!(health(priority.state(), 1), 3);
                            }
                            Err(_) => unreachable!(),
                        },
                        ResolveStack::Next(_) => unreachable!(),
                        ResolveStack::Halt(_) => unreachable!(),
                    }
                }
                HaltStack::HealRequirement(_) => unreachable!(),
            },
            ResolveStack::Complete(_) => unreachable!(),
            ResolveStack::Next(_) => unreachable!(),
        },
        ResolveStack::Next(_) => unreachable!(),
        ResolveStack::Halt(_) => unreachable!(),
    }
}

#[test]
fn game_remove_requirements() {
    let state = two_characters();
    let priority = Priority::new(state).stack(StackDamageAndHeal::new(CharacterID::new(0)));
    match priority.resolve_next(&mut Resolver) {
        ResolveStack::Complete(new_stack) => match new_stack.resolve_next(&mut Resolver) {
            ResolveStack::Halt(requirement) => match requirement {
                HaltStack::DealDamageRequirement(deal_damage) => {
                    let priority = match deal_damage.select(CharacterID::new(0)) {
                        Ok(priority) => priority,
                        Err(_) => panic!("the target should pass"),
                    };
                    assert_eq!(health(priority.state(), 0), 2);
                    assert_eq!(health(priority.state(), 1), 3);
                    let priority =
                        priority.stack(StackAction::RemoveCharacters(RemoveCharacters::default()));
                    let ResolveStack::Next(priority) = priority.resolve_next(&mut Resolver) else {
                        unreachable!()
                    };
                    match priority.resolve_next(&mut Resolver) {
                        ResolveStack::Complete(r) => match r {
                            Ok(_) => unreachable!(),
                            Err(_) => {
                                // Expected path: no character is left to heal.
                            }
                        },
                        ResolveStack::Next(_) => unreachable!(),
                        ResolveStack::Halt(_) => unreachable!(),
                    }
                }
                HaltStack::HealRequirement(_) => unreachable!(),
            },
            ResolveStack::Complete(_) => unreachable!(),
            ResolveStack::Next(_) => unreachable!(),
        },
        ResolveStack::Next(_) => unreachable!(),
        ResolveStack::Halt(_) => unreachable!(),
    }
}

#[test]
fn damage_hits_only_its_target() {
    let state = two_characters();
    let priority = Priority::new(state).stack(StackDamageAndHeal::new(CharacterID::new(1)));
    let ResolveStack::Complete(new_stack) = priority.resolve_next(&mut Resolver) else {
        unreachable!()
    };
    let ResolveStack::Halt(HaltStack::DealDamageRequirement(deal_damage)) =
        new_stack.resolve_next(&mut Resolver)
    else {
        unreachable!()
    };
    let Ok(priority) = deal_damage.select(CharacterID::new(1)) else {
        unreachable!()
    };
    assert_eq!(health(priority.state(), 1), 2);
    assert_eq!(health(priority.state(), 0), 3);
}

#[test]
fn empty_game_starts_without_characters() {
    let state = Game::start();
    assert_eq!(state.game().character_health(CharacterID::new(0)), None);
}
