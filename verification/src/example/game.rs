use std::collections::HashMap;

use vstd::prelude::*;

use crate::example::identifications::CharacterID;
use crate::stack::priority::GetState;

verus! {

broadcast use vstd::std_specs::hash::group_hash_axioms;

/// A character, with its health.
#[derive(PartialEq, Eq, Structural)]
pub struct Character {
    pub health: usize,
}

/// The characters of the game, by their identifier.
pub struct Game {
    pub characters: HashMap<usize, Character>,
}

impl Game {
    /// The characters of the game, by the number of their identifier.
    pub open spec fn characters_spec(self) -> Map<usize, Character> {
        self.characters@
    }

    /// A game without characters.
    pub fn new() -> (r: Game)
        ensures
            r.characters_spec() == Map::<usize, Character>::empty(),
    {
        Game { characters: HashMap::new() }
    }

    /// Adds a character, or replaces the one with the same identifier.
    pub fn insert_character(&mut self, id: CharacterID, character: Character)
        ensures
            final(self).characters_spec() == old(self).characters_spec().insert(id@, character),
    {
        self.characters.insert(id.value(), character);
    }

    /// The health of the character `id`, if there is one.
    pub fn character_health(&self, id: CharacterID) -> (r: Option<usize>)
        ensures
            self.characters_spec().contains_key(id@) ==> r == Some(
                self.characters_spec()[id@].health,
            ),
            !self.characters_spec().contains_key(id@) ==> r is None,
    {
        match self.characters.get(&id.value()) {
            Some(character) => Some(character.health),
            None => None,
        }
    }

    pub fn start() -> (r: StartOfTurnState)
        ensures
            r.game_spec().characters_spec() == Map::<usize, Character>::empty(),
    {
        StartOfTurnState { game: Game { characters: HashMap::new() } }
    }
}

/// Write access to an inner state.
pub trait GetStateMut<State>: GetState<State> + Sized {
    /// This value with its inner state replaced by `state`.
    spec fn with_state(self, state: State) -> Self;

    fn state_mut(&mut self) -> (r: &mut State)
        ensures
            *r == old(self).state_spec(),
            *final(self) == old(self).with_state(*final(r)),
    ;

    /// Replacing the inner state and reading it back gives the new state.
    proof fn lemma_with_state(self, state: State)
        ensures
            self.with_state(state).state_spec() == state,
    ;
}

impl GetState<Game> for Game {
    open spec fn state_spec(&self) -> Game {
        *self
    }

    fn state(&self) -> (r: &Game) {
        self
    }
}

impl GetStateMut<Game> for Game {
    open spec fn with_state(self, state: Game) -> Game {
        state
    }

    fn state_mut(&mut self) -> (r: &mut Game) {
        self
    }

    proof fn lemma_with_state(self, state: Game) {
    }
}

/// The game at the start of a turn.
pub struct StartOfTurnState {
    game: Game,
}

/// The game while actions are taken.
pub struct ActionState {
    game: Game,
}

/// The game at the end of a turn.
pub struct EndOfTurnState {
    game: Game,
}

impl StartOfTurnState {
    pub closed spec fn game_spec(self) -> Game {
        self.game
    }

    pub fn new(game: Game) -> (r: Self)
        ensures
            r.game_spec() == game,
    {
        StartOfTurnState { game }
    }

    pub fn game(&self) -> (r: &Game)
        ensures
            *r == self.game_spec(),
    {
        &self.game
    }
}

impl ActionState {
    pub closed spec fn game_spec(self) -> Game {
        self.game
    }

    pub fn new(game: Game) -> (r: Self)
        ensures
            r.game_spec() == game,
    {
        ActionState { game }
    }

    pub fn game(&self) -> (r: &Game)
        ensures
            *r == self.game_spec(),
    {
        &self.game
    }
}

impl EndOfTurnState {
    pub closed spec fn game_spec(self) -> Game {
        self.game
    }

    pub fn new(game: Game) -> (r: Self)
        ensures
            r.game_spec() == game,
    {
        EndOfTurnState { game }
    }

    pub fn game(&self) -> (r: &Game)
        ensures
            *r == self.game_spec(),
    {
        &self.game
    }
}

impl GetState<Game> for StartOfTurnState {
    open spec fn state_spec(&self) -> Game {
        self.game_spec()
    }

    fn state(&self) -> (r: &Game) {
        &self.game
    }
}

impl GetStateMut<Game> for StartOfTurnState {
    closed spec fn with_state(self, state: Game) -> Self {
        StartOfTurnState { game: state }
    }

    fn state_mut(&mut self) -> (r: &mut Game) {
        &mut self.game
    }

    proof fn lemma_with_state(self, state: Game) {
    }
}

impl GetState<Game> for ActionState {
    open spec fn state_spec(&self) -> Game {
        self.game_spec()
    }

    fn state(&self) -> (r: &Game) {
        &self.game
    }
}

impl GetStateMut<Game> for ActionState {
    closed spec fn with_state(self, state: Game) -> Self {
        ActionState { game: state }
    }

    fn state_mut(&mut self) -> (r: &mut Game) {
        &mut self.game
    }

    proof fn lemma_with_state(self, state: Game) {
    }
}

impl GetState<Game> for EndOfTurnState {
    open spec fn state_spec(&self) -> Game {
        self.game_spec()
    }

    fn state(&self) -> (r: &Game) {
        &self.game
    }
}

impl GetStateMut<Game> for EndOfTurnState {
    closed spec fn with_state(self, state: Game) -> Self {
        EndOfTurnState { game: state }
    }

    fn state_mut(&mut self) -> (r: &mut Game) {
        &mut self.game
    }

    proof fn lemma_with_state(self, state: Game) {
    }
}

} // verus!
