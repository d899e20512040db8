use vstd::prelude::*;

use crate::example::filters::Using;
use crate::example::game::Game;
use crate::example::identifications::CharacterID;
use crate::stack::priority::GetState;
use crate::stack::requirements::ActionRequirement;
use crate::validation::CollectedInputs;
use vstd::std_specs::iter::IteratorSpec;

verus! {

broadcast use vstd::std_specs::hash::group_hash_axioms;

/// Requires a character of the game as target.
pub struct TargetCharacter;

/// The characters of `game`, as targets.
pub open spec fn character_targets(game: Game) -> Set<CharacterID> {
    Set::new(|c: CharacterID| game.characters_spec().contains_key(c@))
}

impl<State: GetState<Game>> ActionRequirement<State, CharacterID> for TargetCharacter {
    type Filter = Using<CharacterID>;

    open spec fn candidates(state: State) -> Set<CharacterID> {
        character_targets(state.state_spec())
    }

    fn collect_inputs(state: &State) -> (r: CollectedInputs<State, CharacterID>) {
        let game = state.state();
        let mut ids: Vec<CharacterID> = Vec::new();
        let ghost keys = vstd::std_specs::hash::spec_keys_iter(&game.characters).remaining().unref();
        proof {
            vstd::std_specs::hash::axiom_spec_keys_iter(&game.characters);
        }
        for k in it: game.characters.keys()
            invariant
                it.seq().unref() == keys,
                keys.to_set() == game.characters@.dom(),
                ids@.len() == it.index(),
                forall|j: int| 0 <= j < it.index() ==> (#[trigger] ids@[j])@ == keys[j],
        {
            ids.push(CharacterID::new(*k));
        }
        proof {
            assert forall|c: CharacterID| #[trigger] ids@.to_set().contains(c) <==> character_targets(*game).contains(c) by {
                if ids@.to_set().contains(c) {
                    let j = choose|j: int| 0 <= j < ids@.len() && ids@[j] == c;
                    assert(keys.to_set().contains(keys[j]));
                }
                if character_targets(*game).contains(c) {
                    assert(keys.to_set().contains(c@));
                    let j = choose|j: int| 0 <= j < keys.len() && keys[j] == c@;
                    CharacterID::lemma_view_injective(ids@[j], c);
                    assert(ids@.contains(c));
                }
            }
            assert(ids@.to_set() =~= character_targets(*game));
        }
        CollectedInputs::new(ids)
    }
}

/// Every character of the game, and only those, can be targeted: `c` is a candidate exactly
/// when the game's characters hold `c`. So the requirement can be met exactly when the game
/// has a character.
pub proof fn lemma_targets_are_the_characters<State: GetState<Game>>(state: State, c: CharacterID)
    ensures
        <TargetCharacter as ActionRequirement<State, CharacterID>>::candidates(state).contains(c)
            <==> state.state_spec().characters_spec().contains_key(c@),
        crate::stack::requirements::requirement_fits::<State, CharacterID, TargetCharacter>(state)
            <==> exists|k: usize| #[trigger] state.state_spec().characters_spec().contains_key(k),
{
    if exists|k: usize| #[trigger] state.state_spec().characters_spec().contains_key(k) {
        let k = choose|k: usize| #[trigger] state.state_spec().characters_spec().contains_key(k);
        let id = CharacterID::of(k);
        CharacterID::lemma_of(k);
        assert(<TargetCharacter as ActionRequirement<State, CharacterID>>::candidates(state).contains(id));
        assert(crate::validation::passes::<State, CharacterID, Using<CharacterID>>(state, id));
    }
}

/// No character can be targeted.
pub struct NoTargetCharacterError;

/// The character selected as target cannot be targeted.
pub struct InvalidTargetCharacterError(CharacterID);

} // verus!
