pub mod cards;
pub mod commands;
pub mod context;
pub mod events;
pub mod example;
pub mod identifications;
pub mod map_keys;
pub mod stack;
pub mod steps;
pub mod validation;
pub mod zones;

use vstd::prelude::*;

use crate::cards::CardManager;
use crate::identifications::PlayerIDBuilder;

verus! {

/// Builds a game from fresh player identifiers and a fresh card manager.
pub trait CardGameBuilder<EventManager: Default, ListenerInput = ()>: Sized {
    type GenerationData;
    type Game;

    fn generate(
        player_id_builder: PlayerIDBuilder,
        card_manager: CardManager<EventManager, ListenerInput>,
        generation_data: Self::GenerationData,
    ) -> Self::Game;

    /// The game that [`generate`](Self::generate) makes of `data`, with identifiers and
    /// cards that start from nothing.
    fn new(data: Self::GenerationData) -> (r: Self::Game)
        ensures
            exists|player_id_builder: PlayerIDBuilder, card_manager: CardManager<EventManager, ListenerInput>|
                player_id_builder@ == 0 && card_manager.next_card_id_spec() == 0
                    && card_manager.card_actions_spec().names_spec().len() == 0
                    && call_ensures(Self::generate, (player_id_builder, card_manager, data), r),
    {
        let player_id_builder = PlayerIDBuilder::new();
        let card_manager = CardManager::new(EventManager::default());
        let r = Self::generate(player_id_builder, card_manager, data);
        assert(call_ensures(Self::generate, (player_id_builder, card_manager, data), r));
        r
    }
}

} // verus!
