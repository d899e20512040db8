use vstd::prelude::*;

use crate::stack::NonEmptyInput;
use crate::validation::StateFilterInput;

verus! {

/// Identifies a character of the game.
#[derive(Debug, Clone, Copy, PartialEq, Eq, Hash, Structural)]
pub struct CharacterID(pub(crate) usize);

impl NonEmptyInput for CharacterID {}

impl StateFilterInput for CharacterID {}

impl View for CharacterID {
    type V = usize;

    closed spec fn view(&self) -> usize {
        self.0
    }
}

impl CharacterID {
    /// The identifier numbered `id`.
    pub closed spec fn of(id: usize) -> Self {
        CharacterID(id)
    }

    /// The identifier numbered `id` has that number.
    pub proof fn lemma_of(id: usize)
        ensures
            Self::of(id)@ == id,
    {
    }

    /// An identifier is determined by its number.
    pub proof fn lemma_view_injective(a: CharacterID, b: CharacterID)
        ensures
            a@ == b@ ==> a == b,
    {
    }

    pub fn new(id: usize) -> (r: Self)
        ensures
            r@ == id,
    {
        CharacterID(id)
    }

    /// The number of this identifier.
    pub fn value(&self) -> (r: usize)
        ensures
            r == self@,
    {
        self.0
    }
}

} // verus!
