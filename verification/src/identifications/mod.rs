//! Identifiers, and identifiers that were checked against a state.
pub mod action;
pub mod card;
pub mod player;

pub use action::{ActionDescription, ActionID, ActionIdentifier};
pub use card::{CardDoesNotExist, GetValidCardIDFromZone, SourceCardID, TargetCardID, ValidCardID};
pub use player::{
    ActivePlayer, PlayerDoesNotExist, PlayerID, PlayerIDBuilder, PlayerManager, ValidPlayerID,
};

use vstd::prelude::*;

use crate::validation::{StateFilterInput, StateFilterInputCombination, StateFilterInputConversion};

verus! {

/// Views a value as another type that it can stand for.
pub trait CastTo<T> {
    spec fn cast_spec(&self) -> T;

    fn cast_ref(&self) -> (r: &T)
        ensures
            *r == self.cast_spec(),
    ;
}

/// An identifier that allows mutation.
///
/// Ex. `ValidCardID` -> `MutID<ValidCardID>`
/// can be used to retrieve a mutable reference to a card.
pub struct MutID<ID>(ID);

impl<ID> StateFilterInput for MutID<ID> {}

impl<ID> View for MutID<ID> {
    type V = ID;

    closed spec fn view(&self) -> ID {
        self.0
    }
}

impl<ID> MutID<ID> {
    pub closed spec fn of(id: ID) -> Self {
        MutID(id)
    }

    pub fn new(id: ID) -> (r: Self)
        ensures
            r == Self::of(id),
            r@ == id,
    {
        MutID(id)
    }

    pub fn id(&self) -> (r: &ID)
        ensures
            *r == self@,
    {
        &self.0
    }

    pub fn take_id(self) -> (r: ID)
        ensures
            r == self@,
    {
        self.0
    }

    pub fn into_id<NewID>(self) -> (r: MutID<NewID>) where ID: Into<NewID>
        ensures
            call_ensures(ID::into, (self@,), r@),
    {
        MutID(self.0.into())
    }
}

/// Turns a collection of identifiers into identifiers that allow mutation.
pub trait IterMutID<ID> {
    spec fn ids_spec(self) -> Seq<ID>;

    fn iter_mut_id(self) -> (r: Vec<MutID<ID>>)
        ensures
            r@.len() == self.ids_spec().len(),
            forall|i: int| 0 <= i < r@.len() ==> #[trigger] r@[i]@ == self.ids_spec()[i],
    ;
}

impl<ID> IterMutID<ID> for MutID<Vec<ID>> {
    closed spec fn ids_spec(self) -> Seq<ID> {
        self.0@
    }

    fn iter_mut_id(self) -> (r: Vec<MutID<ID>>) {
        let ghost ids = self.0@;
        let mut rest = self.0;
        let mut reversed: Vec<MutID<ID>> = Vec::new();
        while rest.len() > 0
            invariant
                rest@ == ids.take(rest@.len() as int),
                rest@.len() + reversed@.len() == ids.len(),
                forall|i: int| 0 <= i < reversed@.len() ==> #[trigger] reversed@[i]@ == ids[ids.len() - 1 - i],
            decreases rest.len(),
        {
            let id = rest.pop().unwrap();
            reversed.push(MutID::new(id));
            assert(rest@ =~= ids.take(rest@.len() as int));
        }
        let mut r: Vec<MutID<ID>> = Vec::new();
        while reversed.len() > 0
            invariant
                r@.len() + reversed@.len() == ids.len(),
                forall|i: int| 0 <= i < reversed@.len() ==> #[trigger] reversed@[i]@ == ids[ids.len() - 1 - i],
                forall|i: int| 0 <= i < r@.len() ==> #[trigger] r@[i]@ == ids[i],
            decreases reversed.len(),
        {
            let id = reversed.pop().unwrap();
            r.push(id);
        }
        r
    }
}

impl<T0, T1> MutID<(T0, T1)> {
    pub fn split_take(self) -> (r: (MutID<T0>, MutID<T1>))
        ensures
            r.0@ == self@.0,
            r.1@ == self@.1,
    {
        let (a, b) = self.0;
        (MutID::new(a), MutID::new(b))
    }
}

impl<T0, T1, T2> MutID<(T0, T1, T2)> {
    pub fn split_take(self) -> (r: (MutID<T0>, MutID<T1>, MutID<T2>))
        ensures
            r.0@ == self@.0,
            r.1@ == self@.1,
            r.2@ == self@.2,
    {
        let (a, b, c) = self.0;
        (MutID::new(a), MutID::new(b), MutID::new(c))
    }
}

impl<T0, T1, T2, T3> MutID<(T0, T1, T2, T3)> {
    pub fn split_take(self) -> (r: (MutID<T0>, MutID<T1>, MutID<T2>, MutID<T3>))
        ensures
            r.0@ == self@.0,
            r.1@ == self@.1,
            r.2@ == self@.2,
            r.3@ == self@.3,
    {
        let (a, b, c, d) = self.0;
        (MutID::new(a), MutID::new(b), MutID::new(c), MutID::new(d))
    }
}

impl<T: CastTo<CastedT>, CastedT> CastTo<CastedT> for MutID<T> {
    closed spec fn cast_spec(&self) -> CastedT {
        self.0.cast_spec()
    }

    fn cast_ref(&self) -> (r: &CastedT) {
        self.0.cast_ref()
    }
}

impl<F, T: UncheckedReplaceFilter<F>> UncheckedReplaceFilter<F> for MutID<T> {
    type Output = MutID<T::Output>;

    closed spec fn replaced_spec(self) -> MutID<T::Output> {
        MutID(self.0.replaced_spec())
    }

    fn unchecked_replace_filter(self) -> (r: MutID<T::Output>) {
        MutID::new(self.0.unchecked_replace_filter())
    }
}

impl<T: UncheckedClone> UncheckedClone for MutID<T> {
    fn unchecked_clone(&self) -> (r: Self) {
        MutID::new(self.0.unchecked_clone())
    }
}

/// What remains of a [`MutID`] once its identifier was taken out.
pub struct MutIDRemainder<ID>(core::marker::PhantomData<ID>);

impl<ID> StateFilterInputConversion<ID> for MutID<ID> {
    type Remainder = MutIDRemainder<ID>;

    closed spec fn split_spec(self) -> (ID, MutIDRemainder<ID>) {
        (self.0, MutIDRemainder(core::marker::PhantomData))
    }

    fn split_take(self) -> (r: (ID, MutIDRemainder<ID>)) {
        (self.0, MutIDRemainder(core::marker::PhantomData))
    }
}

impl<NewID, OldID> StateFilterInputCombination<NewID> for MutIDRemainder<OldID> {
    type Combined = MutID<NewID>;

    closed spec fn combine_spec(self, new_id: NewID) -> MutID<NewID> {
        MutID(new_id)
    }

    fn combine(self, new_id: NewID) -> (r: MutID<NewID>) {
        MutID::new(new_id)
    }
}

/// Changes the filter that a checked identifier carries, without checking it.
pub trait UncheckedReplaceFilter<F>: Sized {
    type Output;

    spec fn replaced_spec(self) -> Self::Output;

    fn unchecked_replace_filter(self) -> (r: Self::Output)
        ensures
            r == self.replaced_spec(),
    ;
}

/// Copies a checked identifier, without checking it again.
pub trait UncheckedClone: Sized {
    fn unchecked_clone(&self) -> (r: Self)
        ensures
            r == *self,
    ;
}

/// Marks a filter whose checks include those of `T`.
pub trait FilterSupertype<T> {}

impl<T0: FilterSupertype<I0>, T1: FilterSupertype<I1>, I0, I1> FilterSupertype<(I0, I1)> for (T0, T1) {}

impl<T0: FilterSupertype<I0>, T1: FilterSupertype<I1>, T2: FilterSupertype<I2>, I0, I1, I2> FilterSupertype<(I0, I1, I2)> for (T0, T1, T2) {}

} // verus!
