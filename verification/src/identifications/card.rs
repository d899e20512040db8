use vstd::prelude::*;

use crate::cards::CardID;
use crate::identifications::{FilterSupertype, UncheckedClone, UncheckedReplaceFilter};
use crate::stack::NonEmptyInput;
use crate::validation::StateFilterInput;
use crate::zones::{Zone, zone_holds};

verus! {

/// A card identifier that was checked by the filter `F`.
pub struct ValidCardID<F>(CardID, core::marker::PhantomData<F>);

impl<F> View for ValidCardID<F> {
    type V = CardID;

    closed spec fn view(&self) -> CardID {
        self.0
    }
}

impl<F> NonEmptyInput for ValidCardID<F> {}

impl<F> StateFilterInput for ValidCardID<F> {}

impl<F> ValidCardID<F> {
    /// The checked identifier of `card_id`.
    pub closed spec fn of(card_id: CardID) -> Self {
        ValidCardID(card_id, core::marker::PhantomData)
    }

    /// A checked identifier is determined by the identifier it holds.
    pub proof fn lemma_of(v: Self, card_id: CardID)
        ensures
            Self::of(v@) == v,
            Self::of(card_id)@ == card_id,
    {
    }

    pub(crate) fn new(card_id: CardID) -> (r: Self)
        ensures
            r == Self::of(card_id),
            r@ == card_id,
    {
        ValidCardID(card_id, core::marker::PhantomData)
    }

    pub fn id(&self) -> (r: &CardID)
        ensures
            *r == self@,
    {
        &self.0
    }

    pub fn card_id(&self) -> (r: CardID)
        ensures
            r == self@,
    {
        self.0
    }

    pub(crate) fn clone_id(&self) -> (r: Self)
        ensures
            r == *self,
    {
        ValidCardID::new(self.0.clone_id())
    }

    /// What `f` finds for this identifier, which must be something.
    pub fn get<'a, T>(&'a self, f: impl FnOnce(&'a Self) -> Option<&'a T>) -> (r: &'a T)
        requires
            f.requires((self,)),
            forall|o: Option<&'a T>| f.ensures((self,), o) ==> o is Some,
        ensures
            f.ensures((self,), Some(r)),
    {
        f(self).unwrap()
    }

    /// What `f` takes out for this identifier, which must be something.
    pub fn remove<T>(&self, f: impl FnOnce(&Self) -> Option<T>) -> (r: T)
        requires
            f.requires((self,)),
            forall|o: Option<T>| f.ensures((self,), o) ==> o is Some,
        ensures
            f.ensures((self,), Some(r)),
    {
        f(self).unwrap()
    }

    /// The same identifier, as checked by a filter whose checks `F` includes.
    pub fn into_filter<NewF>(self) -> (r: ValidCardID<NewF>) where F: FilterSupertype<NewF>
        ensures
            r@ == self@,
    {
        ValidCardID(self.0, core::marker::PhantomData)
    }
}

impl<F> From<ValidCardID<F>> for CardID {
    fn from(valid_id: ValidCardID<F>) -> (r: CardID) {
        valid_id.0
    }
}

impl<F> vstd::std_specs::convert::FromSpecImpl<ValidCardID<F>> for CardID {
    open spec fn obeys_from_spec() -> bool {
        true
    }

    open spec fn from_spec(v: ValidCardID<F>) -> CardID {
        v@
    }
}

impl<F0, F1> From<ValidCardID<(F0, F1)>> for ValidCardID<F0> {
    fn from(valid_id: ValidCardID<(F0, F1)>) -> (r: ValidCardID<F0>) {
        ValidCardID(valid_id.0, core::marker::PhantomData)
    }
}

impl<F0, F1> vstd::std_specs::convert::FromSpecImpl<ValidCardID<(F0, F1)>> for ValidCardID<F0> {
    open spec fn obeys_from_spec() -> bool {
        true
    }

    open spec fn from_spec(v: ValidCardID<(F0, F1)>) -> ValidCardID<F0> {
        ValidCardID::of(v@)
    }
}

impl<F, NewF> UncheckedReplaceFilter<NewF> for ValidCardID<F> {
    type Output = ValidCardID<NewF>;

    closed spec fn replaced_spec(self) -> ValidCardID<NewF> {
        ValidCardID(self.0, core::marker::PhantomData)
    }

    fn unchecked_replace_filter(self) -> (r: ValidCardID<NewF>) {
        ValidCardID(self.0, core::marker::PhantomData)
    }
}

impl<F> UncheckedClone for ValidCardID<F> {
    fn unchecked_clone(&self) -> (r: Self) {
        ValidCardID(self.0, core::marker::PhantomData)
    }
}

impl<F> PartialEq for ValidCardID<F> {
    fn eq(&self, other: &Self) -> (r: bool) {
        self.0 == other.0
    }
}

impl<F> vstd::std_specs::cmp::PartialEqSpecImpl for ValidCardID<F> {
    open spec fn obeys_eq_spec() -> bool {
        true
    }

    open spec fn eq_spec(&self, other: &Self) -> bool {
        self@ == other@
    }
}

impl<F> Eq for ValidCardID<F> {}

/// Checks that a card is in a zone.
pub trait GetValidCardIDFromZone<Z: Zone>: Sized {
    spec fn checked(card_id: CardID) -> Self;

    fn try_new(card_id: CardID, zone: &Z) -> (r: Result<Self, CardDoesNotExist>)
        ensures
            zone_holds(*zone, card_id) ==> r == Ok::<Self, CardDoesNotExist>(Self::checked(card_id)),
            !zone_holds(*zone, card_id) ==> r == Err::<Self, CardDoesNotExist>(CardDoesNotExist(card_id)),
    ;
}

impl<Z: Zone> GetValidCardIDFromZone<Z> for ValidCardID<Z::CardFilter> {
    open spec fn checked(card_id: CardID) -> Self {
        ValidCardID::of(card_id)
    }

    fn try_new(card_id: CardID, zone: &Z) -> (r: Result<Self, CardDoesNotExist>) {
        if zone.get_card(card_id).is_some() {
            Ok(ValidCardID::new(card_id))
        } else {
            Err(CardDoesNotExist(card_id))
        }
    }
}

/// The card is not in the zone.
pub struct CardDoesNotExist(pub CardID);

/// The card an action comes from.
#[derive(Hash, PartialEq, Eq, Clone, Copy, Debug, Structural)]
pub struct SourceCardID(pub CardID);

impl StateFilterInput for SourceCardID {}

/// The card an action is aimed at.
#[derive(Hash, PartialEq, Eq, Clone, Copy, Debug, Structural)]
pub struct TargetCardID(pub CardID);

impl StateFilterInput for TargetCardID {}

} // verus!
