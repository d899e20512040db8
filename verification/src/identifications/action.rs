use vstd::prelude::*;

verus! {

/// Whether `a` and `b` hold the same characters.
pub fn str_eq(a: &str, b: &str) -> (r: bool)
    ensures
        r == (a@ == b@),
{
    let n = a.unicode_len();
    if n != b.unicode_len() {
        return false;
    }
    let mut i: usize = 0;
    while i < n
        invariant
            n == a@.len(),
            n == b@.len(),
            i <= n,
            forall|j: int| 0 <= j < i ==> a@[j] == b@[j],
        decreases n - i,
    {
        if a.get_char(i) != b.get_char(i) {
            return false;
        }
        i = i + 1;
    }
    assert(a@ =~= b@);
    true
}

/// The name of an action a card can take.
#[derive(Clone, Copy, Debug)]
pub struct ActionID(&'static str);

impl View for ActionID {
    type V = Seq<char>;

    closed spec fn view(&self) -> Seq<char> {
        self.0@
    }
}

impl ActionID {
    pub fn new(id: &'static str) -> (r: Self)
        ensures
            r@ == id@,
    {
        ActionID(id)
    }

    /// Whether both identifiers name the same action.
    pub fn same(&self, other: &ActionID) -> (r: bool)
        ensures
            r == (self@ == other@),
    {
        str_eq(self.0, other.0)
    }
}

impl PartialEq for ActionID {
    fn eq(&self, other: &ActionID) -> (r: bool) {
        str_eq(self.0, other.0)
    }
}

impl vstd::std_specs::cmp::PartialEqSpecImpl for ActionID {
    open spec fn obeys_eq_spec() -> bool {
        true
    }

    open spec fn eq_spec(&self, other: &ActionID) -> bool {
        self@ == other@
    }
}

impl Eq for ActionID {}

/// An action that has a name.
pub trait ActionIdentifier {
    spec fn action_id_spec() -> ActionID;

    fn action_id() -> (r: ActionID)
        ensures
            r == Self::action_id_spec(),
    ;
}

/// An action that has a description.
pub trait ActionDescription<T> {
    fn description() -> T;
}

} // verus!
