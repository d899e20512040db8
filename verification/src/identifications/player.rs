use std::collections::HashMap;

use vstd::prelude::*;

use crate::stack::NonEmptyInput;
use crate::map_keys::keys_of;

verus! {

broadcast use vstd::std_specs::hash::group_hash_axioms;

/// Identifies a player.
#[derive(Debug, Clone, Copy, PartialEq, Eq, Hash, Structural)]
pub struct PlayerID(usize);

impl View for PlayerID {
    type V = usize;

    closed spec fn view(&self) -> usize {
        self.0
    }
}

impl NonEmptyInput for PlayerID {}

impl PlayerID {
    /// A player identifier is determined by its number.
    pub proof fn lemma_view_injective(a: PlayerID, b: PlayerID)
        ensures
            a@ == b@ ==> a == b,
    {
    }

    /// The identifier with the number `value`.
    pub(crate) fn from_value(value: usize) -> (r: Self)
        ensures
            r@ == value,
    {
        PlayerID(value)
    }

    /// The number of this identifier.
    pub fn value(&self) -> (r: usize)
        ensures
            r == self@,
    {
        self.0
    }

    /// The player after this one, among `max_players` players.
    fn next_player_id(&self, max_players: usize) -> (r: Self)
        requires
            max_players > 0,
            self@ < max_players || self@ == 0,
        ensures
            r@ == (self@ + 1) % (max_players as int),
    {
        PlayerID((self.0 + 1) % max_players)
    }
}

/// A player identifier that was checked by the filter `F`.
pub struct ValidPlayerID<F>(PlayerID, core::marker::PhantomData<F>);

impl<F> View for ValidPlayerID<F> {
    type V = PlayerID;

    closed spec fn view(&self) -> PlayerID {
        self.0
    }
}

impl<F> NonEmptyInput for ValidPlayerID<F> {}

impl From<ValidPlayerID<ActivePlayer>> for ValidPlayerID<()> {
    fn from(valid_id: ValidPlayerID<ActivePlayer>) -> (r: Self) {
        ValidPlayerID(valid_id.0, core::marker::PhantomData)
    }
}

impl vstd::std_specs::convert::FromSpecImpl<ValidPlayerID<ActivePlayer>> for ValidPlayerID<()> {
    open spec fn obeys_from_spec() -> bool {
        true
    }

    open spec fn from_spec(v: ValidPlayerID<ActivePlayer>) -> ValidPlayerID<()> {
        ValidPlayerID::of(v@)
    }
}

impl<F> ValidPlayerID<F> {
    /// The checked identifier of `player_id`.
    pub closed spec fn of(player_id: PlayerID) -> Self {
        ValidPlayerID(player_id, core::marker::PhantomData)
    }

    /// A checked identifier is determined by the identifier it holds.
    pub proof fn lemma_of(v: Self, player_id: PlayerID)
        ensures
            Self::of(v@) == v,
            Self::of(player_id)@ == player_id,
    {
    }

    pub(crate) fn new(player_id: PlayerID) -> (r: Self)
        ensures
            r == Self::of(player_id),
            r@ == player_id,
    {
        ValidPlayerID(player_id, core::marker::PhantomData)
    }

    pub fn id(&self) -> (r: PlayerID)
        ensures
            r == self@,
    {
        self.0
    }

    /// Succeeds when `player_id` is one of the players of `player_manager`.
    pub fn try_new<P>(player_manager: &PlayerManager<P>, player_id: PlayerID) -> (r: Result<
        Self,
        PlayerDoesNotExist,
    >)
        ensures
            player_manager.players_spec().contains_key(player_id@) ==> r == Ok::<
                Self,
                PlayerDoesNotExist,
            >(Self::of(player_id)),
            !player_manager.players_spec().contains_key(player_id@) ==> r == Err::<
                Self,
                PlayerDoesNotExist,
            >(PlayerDoesNotExist(player_id)),
            r matches Ok(v) ==> v@ == player_id,
    {
        if player_manager.players.contains_key(&player_id.0) {
            Ok(ValidPlayerID(player_id, core::marker::PhantomData))
        } else {
            Err(PlayerDoesNotExist(player_id))
        }
    }
}

/// The player is not one of the game's players.
pub struct PlayerDoesNotExist(pub PlayerID);

/// Marks the identifier of the player whose turn it is.
pub struct ActivePlayer;

/// The players of a game, and whose turn it is.
pub struct PlayerManager<P> {
    current_player_id: PlayerID,
    pub(crate) players: HashMap<usize, P>,
}

impl<P> PlayerManager<P> {
    /// The player whose turn it is.
    pub closed spec fn current_spec(self) -> PlayerID {
        self.current_player_id
    }

    /// The players, by the number of their identifier.
    pub closed spec fn players_spec(self) -> Map<usize, P> {
        self.players@
    }

    /// The turn is at the first player, or at one of the players' positions.
    #[verifier::type_invariant]
    closed spec fn wf(self) -> bool {
        self.current_player_id@ == 0 || self.current_player_id@ < self.players@.len()
    }

    /// `players`: must have at least one player.
    pub fn new(players: HashMap<usize, P>) -> (r: Self)
        ensures
            r.current_spec()@ == 0,
            r.players_spec() == players@,
    {
        PlayerManager { current_player_id: PlayerID(0), players }
    }

    pub fn active_player_id(&self) -> (r: ValidPlayerID<ActivePlayer>)
        ensures
            r@ == self.current_spec(),
            self.players_spec().len() > 0 ==> self.current_spec()@ < self.players_spec().len(),
    {
        proof {
            use_type_invariant(self);
        }
        ValidPlayerID::new(self.current_player_id)
    }

    /// Passes the turn to the next player.
    pub fn next_player_id(&mut self) -> (r: ValidPlayerID<()>)
        requires
            old(self).players_spec().len() > 0,
        ensures
            final(self).current_spec()@ == (old(self).current_spec()@ + 1) % (old(
                self,
            ).players_spec().len() as int),
            final(self).players_spec() == old(self).players_spec(),
            r@ == final(self).current_spec(),
            old(self).current_spec()@ < old(self).players_spec().len(),
            final(self).current_spec()@ < final(self).players_spec().len(),
    {
        proof {
            use_type_invariant(&*self);
        }
        let count = self.players.len();
        self.current_player_id = self.current_player_id.next_player_id(count);
        ValidPlayerID::new(self.current_player_id)
    }

    pub fn player_count(&self) -> (r: usize)
        ensures
            r == self.players_spec().len(),
    {
        self.players.len()
    }

    /// The players, each once.
    pub fn players(&self) -> (r: Vec<ValidPlayerID<()>>)
        ensures
            r@.len() == self.players_spec().len(),
            forall|i: int, j: int| 0 <= i < j < r@.len() ==> r@[i]@ != r@[j]@,
            forall|i: int| 0 <= i < r@.len() ==> self.players_spec().contains_key(#[trigger] r@[i]@@),
            forall|k: usize| self.players_spec().contains_key(k) ==> exists|i: int| 0 <= i < r@.len() && #[trigger] r@[i]@@ == k,
    {
        let keys = keys_of(&self.players);
        let mut r: Vec<ValidPlayerID<()>> = Vec::new();
        let mut i: usize = 0;
        while i < keys.len()
            invariant
                i <= keys@.len(),
                r@.len() == i,
                forall|j: int| 0 <= j < i ==> (#[trigger] r@[j])@@ == keys@[j],
            decreases keys@.len() - i,
        {
            r.push(ValidPlayerID::new(PlayerID(keys[i])));
            i = i + 1;
        }
        assert forall|a: int, b: int| 0 <= a < b < r@.len() implies r@[a]@ != r@[b]@ by {
            assert(r@[a]@@ == keys@[a]);
            assert(r@[b]@@ == keys@[b]);
        }
        assert forall|k: usize| self.players_spec().contains_key(k) implies exists|i: int| 0 <= i < r@.len() && #[trigger] r@[i]@@ == k by {
            assert(keys@.to_set().contains(k));
            let j = choose|j: int| 0 <= j < keys@.len() && keys@[j] == k;
            assert(r@[j]@@ == k);
        }
        assert forall|i: int| 0 <= i < r@.len() implies self.players_spec().contains_key(#[trigger] r@[i]@@) by {
            assert(keys@.to_set().contains(keys@[i]));
        }
        r
    }
}

/// The player whose turn it is after `turns` turns were passed on from `current` among
/// `count` players.
pub open spec fn turn_after(current: int, count: int, turns: nat) -> int
    decreases turns,
{
    if turns == 0 {
        current
    } else {
        (turn_after(current, count, (turns - 1) as nat) + 1) % count
    }
}

/// `player` has the turn within `count` turns from `current`.
pub open spec fn gets_turn(current: int, count: int, player: int) -> bool {
    exists|k: nat| k < count && #[trigger] turn_after(current, count, k) == player
}

/// Passing the turn on goes round the players in order: after `turns` turns the player is
/// `turns` places further, counted round; after as many turns as there are players the turn
/// is back where it started, and on the way every player had it.
pub proof fn lemma_turns_go_round(current: int, count: int, turns: nat)
    requires
        0 <= current < count,
    ensures
        turn_after(current, count, turns) == (current + turns) % count,
        turn_after(current, count, count as nat) == current,
        forall|player: int| 0 <= player < count ==> #[trigger] gets_turn(current, count, player),
{
    lemma_turn_after_mod(current, count, turns);
    lemma_turn_after_mod(current, count, count as nat);
    vstd::arithmetic::div_mod::lemma_mod_add_multiples_vanish(current, count);
    vstd::arithmetic::div_mod::lemma_small_mod(current as nat, count as nat);
    assert forall|player: int| 0 <= player < count implies #[trigger] gets_turn(current, count, player) by {
        let k: nat = if player >= current { (player - current) as nat } else { (player - current + count) as nat };
        lemma_turn_after_mod(current, count, k);
        if player >= current {
            vstd::arithmetic::div_mod::lemma_small_mod(player as nat, count as nat);
        } else {
            vstd::arithmetic::div_mod::lemma_mod_add_multiples_vanish(player, count);
            vstd::arithmetic::div_mod::lemma_small_mod(player as nat, count as nat);
        }
        assert(turn_after(current, count, k) == player);
    }
}

proof fn lemma_turn_after_mod(current: int, count: int, turns: nat)
    requires
        0 <= current < count,
    ensures
        turn_after(current, count, turns) == (current + turns) % count,
    decreases turns,
{
    if turns == 0 {
        vstd::arithmetic::div_mod::lemma_small_mod(current as nat, count as nat);
    } else {
        lemma_turn_after_mod(current, count, (turns - 1) as nat);
        vstd::arithmetic::div_mod::lemma_add_mod_noop(current + turns - 1, 1, count);
        if count == 1 {
            vstd::arithmetic::div_mod::lemma_mod_self_0(1);
            vstd::arithmetic::div_mod::lemma_mod_add_multiples_vanish((current + turns - 1) % count, 1);
        } else {
            vstd::arithmetic::div_mod::lemma_small_mod(1, count as nat);
        }
    }
}

/// Player identifiers handed out one after another by the same builder all differ.
pub proof fn lemma_generated_player_ids_unique(ids: Seq<PlayerID>, first: int)
    requires
        forall|i: int| 0 <= i < ids.len() ==> #[trigger] ids[i]@ == first + i,
    ensures
        ids.no_duplicates(),
{
    assert forall|i: int, j: int| 0 <= i < ids.len() && 0 <= j < ids.len() && i != j implies ids[i] != ids[j] by {
        assert(ids[i]@ != ids[j]@);
    }
}

/// Hands out player identifiers, each once.
pub struct PlayerIDBuilder {
    next_player_id: usize,
}

impl View for PlayerIDBuilder {
    type V = usize;

    /// The number of the identifier handed out next.
    closed spec fn view(&self) -> usize {
        self.next_player_id
    }
}

impl PlayerIDBuilder {
    /// The numbers of the identifiers handed out so far.
    pub open spec fn issued(self) -> Set<usize> {
        Set::new(|n: usize| n < self@)
    }

    pub(crate) fn new() -> (r: Self)
        ensures
            r@ == 0,
            r.issued() == Set::<usize>::empty(),
    {
        let r = PlayerIDBuilder { next_player_id: 0 };
        assert(r.issued() =~= Set::<usize>::empty());
        r
    }

    /// Generates a unique player ID;
    /// call repeatedly for subsequent player IDs.
    pub fn generate_player_id(&mut self) -> (r: PlayerID)
        requires
            old(self)@ < usize::MAX,
        ensures
            r@ == old(self)@,
            final(self)@ == old(self)@ + 1,
            !old(self).issued().contains(r@),
            final(self).issued() == old(self).issued().insert(r@),
    {
        let player_id = PlayerID(self.next_player_id);
        self.next_player_id = self.next_player_id + 1;
        assert(self.issued() =~= old(self).issued().insert(player_id@));
        player_id
    }
}

} // verus!
