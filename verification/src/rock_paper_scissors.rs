//! The rock-paper-scissors game: a commitment scheme composed with gated
//! transitions.
//!
//! Each player has a region of their own, so the two players can commit
//! and reveal in any order; a third region tracks the game as a whole.
//! Committing a move stores its digest as a one-time token and advances
//! the player to the revealing phase; revealing validates and clears the
//! token and advances the player to the completed phase, closing the game
//! once both players are done.  Every operation checks everything before
//! it writes anything, so a failed call leaves the store exactly as it
//! was.

use vstd::prelude::*;

use crate::commit::{commit, reveal_commitment, spec_token_key};
use crate::encoding::Tagged;
use crate::fsm::{
    region_state, validate_state, validation_outcome, InvocationError, StateMachine, StorageType,
    TransitionHandler,
};
use crate::storage::{Digest, Store, StoreKey, StoreVal};
use crate::types::{Domain, Phase, Player};

verus! {

/// The state the game region advances to when `for_player` completes: the
/// end of the game if `check_player` had already completed, and otherwise
/// a record that `for_player` completed first.
pub open spec fn spec_game_next(store: Store, for_player: Player, check_player: Player) -> Tagged {
    if region_state(store, StorageType::Instance, Domain::Game.spec_encode()) == Some(
        Phase::Completed(check_player).spec_encode(),
    ) {
        Phase::End.spec_encode()
    } else {
        Phase::Completed(for_player).spec_encode()
    }
}

/// What committing a move yields: the player must be in the committing
/// phase, and no token for the digest may exist yet.
pub open spec fn spec_play_outcome(store: Store, player: Player, digest: Digest) -> Result<
    (),
    InvocationError,
> {
    match validation_outcome(
        region_state(store, StorageType::Instance, Domain::Players(player).spec_encode()),
        Phase::Committing(player).spec_encode(),
    ) {
        Err(e) => Err(e),
        Ok(()) => if store.tier(StorageType::Instance).contains_key(spec_token_key(digest)) {
            Err(InvocationError::CommitmentExists)
        } else {
            Ok(())
        },
    }
}

/// What revealing a move yields: the player must be in the revealing
/// phase, and the token committed earlier must exist.
pub open spec fn spec_reveal_outcome(store: Store, player: Player, digest: Digest) -> Result<
    (),
    InvocationError,
> {
    match validation_outcome(
        region_state(store, StorageType::Instance, Domain::Players(player).spec_encode()),
        Phase::Revealing(player).spec_encode(),
    ) {
        Err(e) => Err(e),
        Ok(()) => if store.tier(StorageType::Instance).contains_key(spec_token_key(digest)) {
            Ok(())
        } else {
            Err(InvocationError::CommitmentMissing)
        },
    }
}

/// The tier contents after the effect of a validated reveal for `player`:
/// the player's own region advances to the completed phase under the
/// machine's tier, and the game region advances under the instance tier.
pub open spec fn spec_completed_tier(
    store: Store,
    state_machine: StateMachine,
    player: Player,
    u: StorageType,
) -> Map<StoreKey, StoreVal> {
    let with_completed = if u == state_machine.spec_storage_type() {
        store.tier(u).insert(
            state_machine.key(),
            StoreVal::Variant(Phase::Completed(player).spec_encode()),
        )
    } else {
        store.tier(u)
    };
    if u == StorageType::Instance {
        with_completed.insert(
            StoreKey::Variant(Domain::Game.spec_encode()),
            StoreVal::Variant(spec_game_next(store, player, player.spec_other())),
        )
    } else {
        with_completed
    }
}

/// How the effect hook changes the store for a machine bound to
/// `player`'s region: a committing player advances to the revealing
/// phase, a revealing player advances to the completed phase and the game
/// region advances with it, and any other phase — or no phase at all —
/// leaves the store untouched.
pub open spec fn spec_player_effect(
    s1: Store,
    s2: Store,
    state_machine: StateMachine,
    player: Player,
) -> bool {
    let t = state_machine.spec_storage_type();
    if state_machine.state_of(s1) == Some(Phase::Committing(player).spec_encode()) {
        s2.tier(t) == s1.tier(t).insert(
            state_machine.key(),
            StoreVal::Variant(Phase::Revealing(player).spec_encode()),
        ) && forall|u: StorageType| u != t ==> s2.tier(u) == s1.tier(u)
    } else if state_machine.state_of(s1) == Some(Phase::Revealing(player).spec_encode()) {
        forall|u: StorageType| s2.tier(u) == spec_completed_tier(s1, state_machine, player, u)
    } else {
        s2 == s1
    }
}

/// How the effect hook changes the store: per `spec_player_effect` for a
/// machine bound to a player's region, and not at all for any other
/// machine.
pub open spec fn spec_on_effect(s1: Store, s2: Store, state_machine: StateMachine) -> bool {
    if state_machine.spec_region() == Domain::Players(Player::Alice).spec_encode() {
        spec_player_effect(s1, s2, state_machine, Player::Alice)
    } else if state_machine.spec_region() == Domain::Players(Player::Bob).spec_encode() {
        spec_player_effect(s1, s2, state_machine, Player::Bob)
    } else {
        s2 == s1
    }
}

/// The rock-paper-scissors game.
pub struct RockPaperScissors;

/// The game's hooks: a guard that always passes, and an effect that
/// advances the validated player's phase.  The gated operations below
/// perform the same advancement inline, where its exact outcome is part
/// of their contracts; the hook implementation serves callers that drive
/// the game through the generic transition protocol.
impl TransitionHandler for RockPaperScissors {
    fn on_guard(&self, store: &Store, state_machine: &StateMachine) -> (passed: bool)
        ensures
            passed,
    {
        true
    }

    fn on_effect(&self, store: &mut Store, state_machine: &StateMachine)
        ensures
            spec_on_effect(*old(store), *final(store), *state_machine),
    {
        let region = state_machine.get_region();
        let state = state_machine.get_state(store);
        let player = if region == Domain::Players(Player::Alice).encode() {
            Player::Alice
        } else if region == Domain::Players(Player::Bob).encode() {
            Player::Bob
        } else {
            return ;
        };
        match state {
            Some(current) => {
                if current == Phase::Committing(player).encode() {
                    state_machine.set_state(store, Phase::Revealing(player).encode());
                } else if current == Phase::Revealing(player).encode() {
                    let ghost s1 = *store;
                    state_machine.set_state(store, Phase::Completed(player).encode());
                    let ghost mid = *store;
                    self.end_game_if_completed(store, player, player.other());
                    proof {
                        assert(state_machine.key() != StoreKey::Variant(
                            Domain::Game.spec_encode(),
                        ));
                        assert(spec_game_next(mid, player, player.spec_other()) == spec_game_next(
                            s1,
                            player,
                            player.spec_other(),
                        ));
                        assert(forall|u: StorageType|
                            store.tier(u) == spec_completed_tier(s1, *state_machine, player, u));
                    }
                }
            },
            None => {},
        }
    }
}

impl RockPaperScissors {
    /// Seed `player`'s region with the committing phase.  Seeding is a
    /// direct state write, outside the gated protocol.
    pub fn reset_player(&self, store: &mut Store, player: Player)
        ensures
            final(store).tier(StorageType::Instance) == old(store).tier(
                StorageType::Instance,
            ).insert(
                StoreKey::Variant(Domain::Players(player).spec_encode()),
                StoreVal::Variant(Phase::Committing(player).spec_encode()),
            ),
            forall|u: StorageType|
                u != StorageType::Instance ==> final(store).tier(u) == old(store).tier(u),
    {
        let state_machine = StateMachine::new(
            Domain::Players(player).encode(),
            StorageType::Instance,
        );
        state_machine.set_state(store, Phase::Committing(player).encode());
    }

    /// Advance the game region when `for_player` completes: to the end of
    /// the game if `check_player` had already completed, and otherwise to
    /// a record that `for_player` completed.
    pub fn end_game_if_completed(&self, store: &mut Store, for_player: Player, check_player: Player)
        ensures
            final(store).tier(StorageType::Instance) == old(store).tier(
                StorageType::Instance,
            ).insert(
                StoreKey::Variant(Domain::Game.spec_encode()),
                StoreVal::Variant(spec_game_next(*old(store), for_player, check_player)),
            ),
            forall|u: StorageType|
                u != StorageType::Instance ==> final(store).tier(u) == old(store).tier(u),
    {
        let state_machine = StateMachine::new(Domain::Game.encode(), StorageType::Instance);
        let next = match state_machine.get_state(store) {
            Some(current) => {
                if current == Phase::Completed(check_player).encode() {
                    Phase::End
                } else {
                    Phase::Completed(for_player)
                }
            },
            None => Phase::Completed(for_player),
        };
        state_machine.set_state(store, next.encode());
    }

    /// The commit phase: gated on `player` being in the committing phase,
    /// it stores the move's digest as a one-time token and advances the
    /// player to the revealing phase.  A replay fails — the player is no
    /// longer committing and the token already exists — with no effect on
    /// the store.
    pub fn play(&self, store: &mut Store, player: Player, digest: Digest) -> (r: Result<
        (),
        InvocationError,
    >)
        ensures
            r == spec_play_outcome(*old(store), player, digest),
            r is Err ==> *final(store) == *old(store),
            r is Ok ==> final(store).tier(StorageType::Instance) == old(store).tier(
                StorageType::Instance,
            ).insert(spec_token_key(digest), StoreVal::Sentinel).insert(
                StoreKey::Variant(Domain::Players(player).spec_encode()),
                StoreVal::Variant(Phase::Revealing(player).spec_encode()),
            ),
            r is Ok ==> forall|u: StorageType|
                u != StorageType::Instance ==> final(store).tier(u) == old(store).tier(u),
    {
        let state_machine = StateMachine::new(
            Domain::Players(player).encode(),
            StorageType::Instance,
        );
        if !self.on_guard(store, &state_machine) {
            return Err(InvocationError::GuardRejected);
        }
        match validate_state(store, &state_machine, Phase::Committing(player).encode()) {
            Err(e) => Err(e),
            Ok(()) => {
                match commit(store, StorageType::Instance, digest) {
                    Err(e) => Err(e),
                    Ok(()) => {
                        state_machine.set_state(store, Phase::Revealing(player).encode());
                        Ok(())
                    },
                }
            },
        }
    }

    /// The reveal phase: gated on `player` being in the revealing phase,
    /// it validates and clears the token committed earlier and advances
    /// the player to the completed phase, closing the game if the other
    /// player had already completed.
    pub fn reveal_move(&self, store: &mut Store, player: Player, digest: Digest) -> (r: Result<
        (),
        InvocationError,
    >)
        ensures
            r == spec_reveal_outcome(*old(store), player, digest),
            r is Err ==> *final(store) == *old(store),
            r is Ok ==> final(store).tier(StorageType::Instance) == old(store).tier(
                StorageType::Instance,
            ).remove(spec_token_key(digest)).insert(
                StoreKey::Variant(Domain::Players(player).spec_encode()),
                StoreVal::Variant(Phase::Completed(player).spec_encode()),
            ).insert(
                StoreKey::Variant(Domain::Game.spec_encode()),
                StoreVal::Variant(spec_game_next(*old(store), player, player.spec_other())),
            ),
            r is Ok ==> forall|u: StorageType|
                u != StorageType::Instance ==> final(store).tier(u) == old(store).tier(u),
    {
        let state_machine = StateMachine::new(
            Domain::Players(player).encode(),
            StorageType::Instance,
        );
        if !self.on_guard(store, &state_machine) {
            return Err(InvocationError::GuardRejected);
        }
        match validate_state(store, &state_machine, Phase::Revealing(player).encode()) {
            Err(e) => Err(e),
            Ok(()) => {
                match reveal_commitment(store, StorageType::Instance, digest, true) {
                    Err(e) => Err(e),
                    Ok(()) => {
                        state_machine.set_state(store, Phase::Completed(player).encode());
                        self.end_game_if_completed(store, player, player.other());
                        Ok(())
                    },
                }
            },
        }
    }

    /// The solve phase: gated on the game region having reached the end.
    /// The operation itself writes nothing.
    pub fn solve(&self, store: &mut Store) -> (r: Result<(), InvocationError>)
        ensures
            r == validation_outcome(
                region_state(*old(store), StorageType::Instance, Domain::Game.spec_encode()),
                Phase::End.spec_encode(),
            ),
            *final(store) == *old(store),
    {
        let state_machine = StateMachine::new(Domain::Game.encode(), StorageType::Instance);
        if !self.on_guard(store, &state_machine) {
            return Err(InvocationError::GuardRejected);
        }
        match validate_state(store, &state_machine, Phase::End.encode()) {
            Err(e) => Err(e),
            Ok(()) => Ok(()),
        }
    }
}

} // verus!
