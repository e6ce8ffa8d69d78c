//! Example contract built on the engine: a pausable activity guarded by a
//! circuit breaker, the rock-paper-scissors commitment game, and a small
//! typed-data round trip.

use vstd::prelude::*;

use crate::circuit_breaker::{gated_check, gated_outcome, spec_circuit_state};
use crate::commit::spec_token_key;
use crate::encoding::Tagged;
use crate::fsm::{region_state, InvocationError, StateMachine, StorageType, TransitionHandler};
use crate::rock_paper_scissors::RockPaperScissors;
use crate::storage::{Digest, Store, StoreKey, StoreVal};
use crate::types::{DataKey, Domain, Phase, Player, Region};

verus! {

/// A pausable activity: its operations are gated on a circuit kept in the
/// activity's own circuit region, under the instance tier.
pub struct PausableActivity;

/// The activity uses the default hooks: a guard that always passes — the
/// place where an authorization or time check would go — and an effect
/// that writes nothing.
impl TransitionHandler for PausableActivity {

}

impl PausableActivity {
    /// The encoded circuit region of the activity.
    pub open spec fn spec_region(self) -> Tagged {
        Region::Circuit.spec_encode()
    }

    /// Callable only while the circuit is opened (the activity is paused).
    pub fn can_call_when_paused(&self, store: &mut Store) -> (r: Result<(), InvocationError>)
        ensures
            r == gated_outcome(*old(store), StorageType::Instance, self.spec_region(), true),
            r is Err ==> *final(store) == *old(store),
            r is Ok ==> final(store).tier(StorageType::Instance) == old(store).tier(
                StorageType::Instance,
            ).insert(
                StoreKey::Variant(self.spec_region()),
                StoreVal::Variant(spec_circuit_state(true)),
            ),
            r is Ok ==> forall|u: StorageType|
                u != StorageType::Instance ==> final(store).tier(u) == old(store).tier(u),
    {
        let state_machine = StateMachine::new(Region::Circuit.encode(), StorageType::Instance);
        if !self.on_guard(store, &state_machine) {
            return Err(InvocationError::GuardRejected);
        }
        match gated_check(store, Region::Circuit.encode(), StorageType::Instance, true) {
            Err(e) => Err(e),
            Ok(()) => {
                self.on_effect(store, &state_machine);
                Ok(())
            },
        }
    }

    /// Callable only while the circuit is closed (the activity runs);
    /// an uninitialized circuit counts as closed.
    pub fn can_call_when_unpaused(&self, store: &mut Store) -> (r: Result<(), InvocationError>)
        ensures
            r == gated_outcome(*old(store), StorageType::Instance, self.spec_region(), false),
            r is Err ==> *final(store) == *old(store),
            r is Ok ==> final(store).tier(StorageType::Instance) == old(store).tier(
                StorageType::Instance,
            ).insert(
                StoreKey::Variant(self.spec_region()),
                StoreVal::Variant(spec_circuit_state(false)),
            ),
            r is Ok ==> forall|u: StorageType|
                u != StorageType::Instance ==> final(store).tier(u) == old(store).tier(u),
    {
        let state_machine = StateMachine::new(Region::Circuit.encode(), StorageType::Instance);
        if !self.on_guard(store, &state_machine) {
            return Err(InvocationError::GuardRejected);
        }
        match gated_check(store, Region::Circuit.encode(), StorageType::Instance, false) {
            Err(e) => Err(e),
            Ok(()) => {
                self.on_effect(store, &state_machine);
                Ok(())
            },
        }
    }

    /// Trigger: open the circuit, pausing the activity.  Always succeeds.
    pub fn pause(&self, store: &mut Store)
        ensures
            final(store).tier(StorageType::Instance) == old(store).tier(
                StorageType::Instance,
            ).insert(
                StoreKey::Variant(self.spec_region()),
                StoreVal::Variant(spec_circuit_state(true)),
            ),
            forall|u: StorageType|
                u != StorageType::Instance ==> final(store).tier(u) == old(store).tier(u),
    {
        crate::circuit_breaker::trigger(store, Region::Circuit.encode(), StorageType::Instance, true);
    }

    /// Trigger: close the circuit, resuming the activity.  Always
    /// succeeds.
    pub fn unpause(&self, store: &mut Store)
        ensures
            final(store).tier(StorageType::Instance) == old(store).tier(
                StorageType::Instance,
            ).insert(
                StoreKey::Variant(self.spec_region()),
                StoreVal::Variant(spec_circuit_state(false)),
            ),
            forall|u: StorageType|
                u != StorageType::Instance ==> final(store).tier(u) == old(store).tier(u),
    {
        crate::circuit_breaker::trigger(store, Region::Circuit.encode(), StorageType::Instance, false);
    }
}

/// What the pausable-activity walkthrough yields: it succeeds exactly
/// when the circuit starts out closed (or was never initialized, which
/// counts as closed).
pub open spec fn spec_hello_circuit_outcome(store: Store) -> Result<(), InvocationError> {
    gated_outcome(store, StorageType::Instance, Region::Circuit.spec_encode(), false)
}

/// What the rock-paper-scissors walkthrough yields: it succeeds exactly
/// when neither digest was already committed, the two digests differ, and
/// the game region does not start out recording that the second player
/// completed.
pub open spec fn spec_hello_game_outcome(
    store: Store,
    digest_one: Digest,
    digest_two: Digest,
) -> Result<(), InvocationError> {
    if store.tier(StorageType::Instance).contains_key(spec_token_key(digest_two)) {
        Err(InvocationError::CommitmentExists)
    } else if store.tier(StorageType::Instance).contains_key(spec_token_key(digest_one))
        || digest_one == digest_two {
        Err(InvocationError::CommitmentExists)
    } else if region_state(store, StorageType::Instance, Domain::Game.spec_encode()) == Some(
        Phase::Completed(Player::Bob).spec_encode(),
    ) {
        Err(
            InvocationError::StateMismatch {
                current: Phase::Completed(Player::Bob).spec_encode(),
                expected: Phase::End.spec_encode(),
            },
        )
    } else {
        Ok(())
    }
}

/// The example contract: walkthroughs of the circuit breaker and of the
/// commitment game, and a typed-data round trip.
pub struct HelloContract;

impl HelloContract {
    /// Walk the pausable activity through a full cycle: run it, pause it,
    /// run the paused-only operation, unpause it.  The walkthrough is a
    /// sequence of separate invocations: each is atomic on its own, and
    /// only the first can fail, so a failed walkthrough leaves the store
    /// unchanged.
    pub fn circuit_breaker(&self, store: &mut Store) -> (r: Result<&'static str, InvocationError>)
        ensures
            r is Ok <==> spec_hello_circuit_outcome(*old(store)) is Ok,
            r is Err ==> Err::<(), InvocationError>(r->Err_0) == spec_hello_circuit_outcome(
                *old(store),
            ) && *final(store) == *old(store),
            r is Ok ==> final(store).tier(StorageType::Instance) == old(store).tier(
                StorageType::Instance,
            ).insert(
                StoreKey::Variant(Region::Circuit.spec_encode()),
                StoreVal::Variant(spec_circuit_state(false)),
            ),
            r is Ok ==> forall|u: StorageType|
                u != StorageType::Instance ==> final(store).tier(u) == old(store).tier(u),
    {
        let activity = PausableActivity;
        match activity.can_call_when_unpaused(store) {
            Err(e) => Err(e),
            Ok(()) => {
                activity.pause(store);
                let paused = activity.can_call_when_paused(store);
                match paused {
                    Err(e) => Err(e),
                    Ok(()) => {
                        activity.unpause(store);
                        proof {
                            assert(final(store).tier(StorageType::Instance) =~= old(store).tier(
                                StorageType::Instance,
                            ).insert(
                                StoreKey::Variant(Region::Circuit.spec_encode()),
                                StoreVal::Variant(spec_circuit_state(false)),
                            ));
                        }
                        Ok("Success")
                    },
                }
            },
        }
    }

    /// Walk the commitment game to its end: seed both players, commit
    /// both digests, reveal both, and solve.  The walkthrough is atomic
    /// as a whole, like a single host invocation: when any step fails,
    /// the store is restored, so a failed walkthrough leaves every tier's
    /// contents exactly as they were.
    pub fn rock_paper_scissors(
        &self,
        store: &mut Store,
        digest_one: Digest,
        digest_two: Digest,
    ) -> (r: Result<&'static str, InvocationError>)
        ensures
            r is Ok <==> spec_hello_game_outcome(*old(store), digest_one, digest_two) is Ok,
            r is Err ==> Err::<(), InvocationError>(r->Err_0) == spec_hello_game_outcome(
                *old(store),
                digest_one,
                digest_two,
            ),
            r is Err ==> forall|u: StorageType| final(store).tier(u) == old(store).tier(u),
            r is Ok ==> final(store).tier(StorageType::Instance) == old(store).tier(
                StorageType::Instance,
            ).insert(
                StoreKey::Variant(Domain::Players(Player::Alice).spec_encode()),
                StoreVal::Variant(Phase::Completed(Player::Alice).spec_encode()),
            ).insert(
                StoreKey::Variant(Domain::Players(Player::Bob).spec_encode()),
                StoreVal::Variant(Phase::Completed(Player::Bob).spec_encode()),
            ).insert(
                StoreKey::Variant(Domain::Game.spec_encode()),
                StoreVal::Variant(Phase::End.spec_encode()),
            ).remove(spec_token_key(digest_one)).remove(spec_token_key(digest_two)),
            r is Ok ==> forall|u: StorageType|
                u != StorageType::Instance ==> final(store).tier(u) == old(store).tier(u),
    {
        let snapshot = store.duplicate();
        let game = RockPaperScissors;
        game.reset_player(store, Player::Alice);
        game.reset_player(store, Player::Bob);
        match game.play(store, Player::Bob, digest_two) {
            Err(e) => {
                *store = snapshot;
                return Err(e);
            },
            Ok(()) => {},
        }
        match game.play(store, Player::Alice, digest_one) {
            Err(e) => {
                *store = snapshot;
                return Err(e);
            },
            Ok(()) => {},
        }
        let revealed_one = game.reveal_move(store, Player::Alice, digest_one);
        match revealed_one {
            Err(e) => {
                *store = snapshot;
                return Err(e);
            },
            Ok(()) => {},
        }
        let revealed_two = game.reveal_move(store, Player::Bob, digest_two);
        match revealed_two {
            Err(e) => {
                *store = snapshot;
                return Err(e);
            },
            Ok(()) => {},
        }
        match game.solve(store) {
            Err(e) => {
                *store = snapshot;
                Err(e)
            },
            Ok(()) => Ok("Success"),
        }
    }

    /// Store the newcomer's word under its key and read it back.
    pub fn hello(&self, store: &mut Store, newcomer: u64) -> (r: u64)
        ensures
            r == newcomer,
            final(store).tier(StorageType::Instance) == old(store).tier(
                StorageType::Instance,
            ).insert(
                StoreKey::Variant(DataKey::Newcomer.spec_encode()),
                StoreVal::Record(newcomer, 0),
            ),
            forall|u: StorageType|
                u != StorageType::Instance ==> final(store).tier(u) == old(store).tier(u),
    {
        let key = StoreKey::Variant(DataKey::Newcomer.encode());
        store.set(StorageType::Instance, key, StoreVal::Record(newcomer, 0));
        match store.get(StorageType::Instance, key) {
            Some(StoreVal::Record(stored, _)) => stored,
            _ => newcomer,
        }
    }
}

} // verus!
