//! The circuit breaker: a boolean specialisation of the state machine.
//!
//! The state domain is fixed to opened (`true`) and closed (`false`).
//! *Gated* operations strictly validate the persisted state against an
//! expected value; an uninitialized circuit counts as closed the first
//! time a gated operation reads it, and that lazy default is persisted
//! only when the operation goes on to succeed, so a failed call still has
//! no effect on the store.  *Trigger* operations set a circuit state
//! unconditionally, validating nothing; by design they also run no guard
//! or effect hooks, exactly like a direct state write.

use vstd::prelude::*;

use crate::encoding::Tagged;
use crate::fsm::{
    region_state, validation_outcome, InvocationError, StateMachine, StorageType,
    TransitionHandler,
};
use crate::storage::{Store, StoreKey, StoreVal};

verus! {

/// The variant family of the default circuit region.
pub const CIRCUIT_REGION_FAMILY: u32 = 1;

/// The variant family of the two circuit states.
pub const CIRCUIT_STATE_FAMILY: u32 = 2;

/// The default region of a circuit when none is specified: a single
/// well-known tag.  Per-entity circuits use a region with an embedded
/// value instead.
#[derive(Clone, Copy, Debug, PartialEq, Eq, Structural)]
pub enum Circuit {
    Default,
}

impl Circuit {
    /// The encoded form of the default circuit region.
    pub open spec fn spec_encode(self) -> Tagged {
        Tagged::Plain { family: CIRCUIT_REGION_FAMILY, tag: 0 }
    }

    /// Encode the default circuit region.
    pub fn encode(&self) -> (r: Tagged)
        ensures
            r == self.spec_encode(),
    {
        Tagged::Plain { family: CIRCUIT_REGION_FAMILY, tag: 0 }
    }
}

/// The encoded form of a circuit state: opened (`true`) or closed
/// (`false`).
pub open spec fn spec_circuit_state(opened: bool) -> Tagged {
    Tagged::Plain { family: CIRCUIT_STATE_FAMILY, tag: if opened { 1 } else { 0 } }
}

/// Encode a circuit state.
pub fn circuit_state(opened: bool) -> (r: Tagged)
    ensures
        r == spec_circuit_state(opened),
{
    Tagged::Plain { family: CIRCUIT_STATE_FAMILY, tag: if opened { 1 } else { 0 } }
}

/// The state a gated operation sees for a circuit region: the persisted
/// state if one was ever set, and otherwise closed, the lazy default of an
/// uninitialized circuit.
pub open spec fn effective_circuit_state(
    store: Store,
    storage_type: StorageType,
    region: Tagged,
) -> Tagged {
    match region_state(store, storage_type, region) {
        Some(state) => state,
        None => spec_circuit_state(false),
    }
}

/// What a gated operation expecting the circuit opened (`true`) or closed
/// (`false`) yields on a given store.
pub open spec fn gated_outcome(
    store: Store,
    storage_type: StorageType,
    region: Tagged,
    opened: bool,
) -> Result<(), InvocationError> {
    validation_outcome(
        Some(effective_circuit_state(store, storage_type, region)),
        spec_circuit_state(opened),
    )
}

/// A trigger operation: unconditionally set the circuit for `region` to
/// opened (`true`) or closed (`false`).  It validates no prior state — it
/// always succeeds, whatever was persisted — and, by design, runs no guard
/// or effect hooks on either the default-region or the parameterized-region
/// path: a trigger is exactly a direct state write.
pub fn trigger(store: &mut Store, region: Tagged, storage_type: StorageType, opened: bool)
    ensures
        final(store).tier(storage_type) == old(store).tier(storage_type).insert(
            StoreKey::Variant(region),
            StoreVal::Variant(spec_circuit_state(opened)),
        ),
        forall|u: StorageType| u != storage_type ==> final(store).tier(u) == old(store).tier(u),
        region_state(*final(store), storage_type, region) == Some(spec_circuit_state(opened)),
{
    let state_machine = StateMachine::new(region, storage_type);
    state_machine.set_state(store, circuit_state(opened));
}

/// The validation step of a gated circuit operation: compare the circuit's
/// effective state with the expected one, persisting the lazy closed
/// default only when the comparison succeeds.  On failure the store is
/// exactly as it was.
pub fn gated_check(store: &mut Store, region: Tagged, storage_type: StorageType, opened: bool) -> (r:
    Result<(), InvocationError>)
    ensures
        r == gated_outcome(*old(store), storage_type, region, opened),
        r is Err ==> *final(store) == *old(store),
        r is Ok ==> final(store).tier(storage_type) == old(store).tier(storage_type).insert(
            StoreKey::Variant(region),
            StoreVal::Variant(spec_circuit_state(opened)),
        ),
        r is Ok ==> forall|u: StorageType|
            u != storage_type ==> final(store).tier(u) == old(store).tier(u),
{
    let state_machine = StateMachine::new(region, storage_type);
    let expected = circuit_state(opened);
    let current = match state_machine.get_state(store) {
        Some(state) => state,
        None => circuit_state(false),
    };
    if current == expected {
        // Persisting the state here both seeds an uninitialized circuit
        // with its default and leaves an initialized one unchanged in
        // contents.
        state_machine.set_state(store, expected);
        Ok(())
    } else {
        Err(InvocationError::StateMismatch { current, expected })
    }
}

/// A gated circuit operation: guard hook, then validation against the
/// expected state with the lazy closed default, then — only on success —
/// the effect hook.  On any failure the store is exactly as it was before
/// the call.  The guard-rejected error is returned only when the guard
/// hook's own contract admits a false verdict for a machine bound to this
/// region and tier, so a handler whose guard provably passes yields
/// exactly the gated outcome.
pub fn run_gated<T: TransitionHandler>(
    handler: &T,
    store: &mut Store,
    region: Tagged,
    storage_type: StorageType,
    opened: bool,
) -> (r: Result<(), InvocationError>)
    ensures
        r is Err ==> *final(store) == *old(store),
        r != Err::<(), InvocationError>(InvocationError::GuardRejected) ==> r == gated_outcome(
            *old(store),
            storage_type,
            region,
            opened,
        ),
        r is Ok ==> effective_circuit_state(*old(store), storage_type, region)
            == spec_circuit_state(opened),
        r == Err::<(), InvocationError>(InvocationError::GuardRejected) ==> exists|m: StateMachine|
            m.spec_region() == region && m.spec_storage_type() == storage_type && call_ensures(
                T::on_guard,
                (handler, &*old(store), &m),
                false,
            ),
{
    let state_machine = StateMachine::new(region, storage_type);
    if !handler.on_guard(store, &state_machine) {
        return Err(InvocationError::GuardRejected);
    }
    match gated_check(store, region, storage_type, opened) {
        Err(e) => Err(e),
        Ok(()) => {
            handler.on_effect(store, &state_machine);
            Ok(())
        },
    }
}

/// Idempotent trigger: invoking a trigger twice in a row, with no gated
/// read in between, leaves the same persisted contents as invoking it
/// once.  `s1` is `s0` after one trigger and `s2` is `s1` after the same
/// trigger again, exactly as `trigger` describes them.
pub proof fn lemma_trigger_idempotent(
    s0: Store,
    s1: Store,
    s2: Store,
    region: Tagged,
    storage_type: StorageType,
    opened: bool,
)
    requires
        s1.tier(storage_type) == s0.tier(storage_type).insert(
            StoreKey::Variant(region),
            StoreVal::Variant(spec_circuit_state(opened)),
        ),
        forall|u: StorageType| u != storage_type ==> s1.tier(u) == s0.tier(u),
        s2.tier(storage_type) == s1.tier(storage_type).insert(
            StoreKey::Variant(region),
            StoreVal::Variant(spec_circuit_state(opened)),
        ),
        forall|u: StorageType| u != storage_type ==> s2.tier(u) == s1.tier(u),
    ensures
        forall|u: StorageType| s2.tier(u) == s1.tier(u),
{
    assert forall|u: StorageType| s2.tier(u) == s1.tier(u) by {
        if u == storage_type {
            assert(s2.tier(u) =~= s1.tier(u));
        }
    }
}

/// Gate correctness: a circuit that is closed — or was never initialized,
/// which counts as closed — rejects an operation gated on the opened
/// state; after a trigger opens the circuit, the same operation succeeds.
/// `s2` is `s1` after a trigger to opened, exactly as `trigger` describes
/// it.
pub proof fn lemma_gate_correctness(
    s1: Store,
    s2: Store,
    region: Tagged,
    storage_type: StorageType,
)
    requires
        effective_circuit_state(s1, storage_type, region) == spec_circuit_state(false),
        s2.tier(storage_type) == s1.tier(storage_type).insert(
            StoreKey::Variant(region),
            StoreVal::Variant(spec_circuit_state(true)),
        ),
        forall|u: StorageType| u != storage_type ==> s2.tier(u) == s1.tier(u),
    ensures
        gated_outcome(s1, storage_type, region, true) is Err,
        gated_outcome(s2, storage_type, region, true) is Ok,
{
}

} // verus!
