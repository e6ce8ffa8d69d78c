//! The state machine engine and the transition protocol.
//!
//! A [`StateMachine`] binds a *region* — the identity of one concurrent
//! state track — to a storage tier, and reads or writes the state value
//! persisted for that region.  The engine itself is a plain accessor: what
//! counts as a legal move lives one layer up, in the transition protocol,
//! so the same primitives serve state seeding and resets as well as gated
//! transitions.
//!
//! The protocol around a gated operation is guard, then validate, then
//! effect: the guard hook runs first, the persisted state is compared with
//! the declared expected state, and only after a successful comparison does
//! the effect hook run.  Every failure aborts the invocation before any
//! write, so a failed invocation leaves the store exactly as it was.

use vstd::prelude::*;

use crate::encoding::Tagged;
use crate::storage::{lookup, Store, StoreKey, StoreVal};

verus! {

/// One of the three persistence lifetimes a state entry can be stored under.
///
/// Tier selection is a design choice per state-machine declaration; it is
/// not switched at run time for a given region binding.
#[derive(Clone, Copy, Debug, PartialEq, Eq, Structural)]
pub enum StorageType {
    /// Tied to the lifetime of the owning contract instance.
    Instance,
    /// Survives indefinitely; its lifetime may be explicitly extended.
    Persistent,
    /// Cleared after a bounded window.
    Temporary,
}

/// The variant family of the default region.
pub const DEFAULT_REGION_FAMILY: u32 = 0;

/// The default region when a state machine names none: a single well-known
/// tag rather than implicit global state.
#[derive(Clone, Copy, Debug, PartialEq, Eq, Structural)]
pub enum StateMachineRegion {
    Default,
}

impl StateMachineRegion {
    /// The encoded form of the default region.
    pub open spec fn spec_encode(self) -> Tagged {
        Tagged::Plain { family: DEFAULT_REGION_FAMILY, tag: 0 }
    }

    /// Encode the default region.
    pub fn encode(&self) -> (r: Tagged)
        ensures
            r == self.spec_encode(),
    {
        Tagged::Plain { family: DEFAULT_REGION_FAMILY, tag: 0 }
    }
}

/// The state persisted for `region` under tier `storage_type` in `store`,
/// if any.  Absence of an entry means "uninitialized", a condition
/// distinct from every defined state.
pub open spec fn region_state(store: Store, storage_type: StorageType, region: Tagged) -> Option<
    Tagged,
> {
    match lookup(store.tier(storage_type), StoreKey::Variant(region)) {
        Some(StoreVal::Variant(state)) => Some(state),
        _ => None,
    }
}

/// A failure of the current invocation.  Every variant is fatal: there is
/// no retry and no soft-error path, and a failed invocation has no partial
/// effect on the store.
#[derive(Clone, Copy, Debug, PartialEq, Eq, Structural)]
pub enum InvocationError {
    /// The guard hook signalled an unmet precondition, before any state was
    /// read.
    GuardRejected,
    /// A gated operation ran before any state was ever seeded for its
    /// region.
    StateAbsent,
    /// The persisted state differs from the declared expected state; both
    /// are reported for diagnosability.
    StateMismatch { current: Tagged, expected: Tagged },
    /// A commitment token for this digest already exists.
    CommitmentExists,
    /// No commitment token for this digest exists.
    CommitmentMissing,
}

/// An ephemeral binding of a region to a storage tier.  It is created fresh
/// for one operation, owned by that operation's call stack, and never
/// itself persisted — only the state it reads and writes is.
#[derive(Clone, Copy, Debug)]
pub struct StateMachine {
    region: Tagged,
    storage_type: StorageType,
}

impl StateMachine {
    /// The region this machine is bound to.
    pub closed spec fn spec_region(self) -> Tagged {
        self.region
    }

    /// The storage tier this machine is bound to.
    pub closed spec fn spec_storage_type(self) -> StorageType {
        self.storage_type
    }

    /// The store key this machine's state is persisted under: the encoded
    /// region.
    pub open spec fn key(self) -> StoreKey {
        StoreKey::Variant(self.spec_region())
    }

    /// The state persisted for this machine's region in `store`, if any.
    /// Absence of an entry means "uninitialized", a condition distinct from
    /// every defined state.
    pub open spec fn state_of(self, store: Store) -> Option<Tagged> {
        region_state(store, self.spec_storage_type(), self.spec_region())
    }

    /// Bind `region` to `storage_type`.  Pure construction: no store access.
    pub fn new(region: Tagged, storage_type: StorageType) -> (r: Self)
        ensures
            r.spec_region() == region,
            r.spec_storage_type() == storage_type,
    {
        StateMachine { region, storage_type }
    }

    /// The region this machine is bound to.
    pub fn get_region(&self) -> (r: Tagged)
        ensures
            r == self.spec_region(),
    {
        self.region
    }

    /// The storage tier this machine is bound to.
    pub fn get_storage_type(&self) -> (r: StorageType)
        ensures
            r == self.spec_storage_type(),
    {
        self.storage_type
    }

    /// Read the persisted state for this machine's region.
    pub fn get_state(&self, store: &Store) -> (r: Option<Tagged>)
        ensures
            r == self.state_of(*store),
    {
        match store.get(self.storage_type, StoreKey::Variant(self.region)) {
            Some(StoreVal::Variant(state)) => Some(state),
            _ => None,
        }
    }

    /// Write `value` as the persisted state for this machine's region,
    /// unconditionally: checking the prior state is the transition
    /// protocol's job, not the engine's.  No other key and no other tier is
    /// touched.
    pub fn set_state(&self, store: &mut Store, value: Tagged)
        ensures
            final(store).tier(self.spec_storage_type()) == old(store).tier(
                self.spec_storage_type(),
            ).insert(self.key(), StoreVal::Variant(value)),
            forall|u: StorageType|
                u != self.spec_storage_type() ==> final(store).tier(u) == old(store).tier(u),
            self.state_of(*final(store)) == Some(value),
    {
        store.set(self.storage_type, StoreKey::Variant(self.region), StoreVal::Variant(value));
    }

    /// Delete the persisted state for this machine's region, returning it
    /// to the uninitialized condition.  No other key and no other tier is
    /// touched.
    pub fn remove_state(&self, store: &mut Store)
        ensures
            final(store).tier(self.spec_storage_type()) == old(store).tier(
                self.spec_storage_type(),
            ).remove(self.key()),
            forall|u: StorageType|
                u != self.spec_storage_type() ==> final(store).tier(u) == old(store).tier(u),
            self.state_of(*final(store)) == None::<Tagged>,
    {
        store.remove(self.storage_type, StoreKey::Variant(self.region));
    }
}

/// Hooks around a state transition, implemented per state-machine owner.
///
/// The defaults are a guard that always passes and an effect that leaves
/// the store untouched.
pub trait TransitionHandler {
    /// Called immediately before state validation.  The guard only reads
    /// the store, so a rejected guard cannot leave a partial effect; it
    /// reports an unmet precondition by returning `false`, which aborts the
    /// invocation.
    fn on_guard(&self, store: &Store, state_machine: &StateMachine) -> (passed: bool)
        default_ensures
            passed,
    {
        true
    }

    /// Called immediately after state validation, and only if validation
    /// succeeded.  This is where state advancement for this or other
    /// regions is typically performed.
    fn on_effect(&self, store: &mut Store, state_machine: &StateMachine)
        default_ensures
            *final(store) == *old(store),
    {
    }
}

/// What comparing the persisted state `current` with the declared
/// `expected` state yields: absence is a failure distinct from any defined
/// state, a differing state reports both values, and only equality lets
/// the operation proceed.
pub open spec fn validation_outcome(current: Option<Tagged>, expected: Tagged) -> Result<
    (),
    InvocationError,
> {
    match current {
        None => Err(InvocationError::StateAbsent),
        Some(c) => if c == expected {
            Ok(())
        } else {
            Err(InvocationError::StateMismatch { current: c, expected })
        },
    }
}

/// Compare the state persisted for the machine's region with the declared
/// expected state.  Reads only; the store is never changed.
pub fn validate_state(store: &Store, state_machine: &StateMachine, expected: Tagged) -> (r: Result<
    (),
    InvocationError,
>)
    ensures
        r == validation_outcome(state_machine.state_of(*store), expected),
{
    match state_machine.get_state(store) {
        None => Err(InvocationError::StateAbsent),
        Some(current) => {
            if current == expected {
                Ok(())
            } else {
                Err(InvocationError::StateMismatch { current, expected })
            }
        },
    }
}

/// Run the transition protocol around a gated operation: guard, then state
/// validation, then — only on success — the effect hook.  On success the
/// store holds whatever the effect hook wrote; on any failure the store is
/// exactly as it was before the call, so a failed invocation has no
/// partial effect.  The guard-rejected error is returned only when the
/// guard hook's own contract admits a false verdict, so a handler whose
/// guard provably passes yields exactly the validation outcome.
pub fn run_transition<T: TransitionHandler>(
    handler: &T,
    store: &mut Store,
    state_machine: &StateMachine,
    expected: Tagged,
) -> (r: Result<(), InvocationError>)
    ensures
        r is Err ==> *final(store) == *old(store),
        r is Ok ==> state_machine.state_of(*old(store)) == Some(expected),
        r != Err::<(), InvocationError>(InvocationError::GuardRejected) ==> r == validation_outcome(
            state_machine.state_of(*old(store)),
            expected,
        ),
        r == Err::<(), InvocationError>(InvocationError::GuardRejected) ==> call_ensures(
            T::on_guard,
            (handler, &*old(store), state_machine),
            false,
        ),
{
    if !handler.on_guard(store, state_machine) {
        return Err(InvocationError::GuardRejected);
    }
    match validate_state(store, state_machine, expected) {
        Err(e) => Err(e),
        Ok(()) => {
            handler.on_effect(store, state_machine);
            Ok(())
        },
    }
}

/// Region isolation: advancing one region's state never alters another
/// region's persisted state, for any two distinct regions sharing a tier.
/// `s2` is `s1` after a write of `value` for `a`'s region, exactly as
/// `set_state` describes it; `b`'s state is the same in both stores.
pub proof fn lemma_region_isolation(
    s1: Store,
    s2: Store,
    a: StateMachine,
    b: StateMachine,
    value: Tagged,
)
    requires
        a.spec_storage_type() == b.spec_storage_type(),
        a.spec_region() != b.spec_region(),
        s2.tier(a.spec_storage_type()) == s1.tier(a.spec_storage_type()).insert(
            a.key(),
            StoreVal::Variant(value),
        ),
        forall|u: StorageType| u != a.spec_storage_type() ==> s2.tier(u) == s1.tier(u),
    ensures
        b.state_of(s2) == b.state_of(s1),
{
    assert(a.key() != b.key());
}

/// Validation is local to the operation's own region: two stores that
/// agree on the entry persisted for the machine's region yield the same
/// validation outcome, whatever their other entries hold.
pub proof fn lemma_validation_is_region_local(
    s1: Store,
    s2: Store,
    state_machine: StateMachine,
    expected: Tagged,
)
    requires
        lookup(s1.tier(state_machine.spec_storage_type()), state_machine.key()) == lookup(
            s2.tier(state_machine.spec_storage_type()),
            state_machine.key(),
        ),
    ensures
        validation_outcome(state_machine.state_of(s1), expected) == validation_outcome(
            state_machine.state_of(s2),
            expected,
        ),
{
}

/// Extended-state disambiguation: two regions with the same family and tag
/// but different embedded values are tracked independently — writing a
/// state for one does not change what validation of the other returns.
pub proof fn lemma_extended_state_disambiguation(
    s1: Store,
    s2: Store,
    a: StateMachine,
    b: StateMachine,
    value: Tagged,
    expected: Tagged,
)
    requires
        a.spec_storage_type() == b.spec_storage_type(),
        a.spec_region().family() == b.spec_region().family(),
        a.spec_region().tag() == b.spec_region().tag(),
        a.spec_region().value() != b.spec_region().value(),
        s2.tier(a.spec_storage_type()) == s1.tier(a.spec_storage_type()).insert(
            a.key(),
            StoreVal::Variant(value),
        ),
        forall|u: StorageType| u != a.spec_storage_type() ==> s2.tier(u) == s1.tier(u),
    ensures
        validation_outcome(b.state_of(s2), expected) == validation_outcome(b.state_of(s1), expected),
{
    crate::encoding::lemma_extended_values_distinguish(a.spec_region(), b.spec_region());
    lemma_region_isolation(s1, s2, a, b, value);
}

} // verus!
