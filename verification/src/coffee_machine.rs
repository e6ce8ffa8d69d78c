//! The coffee machine: a gated state machine with concurrent buyer
//! regions and extended state.
//!
//! The machine as a whole is one region ("all"); each buyer is a region of
//! its own, so two accounts can operate the machine concurrently.  The
//! distribution state carries the selected item as extended state, so the
//! machine only ever hands a buyer the item that buyer selected.

use vstd::prelude::*;

use crate::encoding::Tagged;
use crate::fsm::{
    region_state, validate_state, validation_outcome, InvocationError, StateMachine, StorageType,
    TransitionHandler,
};
use crate::storage::{Store, StoreKey, StoreVal};

verus! {

/// The variant family of [`MachineState`].
pub const MACHINE_STATE_FAMILY: u32 = 9;

/// The variant family of [`MachineRegion`].
pub const MACHINE_REGION_FAMILY: u32 = 10;

/// An item the machine can distribute; it travels as the extended state of
/// the distribution phase.
#[derive(Clone, Copy, Debug, PartialEq, Eq, Structural)]
pub enum Item {
    Americano,
    Cappuccino,
}

impl Item {
    /// The payload word standing for this item.
    pub open spec fn spec_code(self) -> u64 {
        match self {
            Item::Americano => 0,
            Item::Cappuccino => 1,
        }
    }

    /// The payload word standing for this item.
    pub fn code(&self) -> (r: u64)
        ensures
            r == self.spec_code(),
    {
        match self {
            Item::Americano => 0,
            Item::Cappuccino => 1,
        }
    }
}

/// A state of the coffee machine.
#[derive(Clone, Copy, Debug, PartialEq, Eq, Structural)]
pub enum MachineState {
    Refilled,
    Selection,
    Distribution(Item),
}

impl MachineState {
    /// The encoded form of this state.
    pub open spec fn spec_encode(self) -> Tagged {
        match self {
            MachineState::Refilled => Tagged::Plain { family: MACHINE_STATE_FAMILY, tag: 0 },
            MachineState::Selection => Tagged::Plain { family: MACHINE_STATE_FAMILY, tag: 1 },
            MachineState::Distribution(item) => Tagged::Extended {
                family: MACHINE_STATE_FAMILY,
                tag: 2,
                value: item.spec_code(),
            },
        }
    }

    /// Encode this state.
    pub fn encode(&self) -> (r: Tagged)
        ensures
            r == self.spec_encode(),
    {
        match self {
            MachineState::Refilled => Tagged::Plain { family: MACHINE_STATE_FAMILY, tag: 0 },
            MachineState::Selection => Tagged::Plain { family: MACHINE_STATE_FAMILY, tag: 1 },
            MachineState::Distribution(item) => Tagged::Extended {
                family: MACHINE_STATE_FAMILY,
                tag: 2,
                value: item.code(),
            },
        }
    }
}

/// A region of the coffee machine: the machine as a whole, or one buyer's
/// own track, keyed by the buyer's account word.
#[derive(Clone, Copy, Debug, PartialEq, Eq, Structural)]
pub enum MachineRegion {
    All,
    Buyer(u64),
}

impl MachineRegion {
    /// The encoded form of this region.
    pub open spec fn spec_encode(self) -> Tagged {
        match self {
            MachineRegion::All => Tagged::Plain { family: MACHINE_REGION_FAMILY, tag: 0 },
            MachineRegion::Buyer(account) => Tagged::Extended {
                family: MACHINE_REGION_FAMILY,
                tag: 1,
                value: account,
            },
        }
    }

    /// Encode this region.
    pub fn encode(&self) -> (r: Tagged)
        ensures
            r == self.spec_encode(),
    {
        match self {
            MachineRegion::All => Tagged::Plain { family: MACHINE_REGION_FAMILY, tag: 0 },
            MachineRegion::Buyer(account) => Tagged::Extended {
                family: MACHINE_REGION_FAMILY,
                tag: 1,
                value: *account,
            },
        }
    }
}

/// The coffee machine.  Its buyer-facing operations are gated: each runs
/// only when the persisted state of its region equals the declared
/// expected state, and a failed call leaves the store exactly as it was.
pub struct CoffeeMachine;

/// The machine uses the default hooks: a guard that always passes and an
/// effect that writes nothing — its state advancement is in the operation
/// bodies.
impl TransitionHandler for CoffeeMachine {

}

impl CoffeeMachine {
    /// Seed the machine's own region with the refilled state.  Seeding is
    /// a direct state write, outside the gated protocol.
    pub fn refill(&self, store: &mut Store)
        ensures
            final(store).tier(StorageType::Temporary) == old(store).tier(
                StorageType::Temporary,
            ).insert(
                StoreKey::Variant(MachineRegion::All.spec_encode()),
                StoreVal::Variant(MachineState::Refilled.spec_encode()),
            ),
            forall|u: StorageType|
                u != StorageType::Temporary ==> final(store).tier(u) == old(store).tier(u),
    {
        let state_machine = StateMachine::new(MachineRegion::All.encode(), StorageType::Temporary);
        state_machine.set_state(store, MachineState::Refilled.encode());
    }

    /// Write `state` for `account`'s buyer region: the in-body state
    /// advancement of the gated operations.
    pub fn set_state(&self, store: &mut Store, state: MachineState, account: u64)
        ensures
            final(store).tier(StorageType::Temporary) == old(store).tier(
                StorageType::Temporary,
            ).insert(
                StoreKey::Variant(MachineRegion::Buyer(account).spec_encode()),
                StoreVal::Variant(state.spec_encode()),
            ),
            forall|u: StorageType|
                u != StorageType::Temporary ==> final(store).tier(u) == old(store).tier(u),
    {
        let state_machine = StateMachine::new(
            MachineRegion::Buyer(account).encode(),
            StorageType::Temporary,
        );
        state_machine.set_state(store, state.encode());
    }

    /// Gated on the whole machine being refilled; on success `account`'s
    /// buyer region advances to the selection state.  Fails — with no
    /// effect on the store — whenever the machine's region was never
    /// seeded or holds another state.
    pub fn insert_coin(&self, store: &mut Store, account: u64) -> (r: Result<(), InvocationError>)
        ensures
            r == validation_outcome(
                region_state(*old(store), StorageType::Temporary, MachineRegion::All.spec_encode()),
                MachineState::Refilled.spec_encode(),
            ),
            r is Err ==> *final(store) == *old(store),
            r is Ok ==> final(store).tier(StorageType::Temporary) == old(store).tier(
                StorageType::Temporary,
            ).insert(
                StoreKey::Variant(MachineRegion::Buyer(account).spec_encode()),
                StoreVal::Variant(MachineState::Selection.spec_encode()),
            ),
            r is Ok ==> forall|u: StorageType|
                u != StorageType::Temporary ==> final(store).tier(u) == old(store).tier(u),
    {
        let state_machine = StateMachine::new(MachineRegion::All.encode(), StorageType::Temporary);
        if !self.on_guard(store, &state_machine) {
            return Err(InvocationError::GuardRejected);
        }
        match validate_state(store, &state_machine, MachineState::Refilled.encode()) {
            Err(e) => Err(e),
            Ok(()) => {
                self.on_effect(store, &state_machine);
                self.set_state(store, MachineState::Selection, account);
                Ok(())
            },
        }
    }

    /// Gated on `account`'s buyer region being in the selection state; on
    /// success it advances to distributing `item`.
    pub fn select(&self, store: &mut Store, account: u64, item: Item) -> (r: Result<
        (),
        InvocationError,
    >)
        ensures
            r == validation_outcome(
                region_state(
                    *old(store),
                    StorageType::Temporary,
                    MachineRegion::Buyer(account).spec_encode(),
                ),
                MachineState::Selection.spec_encode(),
            ),
            r is Err ==> *final(store) == *old(store),
            r is Ok ==> final(store).tier(StorageType::Temporary) == old(store).tier(
                StorageType::Temporary,
            ).insert(
                StoreKey::Variant(MachineRegion::Buyer(account).spec_encode()),
                StoreVal::Variant(MachineState::Distribution(item).spec_encode()),
            ),
            r is Ok ==> forall|u: StorageType|
                u != StorageType::Temporary ==> final(store).tier(u) == old(store).tier(u),
    {
        let state_machine = StateMachine::new(
            MachineRegion::Buyer(account).encode(),
            StorageType::Temporary,
        );
        if !self.on_guard(store, &state_machine) {
            return Err(InvocationError::GuardRejected);
        }
        match validate_state(store, &state_machine, MachineState::Selection.encode()) {
            Err(e) => Err(e),
            Ok(()) => {
                self.on_effect(store, &state_machine);
                self.set_state(store, MachineState::Distribution(item), account);
                Ok(())
            },
        }
    }

    /// Gated on `account`'s buyer region distributing exactly `item`: the
    /// embedded item of the persisted state must match the one asked for.
    /// The operation itself writes nothing.
    pub fn distribute(&self, store: &mut Store, account: u64, item: Item) -> (r: Result<
        (),
        InvocationError,
    >)
        ensures
            r == validation_outcome(
                region_state(
                    *old(store),
                    StorageType::Temporary,
                    MachineRegion::Buyer(account).spec_encode(),
                ),
                MachineState::Distribution(item).spec_encode(),
            ),
            *final(store) == *old(store),
    {
        let state_machine = StateMachine::new(
            MachineRegion::Buyer(account).encode(),
            StorageType::Temporary,
        );
        if !self.on_guard(store, &state_machine) {
            return Err(InvocationError::GuardRejected);
        }
        match validate_state(store, &state_machine, MachineState::Distribution(item).encode()) {
            Err(e) => Err(e),
            Ok(()) => {
                self.on_effect(store, &state_machine);
                Ok(())
            },
        }
    }
}

} // verus!
