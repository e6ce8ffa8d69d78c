//! End-to-end walkthroughs of the example contract: the coffee machine,
//! the commitment game, the pausable circuit and the typed-data round
//! trip.

use soroban_kit::circuit_breaker::run_gated;
use soroban_kit::coffee_machine::{CoffeeMachine, Item, MachineRegion, MachineState};
use soroban_kit::encoding::Tagged;
use soroban_kit::fsm::{InvocationError, StateMachine, StorageType};
use soroban_kit::hello::HelloContract;
use soroban_kit::storage::{Digest, Store, StoreKey, StoreVal};
use soroban_kit::types::{DataKey, Domain, Phase, Player};

fn digest(seed: u64) -> Digest {
    Digest { w0: seed, w1: seed + 1, w2: seed + 2, w3: seed + 3 }
}

#[test]
fn test_soroban_kit_hello_state_machine() {
    let mut store = Store::new();
    let buyer1: u64 = 1;
    let buyer2: u64 = 2;
    let coffee_machine = CoffeeMachine;

    // Set the initial state to Refilled.
    coffee_machine.refill(&mut store);

    // Regions give each buyer an independent track, so buyers can operate
    // the machine concurrently.
    assert!(coffee_machine.insert_coin(&mut store, buyer1).is_ok());
    assert!(coffee_machine.insert_coin(&mut store, buyer2).is_ok());

    // Extended state tracks the distribution state per item.
    assert!(coffee_machine.select(&mut store, buyer1, Item::Americano).is_ok());
    assert!(coffee_machine.select(&mut store, buyer2, Item::Cappuccino).is_ok());

    // Distributing a Cappuccino to buyer1 must fail: buyer1 selected an
    // Americano.
    let result = coffee_machine.distribute(&mut store, buyer1, Item::Cappuccino);
    assert!(result.is_err(), "Buyer1 selected Americano");

    assert!(coffee_machine.distribute(&mut store, buyer1, Item::Americano).is_ok());
    assert!(coffee_machine.distribute(&mut store, buyer2, Item::Cappuccino).is_ok());
}

#[test]
fn test_soroban_kit_hello_commit_reveal() {
    let mut store = Store::new();

    // Each player prepares their move digest in private.
    let digest_one = digest(100);
    let digest_two = digest(200);

    let contract = HelloContract;

    // The full game: seed both players, commit both, reveal both, solve.
    let result = contract.rock_paper_scissors(&mut store, digest_one, digest_two);
    assert_eq!(result, Ok("Success"));

    // Both players completed and the game ended.
    let alice = StateMachine::new(Domain::Players(Player::Alice).encode(), StorageType::Instance);
    let bob = StateMachine::new(Domain::Players(Player::Bob).encode(), StorageType::Instance);
    let game = StateMachine::new(Domain::Game.encode(), StorageType::Instance);
    assert_eq!(alice.get_state(&store), Some(Phase::Completed(Player::Alice).encode()));
    assert_eq!(bob.get_state(&store), Some(Phase::Completed(Player::Bob).encode()));
    assert_eq!(game.get_state(&store), Some(Phase::End.encode()));

    // Replaying the whole game with the same digests succeeds again: the
    // reveal cleared both tokens.
    let result = contract.rock_paper_scissors(&mut store, digest_one, digest_two);
    assert_eq!(result, Ok("Success"));

    // With both digests equal the second commit must fail.
    let result = contract.rock_paper_scissors(&mut store, digest_one, digest_one);
    assert_eq!(result, Err(InvocationError::CommitmentExists));
}

struct BareCircuit;

impl soroban_kit::fsm::TransitionHandler for BareCircuit {

}

impl BareCircuit {
    fn can_call_when_opened(&self, store: &mut Store, region: Tagged) -> bool {
        run_gated(self, store, region, StorageType::Instance, true).is_ok()
    }

    fn can_call_when_closed(&self, store: &mut Store, region: Tagged) -> bool {
        run_gated(self, store, region, StorageType::Instance, false).is_ok()
    }

    // A trigger declared on the opened gate sets the opposite state.
    fn set_closed(&self, store: &mut Store, region: Tagged) {
        soroban_kit::circuit_breaker::trigger(store, region, StorageType::Instance, false);
    }

    fn set_opened(&self, store: &mut Store, region: Tagged) {
        soroban_kit::circuit_breaker::trigger(store, region, StorageType::Instance, true);
    }
}

#[test]
fn test_soroban_kit_hello_circuit_breaker() {
    let mut store = Store::new();
    let circuit = BareCircuit;
    let default_region = soroban_kit::circuit_breaker::Circuit::Default.encode();

    // The circuit is closed by default: the opened-only call fails.
    assert!(!circuit.can_call_when_opened(&mut store, default_region), "Incorrect state");

    assert!(circuit.can_call_when_closed(&mut store, default_region));
    circuit.set_opened(&mut store, default_region);

    // The circuit is now opened: the closed-only call fails.
    assert!(!circuit.can_call_when_closed(&mut store, default_region), "Incorrect state");

    assert!(circuit.can_call_when_opened(&mut store, default_region));
    circuit.set_closed(&mut store, default_region);

    // The same sequence on a per-account circuit region, which starts
    // closed independently of the default region.
    let addr_region = Tagged::extended(150, 0, 77);

    assert!(!circuit.can_call_when_opened(&mut store, addr_region), "Incorrect state");

    assert!(circuit.can_call_when_closed(&mut store, addr_region));
    circuit.set_opened(&mut store, addr_region);

    assert!(!circuit.can_call_when_closed(&mut store, addr_region), "Incorrect state");

    assert!(circuit.can_call_when_opened(&mut store, addr_region));
    circuit.set_closed(&mut store, addr_region);
}

#[test]
fn test_hello_circuit_breaker_walkthrough() {
    let mut store = Store::new();
    let contract = HelloContract;

    // The circuit starts closed, so the full cycle succeeds.
    assert_eq!(contract.circuit_breaker(&mut store), Ok("Success"));

    // It ends closed again, so the cycle can be run repeatedly.
    assert_eq!(contract.circuit_breaker(&mut store), Ok("Success"));
}

#[test]
fn test_soroban_kit_hello_storage() {
    let mut store = Store::new();
    let contract = HelloContract;
    let key = StoreKey::Variant(DataKey::Newcomer.encode());

    // Nothing set yet: the entry is absent.
    assert!(store.get(StorageType::Instance, key).is_none());

    // Let's set it then.
    let newcomer = u64::from_be_bytes(*b"Fred\0\0\0\0");
    let greeted = contract.hello(&mut store, newcomer);
    assert_eq!(greeted, newcomer);

    // Greetings from storage!
    assert!(store.has(StorageType::Instance, key));
    assert_eq!(store.get(StorageType::Instance, key), Some(StoreVal::Record(newcomer, 0)));
}

#[test]
fn test_hello_circuit_breaker_fails_when_opened() {
    let mut store = Store::new();
    let contract = HelloContract;

    // Open the circuit by hand: the cycle then fails on its first, gated
    // step, and the store is left exactly as it was.
    let activity = soroban_kit::hello::PausableActivity;
    activity.pause(&mut store);
    let snapshot = store.duplicate();
    let result = contract.circuit_breaker(&mut store);
    assert!(matches!(result, Err(InvocationError::StateMismatch { .. })));
    assert_eq!(store, snapshot);
}

#[test]
fn test_hello_game_rejects_replayed_digest() {
    let mut store = Store::new();
    let contract = HelloContract;

    // Commit a token for digest_two up front: the game's first commit
    // then fails.
    let digest_one = digest(300);
    let digest_two = digest(400);
    assert!(
        soroban_kit::commit::commit(&mut store, StorageType::Instance, digest_two).is_ok()
    );
    let snapshot = store.duplicate();
    let result = contract.rock_paper_scissors(&mut store, digest_one, digest_two);
    assert_eq!(result, Err(InvocationError::CommitmentExists));

    // The walkthrough is atomic as a whole: the failed run restored the
    // store, seeding writes included.
    assert_eq!(store, snapshot);
}

#[test]
fn test_coffee_machine_requires_refill_first() {
    let mut store = Store::new();
    let coffee_machine = CoffeeMachine;

    // The machine's region was never seeded: inserting a coin fails with
    // the state-absent error and writes nothing.
    let snapshot = store.duplicate();
    assert_eq!(
        coffee_machine.insert_coin(&mut store, 7),
        Err(InvocationError::StateAbsent)
    );
    assert_eq!(store, snapshot);

    // After a refill the same call succeeds, and the buyer's own region
    // advances to Selection.
    coffee_machine.refill(&mut store);
    assert!(coffee_machine.insert_coin(&mut store, 7).is_ok());
    let buyer = StateMachine::new(MachineRegion::Buyer(7).encode(), StorageType::Temporary);
    assert_eq!(buyer.get_state(&store), Some(MachineState::Selection.encode()));
}
