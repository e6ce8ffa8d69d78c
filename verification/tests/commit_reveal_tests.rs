//! A polling station: the commitment scheme composed with gated
//! transitions, driven through the generic protocol with a handler of its
//! own, so multiple voters can commit and reveal in any order.

use soroban_kit::commit::{commit, reveal_commitment};
use soroban_kit::encoding::Tagged;
use soroban_kit::fsm::{
    run_transition, InvocationError, StateMachine, StorageType, TransitionHandler,
};
use soroban_kit::storage::{Digest, Store, StoreKey, StoreVal};

const BOOTH_FAMILY: u32 = 130;
const POLL_PHASE_FAMILY: u32 = 131;
const REVEALED_VOTE_FAMILY: u32 = 132;

const VOTERS: [u64; 3] = [0, 1, 2];

fn booth(voter: u64) -> Tagged {
    Tagged::extended(BOOTH_FAMILY, 0, voter)
}

fn station() -> Tagged {
    Tagged::plain(BOOTH_FAMILY, 1)
}

fn phase_committing(voter: u64) -> Tagged {
    Tagged::extended(POLL_PHASE_FAMILY, 1, voter)
}

fn phase_revealing(voter: u64) -> Tagged {
    Tagged::extended(POLL_PHASE_FAMILY, 2, voter)
}

fn phase_completed(voter: u64) -> Tagged {
    Tagged::extended(POLL_PHASE_FAMILY, 3, voter)
}

fn phase_closed() -> Tagged {
    Tagged::plain(POLL_PHASE_FAMILY, 4)
}

fn revealed_vote_key(voter: u64) -> StoreKey {
    StoreKey::Variant(Tagged::extended(REVEALED_VOTE_FAMILY, 0, voter))
}

struct Ballot {
    voter: u64,
    data: u64,
    salt: u64,
    hash: Digest,
}

impl Ballot {
    // Each voter prepares their vote in private; the digest stands for
    // the hash of the vote data and the salt, computed by the hashing
    // collaborator.
    fn simulate_secret_vote(voter: u64, vote_value: u64) -> Ballot {
        let salt = voter + 1000;
        Ballot { voter, data: vote_value, salt, hash: Digest { w0: vote_value, w1: salt, w2: 0, w3: 0 } }
    }
}

struct PollingStation;

impl TransitionHandler for PollingStation {
    fn on_effect(&self, store: &mut Store, state_machine: &StateMachine) {
        let region = state_machine.get_region();
        for voter in VOTERS {
            if region == booth(voter) {
                match state_machine.get_state(store) {
                    Some(phase) => {
                        if phase == phase_committing(voter) {
                            // Voted: transition to the revealing phase.
                            state_machine.set_state(store, phase_revealing(voter));
                        } else if phase == phase_revealing(voter) {
                            // Revealed: transition to the completed phase.
                            state_machine.set_state(store, phase_completed(voter));
                            // Close the polling station if all voted.
                            let all_voted = VOTERS.iter().all(|v| {
                                let sm = StateMachine::new(booth(*v), StorageType::Instance);
                                sm.get_state(store) == Some(phase_completed(*v))
                            });
                            if all_voted {
                                let sm = StateMachine::new(station(), StorageType::Instance);
                                sm.set_state(store, phase_closed());
                            }
                        }
                    },
                    None => {},
                }
            }
        }
    }
}

impl PollingStation {
    fn register_voter(&self, store: &mut Store, voter: u64) {
        let state_machine = StateMachine::new(booth(voter), StorageType::Instance);
        state_machine.set_state(store, phase_committing(voter));
    }

    fn vote(&self, store: &mut Store, voter: u64, hash: Digest) -> Result<(), InvocationError> {
        let state_machine = StateMachine::new(booth(voter), StorageType::Instance);
        run_transition(self, store, &state_machine, phase_committing(voter))?;
        commit(store, StorageType::Instance, hash)
    }

    fn reveal_vote(
        &self,
        store: &mut Store,
        voter: u64,
        data: u64,
        hash: Digest,
    ) -> Result<(), InvocationError> {
        let state_machine = StateMachine::new(booth(voter), StorageType::Instance);
        run_transition(self, store, &state_machine, phase_revealing(voter))?;
        reveal_commitment(store, StorageType::Instance, hash, true)?;
        // Save the revealed data for the counting phase.
        store.set(StorageType::Instance, revealed_vote_key(voter), StoreVal::Record(data, 0));
        Ok(())
    }

    fn count(&self, store: &mut Store) -> Result<Vec<(u64, Option<StoreVal>)>, InvocationError> {
        let state_machine = StateMachine::new(station(), StorageType::Instance);
        run_transition(self, store, &state_machine, phase_closed())?;
        let mut results = Vec::new();
        for voter in VOTERS {
            results.push((voter, store.get(StorageType::Instance, revealed_vote_key(voter))));
        }
        Ok(results)
    }
}

#[test]
fn test_macros_commit_reveal() {
    let mut store = Store::new();
    let polling_station = PollingStation;

    let ballots = vec![
        Ballot::simulate_secret_vote(VOTERS[0], 2),
        Ballot::simulate_secret_vote(VOTERS[1], 1),
        Ballot::simulate_secret_vote(VOTERS[2], 3),
    ];

    // Register the voters.
    for ballot in ballots.iter() {
        polling_station.register_voter(&mut store, ballot.voter);
    }

    // Revealing or counting before the commit phase fails.
    for ballot in ballots.iter() {
        assert!(
            polling_station
                .reveal_vote(&mut store, ballot.voter, ballot.data, ballot.hash)
                .is_err(),
            "Incorrect phase"
        );
    }
    assert!(polling_station.count(&mut store).is_err(), "Incorrect phase");

    // Voters commit their hash; the vote order does not matter, the
    // state machine handles concurrency for this phase.
    for ballot in ballots.iter() {
        assert!(polling_station.vote(&mut store, ballot.voter, ballot.hash).is_ok());
    }

    // Voters cannot vote again.
    for ballot in ballots.iter() {
        assert!(
            polling_station.vote(&mut store, ballot.voter, ballot.hash).is_err(),
            "Incorrect phase"
        );
    }

    // Voters reveal their vote.
    for ballot in ballots.iter() {
        assert!(
            polling_station
                .reveal_vote(&mut store, ballot.voter, ballot.data, ballot.hash)
                .is_ok()
        );
    }

    // All votes revealed: the station transitioned to closed, counting
    // works and finds each revealed vote.
    let results = polling_station.count(&mut store).unwrap();
    assert_eq!(results.len(), 3);
    assert_eq!(results[0].1, Some(StoreVal::Record(2, 0)));
    assert_eq!(results[1].1, Some(StoreVal::Record(1, 0)));
    assert_eq!(results[2].1, Some(StoreVal::Record(3, 0)));
}

#[test]
fn test_commit_rejects_duplicate_token() {
    let mut store = Store::new();
    let digest = Digest { w0: 9, w1: 9, w2: 9, w3: 9 };
    assert!(commit(&mut store, StorageType::Persistent, digest).is_ok());
    let snapshot = store.duplicate();
    assert_eq!(
        commit(&mut store, StorageType::Persistent, digest),
        Err(InvocationError::CommitmentExists)
    );
    assert_eq!(store, snapshot);
}

#[test]
fn test_reveal_requires_commitment() {
    let mut store = Store::new();
    let digest = Digest { w0: 1, w1: 2, w2: 3, w3: 4 };
    let snapshot = store.duplicate();
    assert_eq!(
        reveal_commitment(&mut store, StorageType::Instance, digest, true),
        Err(InvocationError::CommitmentMissing)
    );
    assert_eq!(store, snapshot);
}

#[test]
fn test_reveal_clears_the_token_by_default() {
    let mut store = Store::new();
    let digest = Digest { w0: 5, w1: 6, w2: 7, w3: 8 };
    assert!(commit(&mut store, StorageType::Temporary, digest).is_ok());

    // A reveal that keeps the commitment can be repeated.
    assert!(reveal_commitment(&mut store, StorageType::Temporary, digest, false).is_ok());
    assert!(reveal_commitment(&mut store, StorageType::Temporary, digest, false).is_ok());

    // The default composition clears the token, so a replay fails.
    assert!(reveal_commitment(&mut store, StorageType::Temporary, digest, true).is_ok());
    assert_eq!(
        reveal_commitment(&mut store, StorageType::Temporary, digest, true),
        Err(InvocationError::CommitmentMissing)
    );
}

#[test]
fn test_commitment_tiers_are_independent() {
    let mut store = Store::new();
    let digest = Digest { w0: 11, w1: 0, w2: 0, w3: 0 };
    assert!(commit(&mut store, StorageType::Instance, digest).is_ok());
    // The same digest can be committed under another tier.
    assert!(commit(&mut store, StorageType::Temporary, digest).is_ok());
    assert_eq!(
        reveal_commitment(&mut store, StorageType::Persistent, digest, true),
        Err(InvocationError::CommitmentMissing)
    );
}
