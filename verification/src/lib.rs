//! A finite-state-machine engine for programs that persist their state in a
//! keyed store and must guarantee that an operation only runs when the
//! machine is in an expected state.
//!
//! The crate is organised around five pieces:
//!
//! * [`encoding`]: states and regions as tagged variants that may carry an
//!   embedded runtime value ("extended state").
//! * [`storage`]: the persistent store adapter, a keyed store with three
//!   persistence tiers.
//! * [`fsm`]: the state machine engine binding a region and a storage tier,
//!   and the guard / validate / effect transition protocol.
//! * [`circuit_breaker`]: a boolean specialisation of the engine with gated
//!   and trigger operations.
//! * [`commit`]: the commitment/reveal helper that stores a digest as a
//!   one-time token.
//!
//! Around them, [`types`], [`coffee_machine`], [`rock_paper_scissors`] and
//! [`hello`] are worked examples of contracts built on the engine, and
//! [`mock_storage`] is a rudimentary stand-in store for profiling.

pub mod circuit_breaker;
pub mod coffee_machine;
pub mod commit;
pub mod encoding;
pub mod fsm;
pub mod hello;
pub mod mock_storage;
pub mod rock_paper_scissors;
pub mod storage;
pub mod types;
