//! A decentralized compute-task marketplace core: tasks are posted with a
//! reward, claimed by workers ("swarms"), and settled atomically once a
//! verifiable result is submitted.
//!
//! The crate verifies the part that is hard to get right: the task lifecycle
//! state machine coupled to fund custody. Rewards are held in escrow (or
//! minted) only against an accepted compute proof, a task is assigned and
//! completed at most once, and no sequence of operations can pay twice, pay
//! without proof, or strand funds. Identity resolution, signatures, the clock
//! and event transport are the calling layer's business: every operation takes
//! an authenticated caller and a timestamp as plain values.

pub mod attestation;
pub mod errors;
pub mod ledger;
pub mod lifecycle;
pub mod registry;
pub mod task;

