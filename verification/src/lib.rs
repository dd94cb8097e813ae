//! Catch-up of a blockchain node from one peer.
//!
//! The node opens a session to a peer, tells it where the local chain stands,
//! pulls the missing blocks, has each of them validated and stored, and at
//! the end hands the best validated position to chain selection. The peer
//! session, the chain state and the shutdown signal are collaborators that
//! live outside this crate. What is here are the decisions that tie them
//! together, written as state machines: the caller performs the action that a
//! machine asks for and hands back what came of it.

pub mod admission;
pub mod block;
pub mod discovery;
pub mod error;
pub mod laws;
pub mod merger;
pub mod orchestrator;
pub mod progress;
pub mod run;
pub mod stream;
