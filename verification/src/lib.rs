//! Orchestration core for a two-tier voice-agent service.
//!
//! A client sends text or audio naming one of a fixed set of agents; the
//! gateway tier transcribes audio, forwards text to the agent runtime over
//! JSON-RPC, turns the reply into speech, stores the audio artifact, and
//! answers with the reply text plus an audio reference.  This crate holds
//! the verified decision logic of both tiers: the agent registry, the
//! JSON-RPC envelope handling, the interpretation of every provider
//! outcome, and the gateway pipeline as an explicit state machine.  The
//! network, file and serialization plumbing around it is unverified and
//! drives these functions from outside.

pub mod pipeline;
pub mod registry;
pub mod rpc;
pub mod runtime;
pub mod text;
