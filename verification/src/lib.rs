//! Simulation of the BB84 quantum-key-distribution handshake between a sender
//! ("Writer") and a receiver ("Reader"), with an optional eavesdropper
//! ("Adversary") performing an intercept-resend attack.
//!
//! The protocol engine is verified: the quantum-channel measurement model, the
//! actors' round-by-round behaviour, and the public-channel reconciliation and
//! test protocol carry contracts that pin down sifting, test-bit sampling and
//! the commit/abort decision.

pub mod photon;
pub mod vettori;
pub mod random_source;
pub mod keys;
pub mod quantum_channel;
pub mod public_channel;
pub mod adversary;
pub mod reader;
pub mod writer;
pub mod simulation;
