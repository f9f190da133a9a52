//! Zero-knowledge proofs that a value is absent from a Merkle-tree-backed
//! set, made ready for a pairing check.
//!
//! A request goes through five parts. The input builder ([`inputs`]) turns
//! a batch of non-inclusion claims ([`claim`]) into the inputs of the circuit
//! and the public inputs of the proof. The resolver ([`registry`]) finds the
//! circuit variant for the batch and hands out the handles of its artifacts.
//! The prover runs outside this library. The converter ([`proof_format`])
//! re-encodes the proof that the prover made, from the byte layout of the
//! proving side to that of the pairing check ([`point`], [`field`],
//! [`bytes`]), after it has made sure that the proof's points lie on their
//! curves ([`curve`]). The verifying keys ([`verifying_keys`]) are the
//! constants that the pairing check needs beside the proof. [`pipeline`]
//! holds the order of the parts, and [`error`] what can go wrong in them.

pub mod bytes;
pub mod claim;
pub mod curve;
pub mod error;
pub mod field;
pub mod inputs;
pub mod pipeline;
pub mod point;
pub mod proof_format;
pub mod registry;
pub mod verifying_keys;
