//! The ways in which proving and verifying fail.

use vstd::prelude::*;
use crate::srs::SrsError;

verus! {

/// Why a proof could not be made, or a verification could not be carried out.
/// A text is the diagnostic of the stage that failed.
#[derive(Debug, PartialEq, Eq)]
pub enum ProveError {
    /// The circuit bytecode is not base64 text.
    Decode(String),
    /// The decoded bytes are no serialized circuit.
    CircuitFormat(String),
    /// The decoded bytes are no gzip stream.
    Decompress(String),
    /// The solver rejected the circuit with the given witness.
    Execution(String),
    /// The solved witness could not be serialized.
    Serialization(String),
    /// The circuit has this total size, for which there is no subgroup size.
    InvalidCircuitSize(u32),
    /// The SRS source could not deliver the points.
    SrsLoad(SrsError),
    /// The backend failed on the way to the proof or to the verification key.
    Proving(String),
    /// The backend could not carry out the verification.
    Verification(String),
}

} // verus!
