//! The proof pipeline as a state machine.
//!
//! Making a proof alternates between decisions, which are made here, and work
//! that only the caller can do: solving the witness, measuring the circuit,
//! moving the SRS, and the calls into the proving backend. A [`ProofJob`] says
//! in every state which [`Action`] it waits for; the caller performs it and
//! reports the outcome as an [`Event`], on which the job moves to its next
//! state. Every failure is final.

use vstd::prelude::*;
use acir::circuit::Circuit;
use acir::native_types::WitnessMap;
use crate::codec::{
    base64_decoding,
    decode_base64,
    encode_witness,
    gunzip,
    gunzipped,
    parse_circuit,
    parsed_circuit,
    witness_encoding,
};
use crate::error::ProveError;
use crate::sizing::{
    is_least_power_of_two_from,
    is_power_of_two,
    lemma_subgroup_size_is_least,
    spec_subgroup_size,
    subgroup_size,
    MAX_SUBGROUP_SIZE,
};
use vstd::arithmetic::power2::{lemma2_to64, pow2};
use crate::srs::SrsError;

verus! {

/// The work that a job waits for.
#[derive(Clone, Copy, Debug, PartialEq, Eq, Structural)]
pub enum Action {
    /// Solve the job's circuit against the initial witness.
    Execute,
    /// Ask the backend for the total size of the circuit in the job's ACIR buffer.
    MeasureCircuit,
    /// Load this many G1 points, and the G2 point, into the SRS source.
    LoadSrs { num_points: u32 },
    /// Initialize the backend's SRS from what the source holds.
    InitSrs,
    /// Make a proving context of this size and let it prove the job's ACIR buffer
    /// with the job's witness.
    Prove { subgroup_size: u32 },
    /// Ask the same context for the verification key.
    FetchKey,
    /// Nothing: the job holds the proof and the verification key.
    Finish,
    /// Nothing: the job has failed.
    Abort,
}

/// The outcome of the work that a job waited for.
#[derive(Debug, PartialEq, Eq)]
pub enum Event {
    /// The solver's outcome: the solved witness, or its diagnostic.
    Solved(Result<WitnessMap, String>),
    /// The backend's outcome: the total size of the circuit.
    Measured(Result<u32, String>),
    /// The outcome of the load.
    SrsLoaded(Result<(), SrsError>),
    /// The outcome of the backend's SRS initialization.
    SrsInitialized(Result<(), String>),
    /// The backend's outcome: the proof.
    Proved(Result<Vec<u8>, String>),
    /// The backend's outcome: the verification key.
    KeyFetched(Result<Vec<u8>, String>),
}

/// A proof in the making.
#[derive(Debug, PartialEq, Eq)]
pub enum ProofJob {
    /// The bytecode is decoded; the witness is to be solved.
    Solving { circuit: Circuit, acir: Vec<u8> },
    /// The witness is solved and serialized; the circuit is to be measured.
    Sizing { acir: Vec<u8>, witness: Vec<u8> },
    /// The subgroup size is known; `num_points` points of the SRS are to be loaded.
    Loading { acir: Vec<u8>, witness: Vec<u8>, subgroup_size: u32, num_points: u32 },
    /// The SRS is loaded; the backend is to be initialized from it.
    Initializing { acir: Vec<u8>, witness: Vec<u8>, subgroup_size: u32 },
    /// The backend is ready; the proof is to be made.
    Proving { acir: Vec<u8>, witness: Vec<u8>, subgroup_size: u32 },
    /// The proof is made; the verification key is to be fetched.
    Keying { proof: Vec<u8> },
    /// The job is done.
    Done { proof: Vec<u8>, verification_key: Vec<u8> },
    /// The job has failed.
    Failed(ProveError),
}

impl ProofJob {
    /// The action that the job waits for.
    pub open spec fn spec_pending(self) -> Action {
        match self {
            ProofJob::Solving { .. } => Action::Execute,
            ProofJob::Sizing { .. } => Action::MeasureCircuit,
            ProofJob::Loading { num_points, .. } => Action::LoadSrs { num_points },
            ProofJob::Initializing { .. } => Action::InitSrs,
            ProofJob::Proving { subgroup_size, .. } => Action::Prove { subgroup_size },
            ProofJob::Keying { .. } => Action::FetchKey,
            ProofJob::Done { .. } => Action::Finish,
            ProofJob::Failed(_) => Action::Abort,
        }
    }

    /// The job that the two derivations of the decoded bytecode give: it fails on
    /// the circuit's error first, then on the error of the decompression, and
    /// otherwise waits for the witness.
    pub open spec fn spec_assemble(
        parsed: Result<Circuit, String>,
        inflated: Result<Vec<u8>, String>,
    ) -> ProofJob {
        match parsed {
            Err(message) => ProofJob::Failed(ProveError::CircuitFormat(message)),
            Ok(circuit) => match inflated {
                Err(message) => ProofJob::Failed(ProveError::Decompress(message)),
                Ok(acir) => ProofJob::Solving { circuit, acir },
            },
        }
    }

    /// The job after the solved witness was serialized, or could not be.
    pub open spec fn spec_witness_encoded(self, encoded: Result<Vec<u8>, String>) -> ProofJob {
        match self {
            ProofJob::Solving { circuit, acir } => match encoded {
                Ok(witness) => ProofJob::Sizing { acir, witness },
                Err(message) => ProofJob::Failed(ProveError::Serialization(message)),
            },
            _ => self,
        }
    }

    /// The job after the circuit was found to have `total` gates: it loads one
    /// point more than the subgroup size, and fails where the circuit has no
    /// subgroup size.
    pub open spec fn spec_measured(acir: Vec<u8>, witness: Vec<u8>, total: u32) -> ProofJob {
        if 1 <= total <= MAX_SUBGROUP_SIZE {
            ProofJob::Loading {
                acir,
                witness,
                subgroup_size: spec_subgroup_size(total as nat) as u32,
                num_points: (spec_subgroup_size(total as nat) + 1) as u32,
            }
        } else {
            ProofJob::Failed(ProveError::InvalidCircuitSize(total))
        }
    }

    /// Whether `next` is the state that the job reaches on `event`.
    ///
    /// An event that reports a failure ends the job with the error of the stage.
    /// An event that the job does not wait for leaves it as it is. The text of a
    /// serialization error is the serializer's own, and is not fixed here.
    pub open spec fn steps_to(self, event: Event, next: ProofJob) -> bool {
        match (self, event) {
            (ProofJob::Solving { circuit, acir }, Event::Solved(Ok(solved))) => match witness_encoding(
                solved,
            ) {
                Some(bytes) => next matches ProofJob::Sizing { acir: next_acir, witness }
                    && next_acir == acir && witness@ == bytes,
                None => next matches ProofJob::Failed(ProveError::Serialization(_)),
            },
            (ProofJob::Solving { .. }, Event::Solved(Err(message))) => next == ProofJob::Failed(
                ProveError::Execution(message),
            ),
            (ProofJob::Sizing { acir, witness }, Event::Measured(Ok(total))) => next
                == ProofJob::spec_measured(acir, witness, total),
            (ProofJob::Sizing { .. }, Event::Measured(Err(message))) => next == ProofJob::Failed(
                ProveError::Proving(message),
            ),
            (
                ProofJob::Loading { acir, witness, subgroup_size, num_points },
                Event::SrsLoaded(Ok(_)),
            ) => next == (ProofJob::Initializing { acir, witness, subgroup_size }),
            (ProofJob::Loading { .. }, Event::SrsLoaded(Err(e))) => next == ProofJob::Failed(
                ProveError::SrsLoad(e),
            ),
            (
                ProofJob::Initializing { acir, witness, subgroup_size },
                Event::SrsInitialized(Ok(_)),
            ) => next == (ProofJob::Proving { acir, witness, subgroup_size }),
            (ProofJob::Initializing { .. }, Event::SrsInitialized(Err(message))) => next
                == ProofJob::Failed(ProveError::Proving(message)),
            (ProofJob::Proving { .. }, Event::Proved(Ok(proof))) => next == (ProofJob::Keying {
                proof,
            }),
            (ProofJob::Proving { .. }, Event::Proved(Err(message))) => next == ProofJob::Failed(
                ProveError::Proving(message),
            ),
            (ProofJob::Keying { proof }, Event::KeyFetched(Ok(verification_key))) => next
                == (ProofJob::Done { proof, verification_key }),
            (ProofJob::Keying { .. }, Event::KeyFetched(Err(message))) => next == ProofJob::Failed(
                ProveError::Proving(message),
            ),
            _ => next == self,
        }
    }

    /// What the job came to: the proof with its verification key, the error, or
    /// nothing as long as the job waits for work.
    pub open spec fn spec_outcome(self) -> Option<Result<(Vec<u8>, Vec<u8>), ProveError>> {
        match self {
            ProofJob::Done { proof, verification_key } => Some(Ok((proof, verification_key))),
            ProofJob::Failed(e) => Some(Err(e)),
            _ => None,
        }
    }

    /// The action that the job waits for.
    pub fn pending(&self) -> (r: Action)
        ensures
            r == self.spec_pending(),
    {
        match self {
            ProofJob::Solving { .. } => Action::Execute,
            ProofJob::Sizing { .. } => Action::MeasureCircuit,
            ProofJob::Loading { num_points, .. } => Action::LoadSrs { num_points: *num_points },
            ProofJob::Initializing { .. } => Action::InitSrs,
            ProofJob::Proving { subgroup_size, .. } => Action::Prove { subgroup_size: *subgroup_size },
            ProofJob::Keying { .. } => Action::FetchKey,
            ProofJob::Done { .. } => Action::Finish,
            ProofJob::Failed(_) => Action::Abort,
        }
    }

    /// Starts a job from the base64 text of a circuit's bytecode.
    ///
    /// The decoded bytes are read twice: they are parsed as a serialized circuit,
    /// which the solver will execute, and they are decompressed into the ACIR
    /// buffer, which the backend will measure and prove. The job fails on text
    /// that is not base64, on bytes that are no circuit, and on bytes that are no
    /// gzip stream, in this order.
    pub fn start(circuit_bytecode: &str) -> (r: (ProofJob, Action))
        ensures
            r.1 == r.0.spec_pending(),
            match base64_decoding(circuit_bytecode@) {
                None => r.0 matches ProofJob::Failed(ProveError::Decode(_)),
                Some(raw) => match parsed_circuit(raw) {
                    None => r.0 matches ProofJob::Failed(ProveError::CircuitFormat(_)),
                    Some(circuit) => match gunzipped(raw) {
                        None => r.0 matches ProofJob::Failed(ProveError::Decompress(_)),
                        Some(content) => r.0 matches ProofJob::Solving { circuit: parsed, acir }
                            && parsed == circuit && acir@ == content,
                    },
                },
            },
    {
        match decode_base64(circuit_bytecode) {
            Err(e) => (ProofJob::Failed(ProveError::Decode(e.to_string())), Action::Abort),
            Ok(raw) => {
                let parsed: Result<Circuit, String> = match parse_circuit(raw.as_slice()) {
                    Ok(circuit) => Ok(circuit),
                    Err(e) => Err(e.to_string()),
                };
                let inflated: Result<Vec<u8>, String> = match gunzip(raw.as_slice()) {
                    Ok(content) => Ok(content),
                    Err(e) => Err(e.to_string()),
                };
                ProofJob::assemble(parsed, inflated)
            },
        }
    }

    /// Starts a job from the two derivations of the decoded bytecode: the parsed
    /// circuit and the decompressed ACIR buffer, or the diagnostic of each. Where
    /// both failed, the job fails on the circuit.
    pub fn assemble(parsed: Result<Circuit, String>, inflated: Result<Vec<u8>, String>) -> (r: (
        ProofJob,
        Action,
    ))
        ensures
            r.0 == ProofJob::spec_assemble(parsed, inflated),
            r.1 == r.0.spec_pending(),
    {
        match parsed {
            Err(message) => (ProofJob::Failed(ProveError::CircuitFormat(message)), Action::Abort),
            Ok(circuit) => match inflated {
                Err(message) => (ProofJob::Failed(ProveError::Decompress(message)), Action::Abort),
                Ok(acir) => (ProofJob::Solving { circuit, acir }, Action::Execute),
            },
        }
    }

    /// Moves a job that waits for the witness on, given the serialized witness or
    /// the serializer's diagnostic. Any other job is left as it is.
    pub fn witness_encoded(self, encoded: Result<Vec<u8>, String>) -> (r: (ProofJob, Action))
        ensures
            r.0 == self.spec_witness_encoded(encoded),
            r.1 == r.0.spec_pending(),
    {
        match self {
            ProofJob::Solving { circuit, acir } => match encoded {
                Ok(witness) => (ProofJob::Sizing { acir, witness }, Action::MeasureCircuit),
                Err(message) => (
                    ProofJob::Failed(ProveError::Serialization(message)),
                    Action::Abort,
                ),
            },
            other => {
                let action: Action = other.pending();
                (other, action)
            },
        }
    }

    /// Moves the job on by the outcome of the work that it waited for, and says
    /// what it waits for next.
    ///
    /// From a measured circuit of `total` gates the job goes on to load
    /// `2^ceil(log2(total)) + 1` points.
    pub fn step(self, event: Event) -> (r: (ProofJob, Action))
        ensures
            self.steps_to(event, r.0),
            r.1 == r.0.spec_pending(),
    {
        match (self, event) {
            (ProofJob::Solving { circuit, acir }, Event::Solved(Ok(solved))) => {
                let encoded: Result<Vec<u8>, String> = match encode_witness(&solved) {
                    Ok(bytes) => Ok(bytes),
                    Err(e) => Err(e.to_string()),
                };
                (ProofJob::Solving { circuit, acir }).witness_encoded(encoded)
            },
            (ProofJob::Solving { .. }, Event::Solved(Err(message))) => (
                ProofJob::Failed(ProveError::Execution(message)),
                Action::Abort,
            ),
            (ProofJob::Sizing { acir, witness }, Event::Measured(Ok(total))) => {
                match subgroup_size(total) {
                    Some(size) => {
                        let num_points: u32 = size + 1;
                        (
                            ProofJob::Loading { acir, witness, subgroup_size: size, num_points },
                            Action::LoadSrs { num_points },
                        )
                    },
                    None => (
                        ProofJob::Failed(ProveError::InvalidCircuitSize(total)),
                        Action::Abort,
                    ),
                }
            },
            (ProofJob::Sizing { .. }, Event::Measured(Err(message))) => (
                ProofJob::Failed(ProveError::Proving(message)),
                Action::Abort,
            ),
            (
                ProofJob::Loading { acir, witness, subgroup_size, num_points },
                Event::SrsLoaded(Ok(_)),
            ) => (ProofJob::Initializing { acir, witness, subgroup_size }, Action::InitSrs),
            (ProofJob::Loading { .. }, Event::SrsLoaded(Err(e))) => (
                ProofJob::Failed(ProveError::SrsLoad(e)),
                Action::Abort,
            ),
            (
                ProofJob::Initializing { acir, witness, subgroup_size },
                Event::SrsInitialized(Ok(_)),
            ) => (
                ProofJob::Proving { acir, witness, subgroup_size },
                Action::Prove { subgroup_size },
            ),
            (ProofJob::Initializing { .. }, Event::SrsInitialized(Err(message))) => (
                ProofJob::Failed(ProveError::Proving(message)),
                Action::Abort,
            ),
            (ProofJob::Proving { .. }, Event::Proved(Ok(proof))) => (
                ProofJob::Keying { proof },
                Action::FetchKey,
            ),
            (ProofJob::Proving { .. }, Event::Proved(Err(message))) => (
                ProofJob::Failed(ProveError::Proving(message)),
                Action::Abort,
            ),
            (ProofJob::Keying { proof }, Event::KeyFetched(Ok(verification_key))) => (
                ProofJob::Done { proof, verification_key },
                Action::Finish,
            ),
            (ProofJob::Keying { .. }, Event::KeyFetched(Err(message))) => (
                ProofJob::Failed(ProveError::Proving(message)),
                Action::Abort,
            ),
            (other, _) => {
                let action: Action = other.pending();
                (other, action)
            },
        }
    }

    /// What the job came to: the proof with its verification key, the error, or
    /// `None` as long as the job waits for work.
    pub fn outcome(self) -> (r: Option<Result<(Vec<u8>, Vec<u8>), ProveError>>)
        ensures
            r == self.spec_outcome(),
    {
        match self {
            ProofJob::Done { proof, verification_key } => Some(Ok((proof, verification_key))),
            ProofJob::Failed(e) => Some(Err(e)),
            _ => None,
        }
    }
}

/// A job whose circuit was measured to `total` gates asks for
/// `2^ceil(log2(total)) + 1` points: one more than the subgroup size, which is
/// the smallest power of two that is not below `total`.
pub proof fn lemma_measured_job_loads_one_point_more(job: ProofJob, total: u32, next: ProofJob)
    requires
        job is Sizing,
        1 <= total <= MAX_SUBGROUP_SIZE,
        job.steps_to(Event::Measured(Ok(total)), next),
    ensures
        next.spec_pending() == (Action::LoadSrs {
            num_points: (spec_subgroup_size(total as nat) + 1) as u32,
        }),
        spec_subgroup_size(total as nat) + 1 <= u32::MAX,
        is_least_power_of_two_from(spec_subgroup_size(total as nat) as int, total as int),
{
    lemma_subgroup_size_is_least(total as nat);
    assert(is_power_of_two(MAX_SUBGROUP_SIZE as int)) by {
        lemma2_to64();
        assert(MAX_SUBGROUP_SIZE == pow2(31));
    }
}

/// A job that has ended stays as it is, whatever is reported to it.
pub proof fn lemma_ended_job_stays(job: ProofJob, event: Event, next: ProofJob)
    requires
        job is Done || job is Failed,
        job.steps_to(event, next),
    ensures
        next == job,
{
}

} // verus!
