//! Provisioning of a structured reference string (SRS) for a proving backend,
//! and the pipeline from a circuit's bytecode to a proof.
//!
//! * [`layout`] describes the transcript file that holds the SRS.
//! * [`srs`], [`localsrs`] and [`netsrs`] are the sources that load exactly the
//!   points that a circuit needs, from a file or over HTTP ([`http_range`]).
//! * [`sizing`] derives the size of the proving domain from the size of a circuit.
//! * [`prover`] and [`verification`] sequence the work of the solver and of the
//!   backend, and decide what each of its outcomes leads to.
//! * [`codec`] holds the calls into the crates that own the encodings.
//!
//! The library moves no bytes and calls no backend itself: its callers do, and
//! report what came of it.

pub mod codec;
pub mod error;
pub mod http_range;
pub mod layout;
pub mod localsrs;
pub mod netsrs;
pub mod prover;
pub mod sizing;
pub mod srs;
pub mod verification;
