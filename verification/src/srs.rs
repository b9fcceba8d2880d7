//! The capability that both SRS sources offer, and what they share: the
//! outcome of one transfer, the errors of a load, and the rule that decides
//! whether a transfer delivered a section of the transcript.
//!
//! A source does no I/O itself. The caller moves the bytes (by reading a file,
//! or by a range request) and hands over, for each section, a [`Reply`]; the
//! source decides what to make of it.

use vstd::prelude::*;
use crate::layout::{G1_POINT_BYTES, G2_BYTES};

verus! {

/// The two sections of a transcript that a load reads.
#[derive(Clone, Copy, Debug, PartialEq, Eq, Structural)]
pub enum Section {
    G1,
    G2,
}

/// How a source gets at its transcript.
#[derive(Clone, Copy, Debug, PartialEq, Eq, Structural)]
pub enum Transport {
    /// A file on the local disk.
    File,
    /// A range request over HTTP.
    Http,
}

/// What one transfer came back with.
#[derive(Debug, PartialEq, Eq)]
pub enum Reply {
    /// The bytes that were delivered.
    Bytes(Vec<u8>),
    /// The server answered with this status, which is not a success.
    Refused(u16),
    /// The transfer itself failed: no file, a short read, no connection.
    Failed(String),
}

/// Why a load failed. Every variant but the first names the source (path or
/// URL) and the section that was being transferred.
#[derive(Debug, PartialEq, Eq)]
pub enum SrsError {
    /// No G1 point was asked for.
    NoPoints,
    /// Reading the local transcript failed.
    Io { source: String, section: Section, message: String },
    /// The request for the remote transcript failed.
    Fetch { source: String, section: Section, message: String },
    /// The server refused the request.
    Status { source: String, section: Section, status: u16 },
    /// The transfer delivered another number of bytes than the section holds.
    Length { source: String, section: Section, expected: u64, actual: u64 },
}

/// The material that a source holds after a load.
pub ghost struct Snapshot {
    pub num_points: u32,
    pub g1: Seq<u8>,
    pub g2: Seq<u8>,
}

impl Snapshot {
    /// A snapshot holds at least one G1 point, 64 bytes for each G1 point, and
    /// the 128 bytes of the G2 point.
    pub open spec fn wf(self) -> bool {
        &&& self.num_points >= 1
        &&& self.g1.len() == G1_POINT_BYTES * self.num_points
        &&& self.g2.len() == G2_BYTES
    }
}

/// Whether a status code reports success (`2xx`; a served range is `206`).
pub open spec fn is_success(status: u16) -> bool {
    200 <= status <= 299
}

impl Reply {
    /// The reply that an HTTP response amounts to: its body if the status reports
    /// success, and the refusal otherwise.
    pub open spec fn spec_from_response(status: u16, body: Vec<u8>) -> Reply {
        if is_success(status) {
            Reply::Bytes(body)
        } else {
            Reply::Refused(status)
        }
    }

    /// Turns an HTTP response into a reply: the body counts only under a success
    /// status.
    pub fn from_response(status: u16, body: Vec<u8>) -> (r: Reply)
        ensures
            r == Reply::spec_from_response(status, body),
    {
        if 200 <= status && status <= 299 {
            Reply::Bytes(body)
        } else {
            Reply::Refused(status)
        }
    }
}

/// What a reply is worth for a section of `expected` bytes: the bytes themselves
/// if there are exactly `expected` of them, and otherwise the error that says
/// what went wrong.
pub open spec fn spec_accept(
    transport: Transport,
    source: String,
    section: Section,
    expected: u64,
    reply: Reply,
) -> Result<Vec<u8>, SrsError> {
    match reply {
        Reply::Bytes(bytes) => if bytes@.len() == expected {
            Ok(bytes)
        } else {
            Err(SrsError::Length { source, section, expected, actual: bytes@.len() as u64 })
        },
        Reply::Refused(status) => Err(SrsError::Status { source, section, status }),
        Reply::Failed(message) => Err(
            match transport {
                Transport::File => SrsError::Io { source, section, message },
                Transport::Http => SrsError::Fetch { source, section, message },
            },
        ),
    }
}

/// Decides whether `reply` delivered a section of `expected` bytes. A transfer
/// that came back with fewer bytes, or with more, is an error: nothing is padded
/// and nothing is cut.
pub fn accept(
    transport: Transport,
    source: &String,
    section: Section,
    expected: u64,
    reply: Reply,
) -> (r: Result<Vec<u8>, SrsError>)
    ensures
        r == spec_accept(transport, *source, section, expected, reply),
        r matches Ok(bytes) ==> bytes@.len() == expected,
{
    match reply {
        Reply::Bytes(bytes) => {
            let actual: u64 = bytes.len() as u64;
            if actual == expected {
                Ok(bytes)
            } else {
                Err(SrsError::Length { source: source.clone(), section, expected, actual })
            }
        },
        Reply::Refused(status) => Err(SrsError::Status { source: source.clone(), section, status }),
        Reply::Failed(message) => match transport {
            Transport::File => Err(SrsError::Io { source: source.clone(), section, message }),
            Transport::Http => Err(SrsError::Fetch { source: source.clone(), section, message }),
        },
    }
}

/// What the reply to the transfer of the first `num_points` G1 points is worth.
pub open spec fn spec_g1_data(
    transport: Transport,
    source: String,
    num_points: u32,
    reply: Reply,
) -> Result<Vec<u8>, SrsError> {
    if num_points == 0 {
        Err(SrsError::NoPoints)
    } else {
        spec_accept(transport, source, Section::G1, (G1_POINT_BYTES * num_points) as u64, reply)
    }
}

/// What the reply to the transfer of the G2 point is worth.
pub open spec fn spec_g2_data(transport: Transport, source: String, reply: Reply) -> Result<
    Vec<u8>,
    SrsError,
> {
    spec_accept(transport, source, Section::G2, G2_BYTES, reply)
}

/// The outcome of a load: the first error, the G1 transfer before the G2
/// transfer, or both buffers.
pub open spec fn spec_load(
    transport: Transport,
    source: String,
    num_points: u32,
    g1: Reply,
    g2: Reply,
) -> Result<(Vec<u8>, Vec<u8>), SrsError> {
    match spec_g1_data(transport, source, num_points, g1) {
        Err(e) => Err(e),
        Ok(g1_bytes) => match spec_g2_data(transport, source, g2) {
            Err(e) => Err(e),
            Ok(g2_bytes) => Ok((g1_bytes, g2_bytes)),
        },
    }
}

/// A load that succeeds delivers buffers of the exact lengths, whatever the
/// transport: 64 bytes for each of the `num_points` G1 points, of which there is
/// at least one, and 128 bytes for the G2 point.
pub proof fn lemma_loaded_lengths_are_exact(
    transport: Transport,
    source: String,
    num_points: u32,
    g1: Reply,
    g2: Reply,
)
    requires
        spec_load(transport, source, num_points, g1, g2) is Ok,
    ensures
        num_points >= 1,
        spec_load(transport, source, num_points, g1, g2)->Ok_0.0@.len() == 64 * num_points,
        spec_load(transport, source, num_points, g1, g2)->Ok_0.1@.len() == 128,
        g1 == Reply::Bytes(spec_load(transport, source, num_points, g1, g2)->Ok_0.0),
        g2 == Reply::Bytes(spec_load(transport, source, num_points, g1, g2)->Ok_0.1),
{
}

/// A transfer that delivered another number of bytes than its section holds
/// fails the load: a short buffer is never taken for the section.
pub proof fn lemma_wrong_length_fails_the_load(
    transport: Transport,
    source: String,
    num_points: u32,
    g1: Reply,
    g2: Reply,
)
    requires
        (g1 matches Reply::Bytes(bytes) && bytes@.len() != 64 * num_points) || (g2 matches Reply::Bytes(
            bytes,
        ) && bytes@.len() != 128),
    ensures
        spec_load(transport, source, num_points, g1, g2) is Err,
{
}

/// A source of SRS material: it is loaded with the replies to its two transfers,
/// and hands out what it holds.
pub trait Srs: Sized {
    /// What the source holds: nothing before the first successful load.
    spec fn snapshot(&self) -> Option<Snapshot>;

    /// How the source gets at its transcript.
    spec fn transport(&self) -> Transport;

    /// The path or URL of the transcript.
    spec fn source(&self) -> String;

    /// Takes the replies to the transfers of the first `num_points` G1 points and
    /// of the G2 point. If both delivered their section in full, they become the
    /// snapshot, in place of what was loaded before. Otherwise the load fails and
    /// the source is left as it was: never with one buffer of two.
    fn load_data(&mut self, num_points: u32, g1: Reply, g2: Reply) -> (r: Result<(), SrsError>)
        ensures
            final(self).transport() == old(self).transport(),
            final(self).source() == old(self).source(),
            match spec_load(old(self).transport(), old(self).source(), num_points, g1, g2) {
                Ok((g1_bytes, g2_bytes)) => {
                    &&& r == Ok::<(), SrsError>(())
                    &&& final(self).snapshot() == Some(
                        Snapshot { num_points, g1: g1_bytes@, g2: g2_bytes@ },
                    )
                    &&& final(self).snapshot()->0.wf()
                },
                Err(e) => {
                    &&& r == Err::<(), SrsError>(e)
                    &&& *final(self) == *old(self)
                },
            },
    ;

    /// Whether the source holds a snapshot, so that its data can be asked for.
    fn is_loaded(&self) -> (r: bool)
        ensures
            r == self.snapshot() is Some,
    ;

    /// The loaded G1 points.
    fn g1_data(&self) -> (r: &Vec<u8>)
        requires
            self.snapshot() is Some,
        ensures
            r@ == self.snapshot()->0.g1,
    ;

    /// The loaded G2 point.
    fn g2_data(&self) -> (r: &Vec<u8>)
        requires
            self.snapshot() is Some,
        ensures
            r@ == self.snapshot()->0.g2,
    ;

    /// The number of G1 points that the last successful load asked for.
    fn num_points(&self) -> (r: u32)
        requires
            self.snapshot() is Some,
        ensures
            r == self.snapshot()->0.num_points,
    ;
}

} // verus!
