//! The SRS source that is backed by a transcript file on the local disk.

use vstd::prelude::*;
use vstd::string::StringExecFns;
use crate::layout::{g1_range, g2_range};
use crate::srs::{accept, spec_g1_data, spec_g2_data, Reply, Section, Snapshot, Srs, SrsError, Transport};

verus! {

/// SRS material that comes from a local transcript file.
#[derive(Debug)]
pub struct LocalSrs {
    pub g1_data: Option<Vec<u8>>,
    pub g2_data: Option<Vec<u8>>,
    pub num_points: Option<u32>,
    pub srs_path: String,
}

impl LocalSrs {
    /// A source for the transcript file at `srs_path`, with nothing loaded yet.
    pub fn new(srs_path: &str) -> (r: Self)
        ensures
            r.srs_path@ == srs_path@,
            r.g1_data is None,
            r.g2_data is None,
            r.num_points is None,
            r.snapshot() is None,
            r.transport() == Transport::File,
    {
        LocalSrs {
            num_points: None,
            g1_data: None,
            g2_data: None,
            srs_path: String::from_str(srs_path),
        }
    }

    /// The G1 data out of what a read of the first `num_points` G1 points came back
    /// with. The read is good if it delivered exactly 64 bytes for each point; a
    /// request for no point at all is refused.
    pub fn get_g1_data(&self, num_points: u32, reply: Reply) -> (r: Result<Vec<u8>, SrsError>)
        ensures
            r == spec_g1_data(Transport::File, self.srs_path, num_points, reply),
            r matches Ok(bytes) ==> num_points >= 1 && bytes@.len() == 64 * num_points,
    {
        if num_points == 0 {
            Err(SrsError::NoPoints)
        } else {
            accept(Transport::File, &self.srs_path, Section::G1, g1_range(num_points).len, reply)
        }
    }

    /// The G2 data out of what a read of the G2 point came back with. The read is
    /// good if it delivered exactly 128 bytes.
    pub fn get_g2_data(&self, reply: Reply) -> (r: Result<Vec<u8>, SrsError>)
        ensures
            r == spec_g2_data(Transport::File, self.srs_path, reply),
            r matches Ok(bytes) ==> bytes@.len() == 128,
    {
        accept(Transport::File, &self.srs_path, Section::G2, g2_range().len, reply)
    }
}

impl Srs for LocalSrs {
    open spec fn snapshot(&self) -> Option<Snapshot> {
        match (self.num_points, self.g1_data, self.g2_data) {
            (Some(num_points), Some(g1), Some(g2)) => Some(Snapshot { num_points, g1: g1@, g2: g2@ }),
            _ => None,
        }
    }

    open spec fn transport(&self) -> Transport {
        Transport::File
    }

    open spec fn source(&self) -> String {
        self.srs_path
    }

    fn load_data(&mut self, num_points: u32, g1: Reply, g2: Reply) -> (r: Result<(), SrsError>) {
        let g1_bytes: Vec<u8> = match self.get_g1_data(num_points, g1) {
            Ok(bytes) => bytes,
            Err(e) => {
                return Err(e);
            },
        };
        let g2_bytes: Vec<u8> = match self.get_g2_data(g2) {
            Ok(bytes) => bytes,
            Err(e) => {
                return Err(e);
            },
        };
        self.num_points = Some(num_points);
        self.g1_data = Some(g1_bytes);
        self.g2_data = Some(g2_bytes);
        Ok(())
    }

    fn is_loaded(&self) -> (r: bool) {
        self.num_points.is_some() && self.g1_data.is_some() && self.g2_data.is_some()
    }

    fn g1_data(&self) -> (r: &Vec<u8>) {
        self.g1_data.as_ref().unwrap()
    }

    fn g2_data(&self) -> (r: &Vec<u8>) {
        self.g2_data.as_ref().unwrap()
    }

    fn num_points(&self) -> (r: u32) {
        self.num_points.unwrap()
    }
}

} // verus!
