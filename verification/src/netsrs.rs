//! The SRS source that is backed by a transcript behind a URL, read by HTTP
//! range requests.

use vstd::prelude::*;
use vstd::string::StringExecFns;
use crate::http_range::{header, range_header, spec_range_header};
use crate::layout::{g1_range, g2_range, G2_BYTES, G2_START};
use crate::srs::{accept, spec_g1_data, spec_g2_data, Reply, Section, Snapshot, Srs, SrsError, Transport};

verus! {

/// The transcript that is used where the caller names no other.
pub const DEFAULT_SRS_URL: &'static str =
    "https://aztec-ignition.s3.amazonaws.com/MAIN%20IGNITION/monomial/transcript00.dat";

/// SRS material that comes from a remote transcript.
#[derive(Debug)]
pub struct NetSrs {
    pub g1_data: Option<Vec<u8>>,
    pub g2_data: Option<Vec<u8>>,
    pub num_points: Option<u32>,
    pub srs_url: String,
}

impl NetSrs {
    /// A source for the transcript at `srs_url`, with nothing loaded yet.
    pub fn new(srs_url: &str) -> (r: Self)
        ensures
            r.srs_url@ == srs_url@,
            r.g1_data is None,
            r.g2_data is None,
            r.num_points is None,
            r.snapshot() is None,
            r.transport() == Transport::Http,
    {
        NetSrs {
            num_points: None,
            g1_data: None,
            g2_data: None,
            srs_url: String::from_str(srs_url),
        }
    }

    /// A source for the transcript at `srs_url`, or at the default URL where none
    /// is given.
    pub fn new_or_default(srs_url: Option<&str>) -> (r: Self)
        ensures
            r.srs_url@ == (match srs_url {
                Some(url) => url@,
                None => DEFAULT_SRS_URL@,
            }),
            r.snapshot() is None,
    {
        match srs_url {
            Some(url) => NetSrs::new(url),
            None => NetSrs::new(DEFAULT_SRS_URL),
        }
    }

    /// The `Range` header of the request for the first `num_points` G1 points:
    /// from offset 28 to the last byte of the last point. There is no such
    /// request for no point at all.
    pub fn g1_request(num_points: u32) -> (r: Option<String>)
        ensures
            num_points == 0 ==> r is None,
            num_points >= 1 ==> r is Some && r->0@ == spec_range_header(
                28,
                (28 + 64 * num_points - 1) as nat,
            ),
    {
        range_header(&g1_range(num_points))
    }

    /// The `Range` header of the request for the G2 point: 128 bytes behind the
    /// full G1 table, whatever the number of G1 points that are read.
    pub fn g2_request() -> (r: String)
        ensures
            r@ == spec_range_header(G2_START as nat, (G2_START + G2_BYTES - 1) as nat),
    {
        header(G2_START, G2_START + (G2_BYTES - 1))
    }

    /// The G1 data out of what the request for the first `num_points` G1 points
    /// came back with. The reply is good if it delivered exactly 64 bytes for each
    /// point; a request for no point at all is refused.
    pub fn get_g1_data(&self, num_points: u32, reply: Reply) -> (r: Result<Vec<u8>, SrsError>)
        ensures
            r == spec_g1_data(Transport::Http, self.srs_url, num_points, reply),
            r matches Ok(bytes) ==> num_points >= 1 && bytes@.len() == 64 * num_points,
    {
        if num_points == 0 {
            Err(SrsError::NoPoints)
        } else {
            accept(Transport::Http, &self.srs_url, Section::G1, g1_range(num_points).len, reply)
        }
    }

    /// The G2 data out of what the request for the G2 point came back with. The
    /// reply is good if it delivered exactly 128 bytes.
    pub fn get_g2_data(&self, reply: Reply) -> (r: Result<Vec<u8>, SrsError>)
        ensures
            r == spec_g2_data(Transport::Http, self.srs_url, reply),
            r matches Ok(bytes) ==> bytes@.len() == 128,
    {
        accept(Transport::Http, &self.srs_url, Section::G2, g2_range().len, reply)
    }
}

impl Srs for NetSrs {
    open spec fn snapshot(&self) -> Option<Snapshot> {
        match (self.num_points, self.g1_data, self.g2_data) {
            (Some(num_points), Some(g1), Some(g2)) => Some(Snapshot { num_points, g1: g1@, g2: g2@ }),
            _ => None,
        }
    }

    open spec fn transport(&self) -> Transport {
        Transport::Http
    }

    open spec fn source(&self) -> String {
        self.srs_url
    }

    fn load_data(&mut self, num_points: u32, g1: Reply, g2: Reply) -> (r: Result<(), SrsError>) {
        let g1_bytes: Vec<u8> = match self.get_g1_data(num_points, g1) {
            Ok(bytes) => bytes,
            Err(e) => {
                return Err(e);
            },
        };
        let g2_bytes: Vec<u8> = match self.get_g2_data(g2) {
            Ok(bytes) => bytes,
            Err(e) => {
                return Err(e);
            },
        };
        self.num_points = Some(num_points);
        self.g1_data = Some(g1_bytes);
        self.g2_data = Some(g2_bytes);
        Ok(())
    }

    fn is_loaded(&self) -> (r: bool) {
        self.num_points.is_some() && self.g1_data.is_some() && self.g2_data.is_some()
    }

    fn g1_data(&self) -> (r: &Vec<u8>) {
        self.g1_data.as_ref().unwrap()
    }

    fn g2_data(&self) -> (r: &Vec<u8>) {
        self.g2_data.as_ref().unwrap()
    }

    fn num_points(&self) -> (r: u32) {
        self.num_points.unwrap()
    }
}

} // verus!
