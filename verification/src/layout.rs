//! The binary layout of an SRS transcript.
//!
//! A transcript starts with a header, followed by a table of G1 points of fixed
//! size, followed by a single G2 point. The G2 point always sits behind the
//! *full* G1 table, however many G1 points a reader asks for.

use vstd::prelude::*;

verus! {

/// Offset of the first G1 point: the transcript starts with a header of this many bytes.
pub const G1_START: u64 = 28;

/// Size of one serialized G1 point.
pub const G1_POINT_BYTES: u64 = 64;

/// Number of G1 points that a full transcript holds.
pub const MAX_G1_POINTS: u64 = 5_040_001;

/// Offset of the G2 point, right behind the full G1 table.
pub const G2_START: u64 = 28 + 64 * 5_040_001;

/// Size of the single serialized G2 point.
pub const G2_BYTES: u64 = 128;

/// A run of `len` bytes that starts at offset `start` of the transcript.
#[derive(Clone, Copy, Debug, PartialEq, Eq, Structural)]
pub struct ByteRange {
    pub start: u64,
    pub len: u64,
}

impl ByteRange {
    /// The offset just behind the last byte of the range.
    pub open spec fn end(self) -> int {
        self.start + self.len
    }

    /// Whether the byte at `offset` belongs to the range.
    pub open spec fn contains(self, offset: int) -> bool {
        self.start <= offset < self.end()
    }

    /// Whether the two ranges have no byte in common.
    pub open spec fn disjoint(self, other: ByteRange) -> bool {
        forall|offset: int| !(self.contains(offset) && other.contains(offset))
    }

    /// The offset of the last byte of a range that is not empty.
    pub open spec fn spec_last(self) -> int {
        self.start + self.len - 1
    }

    /// The offset of the last byte, which is the inclusive end bound of a range
    /// request. An empty range has no last byte, and neither has one that runs
    /// past the largest offset.
    pub fn last(&self) -> (r: Option<u64>)
        ensures
            r == if self.len >= 1 && self.spec_last() <= u64::MAX {
                Some(self.spec_last() as u64)
            } else {
                None
            },
    {
        if self.len == 0 {
            None
        } else {
            self.start.checked_add(self.len - 1)
        }
    }
}

/// The bytes of the first `num_points` G1 points.
pub open spec fn spec_g1_range(num_points: nat) -> ByteRange
    recommends
        num_points <= u32::MAX,
{
    ByteRange { start: G1_START, len: (G1_POINT_BYTES * num_points) as u64 }
}

/// The bytes of the G2 point.
pub open spec fn spec_g2_range() -> ByteRange {
    ByteRange { start: G2_START, len: G2_BYTES }
}

/// The byte range of the first `num_points` G1 points: `64 * num_points` bytes
/// behind the header.
pub fn g1_range(num_points: u32) -> (r: ByteRange)
    ensures
        r == spec_g1_range(num_points as nat),
        r.start == 28,
        r.len == 64 * num_points,
        r.end() == 28 + 64 * num_points,
{
    let points: u64 = num_points as u64;
    ByteRange { start: G1_START, len: G1_POINT_BYTES * points }
}

/// The byte range of the G2 point. It does not depend on how many G1 points are read.
pub fn g2_range() -> (r: ByteRange)
    ensures
        r == spec_g2_range(),
        r.start == 28 + 64 * 5_040_001,
        r.len == 128,
{
    ByteRange { start: G2_START, len: G2_BYTES }
}

/// The G1 section never reaches into the G2 section: for every count of points
/// up to the size of the full table, the G1 bytes end at or before the offset of
/// the G2 point, so the two ranges share no byte.
pub proof fn lemma_sections_do_not_overlap(num_points: nat)
    requires
        num_points <= MAX_G1_POINTS,
    ensures
        G2_START >= G1_START + 64 * num_points,
        spec_g1_range(num_points).end() <= spec_g2_range().start,
        spec_g1_range(num_points).disjoint(spec_g2_range()),
{
}

} // verus!
