//! Status words and straight-path flags, as the query engine reports them.

use vstd::prelude::*;

verus! {

/// Operation failed.
pub const DT_FAILURE: u32 = 0x8000_0000;
/// Operation succeeded.
pub const DT_SUCCESS: u32 = 0x4000_0000;
/// Operation still in progress.
pub const DT_IN_PROGRESS: u32 = 0x2000_0000;
/// Input data is not recognized.
pub const DT_WRONG_MAGIC: u32 = 0x01;
/// Input data is in the wrong version.
pub const DT_WRONG_VERSION: u32 = 0x02;
/// Operation ran out of memory.
pub const DT_OUT_OF_MEMORY: u32 = 0x04;
/// An input parameter was invalid.
pub const DT_INVALID_PARAM: u32 = 0x08;
/// Result buffer for the query was too small to store all results.
pub const DT_BUFFER_TOO_SMALL: u32 = 0x10;
/// Query ran out of nodes during search.
pub const DT_OUT_OF_NODES: u32 = 0x20;
/// Query did not reach the end location, returning best guess.
pub const DT_PARTIAL_RESULT: u32 = 0x40;
/// A tile has already been assigned to the given coordinate.
pub const DT_ALREADY_OCCUPIED: u32 = 0x80;

/// The vertex is the start position of the path.
pub const DT_STRAIGHTPATH_START: u8 = 0x01;
/// The vertex is the end position of the path.
pub const DT_STRAIGHTPATH_END: u8 = 0x02;
/// The vertex is the start of an off-mesh connection.
pub const DT_STRAIGHTPATH_OFFMESH_CONNECTION: u8 = 0x03;

/// A status word: one high-level outcome bit and detail bits.
#[derive(Clone, Copy, Debug, PartialEq, Eq, Structural)]
pub struct DtStatus {
    pub bits: u32,
}

impl DtStatus {
    /// Every bit of `mask` is set in this status.
    pub open spec fn has(self, mask: u32) -> bool {
        self.bits & mask == mask
    }

    /// The status with exactly the given bits.
    pub fn from_bits(bits: u32) -> (status: DtStatus)
        ensures
            status.bits == bits,
    {
        DtStatus { bits }
    }

    /// The raw bits.
    pub fn bits(&self) -> (bits: u32)
        ensures
            bits == self.bits,
    {
        self.bits
    }

    /// Whether every bit set in `other` is set in `self`.
    pub fn contains(&self, other: DtStatus) -> (found: bool)
        ensures
            found == self.has(other.bits),
    {
        self.bits & other.bits == other.bits
    }

    /// The success bit is set.
    pub fn is_success(&self) -> (found: bool)
        ensures
            found == self.has(DT_SUCCESS),
    {
        self.bits & DT_SUCCESS == DT_SUCCESS
    }

    /// The in-progress bit is set.
    pub fn is_in_progress(&self) -> (found: bool)
        ensures
            found == self.has(DT_IN_PROGRESS),
    {
        self.bits & DT_IN_PROGRESS == DT_IN_PROGRESS
    }

    /// The failure bit is set.
    pub fn is_failed(&self) -> (found: bool)
        ensures
            found == self.has(DT_FAILURE),
    {
        self.bits & DT_FAILURE == DT_FAILURE
    }
}

/// Flags of one vertex of a straight path.
#[derive(Clone, Copy, Debug, PartialEq, Eq, Structural)]
pub struct DtStraightPathFlags {
    pub bits: u8,
}

impl DtStraightPathFlags {
    /// Every bit of `mask` is set in these flags.
    pub open spec fn has(self, mask: u8) -> bool {
        self.bits & mask == mask
    }

    /// The vertex ends the path.
    pub open spec fn ends_path(self) -> bool {
        self.has(DT_STRAIGHTPATH_END)
    }

    /// The vertex starts an off-mesh connection.
    pub open spec fn leaves_mesh(self) -> bool {
        self.has(DT_STRAIGHTPATH_OFFMESH_CONNECTION)
    }

    /// The flags with exactly the given bits.
    pub fn from_bits(bits: u8) -> (flags: DtStraightPathFlags)
        ensures
            flags.bits == bits,
    {
        DtStraightPathFlags { bits }
    }

    /// The raw bits.
    pub fn bits(&self) -> (bits: u8)
        ensures
            bits == self.bits,
    {
        self.bits
    }

    /// Whether every bit set in `other` is set in `self`.
    pub fn contains(&self, other: DtStraightPathFlags) -> (found: bool)
        ensures
            found == self.has(other.bits),
    {
        self.bits & other.bits == other.bits
    }

    /// Whether the vertex ends the path.
    pub fn is_end(&self) -> (found: bool)
        ensures
            found == self.ends_path(),
    {
        self.bits & DT_STRAIGHTPATH_END == DT_STRAIGHTPATH_END
    }

    /// Whether the vertex starts an off-mesh connection.
    pub fn is_offmesh_connection(&self) -> (found: bool)
        ensures
            found == self.leaves_mesh(),
    {
        self.bits & DT_STRAIGHTPATH_OFFMESH_CONNECTION == DT_STRAIGHTPATH_OFFMESH_CONNECTION
    }
}

} // verus!
