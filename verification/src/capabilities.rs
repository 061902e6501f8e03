use vstd::prelude::*;

verus! {

/// The flag bit of a device that captures video.
pub open spec fn video_capture_bit() -> u32 {
    0x0000_0001
}

/// The flag bit of a device that captures metadata.
pub open spec fn meta_capture_bit() -> u32 {
    0x0100_0000
}

/// Every flag bit that has a meaning: those of video and of metadata capture.
pub open spec fn known_bits() -> u32 {
    0x0100_0001
}

/// The known bits are exactly the video-capture bit and the metadata-capture bit.
pub proof fn lemma_known_bits()
    ensures
        known_bits() == video_capture_bit() | meta_capture_bit(),
        video_capture_bit() & meta_capture_bit() == 0,
{
    assert(0x0100_0001u32 == 0x0000_0001u32 | 0x0100_0000u32) by (bit_vector);
    assert(0x0000_0001u32 & 0x0100_0000u32 == 0) by (bit_vector);
}

/// The capabilities of a video device, as a set of flag bits.
#[derive(Clone, Copy, Debug, PartialEq, Eq, Structural)]
pub struct CameraCapabilities {
    bits: u32,
}

impl CameraCapabilities {
    /// The flag bits.
    pub closed spec fn view(self) -> u32 {
        self.bits
    }

    /// The device captures video.
    pub fn video_capture() -> (c: CameraCapabilities)
        ensures
            c@ == video_capture_bit(),
    {
        CameraCapabilities { bits: 0x0000_0001 }
    }

    /// The device captures metadata.
    pub fn meta_capture() -> (c: CameraCapabilities)
        ensures
            c@ == meta_capture_bit(),
    {
        CameraCapabilities { bits: 0x0100_0000 }
    }

    /// No capability.
    pub fn empty() -> (c: CameraCapabilities)
        ensures
            c@ == 0,
    {
        CameraCapabilities { bits: 0 }
    }

    /// Every known capability.
    pub fn all() -> (c: CameraCapabilities)
        ensures
            c@ == known_bits(),
    {
        CameraCapabilities { bits: 0x0100_0001 }
    }

    /// The flag bits.
    pub fn bits(&self) -> (r: u32)
        ensures
            r == self@,
    {
        self.bits
    }

    /// The capabilities whose bits are set in `bits`, unknown bits dropped.
    pub fn from_bits_truncate(bits: u32) -> (c: CameraCapabilities)
        ensures
            c@ == bits & known_bits(),
    {
        CameraCapabilities { bits: bits & 0x0100_0001 }
    }

    /// Whether every capability of `other` is also in `self`.
    pub fn contains(&self, other: CameraCapabilities) -> (r: bool)
        ensures
            r == (self@ & other@ == other@),
    {
        self.bits & other.bits == other.bits
    }

    /// Whether `self` and `other` share a capability.
    pub fn intersects(&self, other: CameraCapabilities) -> (r: bool)
        ensures
            r == (self@ & other@ != 0),
    {
        self.bits & other.bits != 0
    }

    /// The capabilities of `self` and of `other` together.
    pub fn union(self, other: CameraCapabilities) -> (c: CameraCapabilities)
        ensures
            c@ == self@ | other@,
    {
        CameraCapabilities { bits: self.bits | other.bits }
    }

    /// Adds the capabilities of `other`.
    pub fn insert(&mut self, other: CameraCapabilities)
        ensures
            final(self)@ == old(self)@ | other@,
    {
        self.bits = self.bits | other.bits;
    }

    /// Removes the capabilities of `other`.
    pub fn remove(&mut self, other: CameraCapabilities)
        ensures
            final(self)@ == old(self)@ & !other@,
    {
        self.bits = self.bits & !other.bits;
    }
}

/// Capabilities are equal exactly when their bits are.
pub proof fn lemma_capabilities_determined_by_bits(a: CameraCapabilities, b: CameraCapabilities)
    ensures
        a@ == b@ <==> a == b,
{
}

/// After `insert`, the set contains what was inserted and everything it held.
pub proof fn lemma_insert_contains(a: u32, b: u32)
    ensures
        (a | b) & b == b,
        (a | b) & a == a,
{
    assert((a | b) & b == b) by (bit_vector);
    assert((a | b) & a == a) by (bit_vector);
}

/// After `remove`, the set shares nothing with what was removed.
pub proof fn lemma_remove_disjoint(a: u32, b: u32)
    ensures
        (a & !b) & b == 0,
{
    assert((a & !b) & b == 0) by (bit_vector);
}

} // verus!
