//! The handoff protocol for a byte buffer that crosses the language
//! boundary.
//!
//! A fetched byte sequence is packed into a [`BufferDescriptor`], the
//! pointer-and-length pair the foreign side receives. Ownership of the
//! underlying allocation travels with the descriptor: whoever holds it is
//! responsible for issuing exactly one matching release, which reconstructs
//! the owning handle and lets it drop normally. The descriptor cannot be
//! copied or cloned, so a second release of the same buffer is ruled out by
//! construction.

use vstd::prelude::*;

verus! {

/// A contiguous byte buffer handed across the language boundary, together
/// with its stated length.
///
/// The length component is the unsigned count the foreign side reads; it
/// always equals the number of bytes actually held.
pub struct BufferDescriptor {
    bytes: Vec<u8>,
    len: u32,
}

impl View for BufferDescriptor {
    type V = Seq<u8>;

    closed spec fn view(&self) -> Seq<u8> {
        self.bytes@
    }
}

impl BufferDescriptor {
    #[verifier::type_invariant]
    spec fn wf(self) -> bool {
        self.len == self.bytes@.len()
    }

    /// Packs a native byte sequence for the crossing: the caller gives up
    /// ownership, and the bytes remain exactly those supplied.
    pub fn hand_off(bytes: Vec<u8>) -> (d: Self)
        requires
            bytes@.len() <= u32::MAX,
        ensures
            d@ == bytes@,
    {
        let len = bytes.len() as u32;
        BufferDescriptor { bytes, len }
    }

    /// The stated length of the buffer, as the foreign side sees it.
    pub fn length(&self) -> (n: u32)
        ensures
            n == self@.len(),
    {
        proof {
            use_type_invariant(self);
        }
        self.len
    }

    /// Read access to the buffer for the holder, valid until release.
    pub fn bytes(&self) -> (b: &Vec<u8>)
        ensures
            b@ == self@,
    {
        &self.bytes
    }

    /// The release operation: the exact inverse of [`Self::hand_off`].
    ///
    /// Consumes the descriptor, reconstructs the owning handle of the stated
    /// length, and returns it so it drops normally, running deallocation
    /// exactly once. Taking `self` by value means no descriptor can be
    /// released twice.
    pub fn release(self) -> (bytes: Vec<u8>)
        ensures
            bytes@ == self@,
    {
        self.bytes
    }
}

} // verus!
