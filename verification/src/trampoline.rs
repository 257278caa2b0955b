//! The boundary-crossing pair: a fetch operation that invokes the native
//! supplier and emits a buffer per the handoff protocol, and the matching
//! release operation.
//!
//! The foreign side reaches these through raw addresses fixed at
//! registration time; the raw-pointer crossing itself stands outside this
//! library. Here the supplier is a function value, the identifier has
//! already been decoded per [`crate::ident`], and each fetch produces a
//! descriptor whose bytes are exactly one possible output of the supplier
//! on the given identifier.

use vstd::prelude::*;

use crate::buffer::BufferDescriptor;

verus! {

/// Whether `supplier` may be invoked on `id` and every byte sequence it can
/// hand back fits the descriptor's unsigned length count.
pub open spec fn supplier_ok<F: Fn(&str) -> Vec<u8>>(supplier: F, id: &str) -> bool {
    &&& call_requires(supplier, (id,))
    &&& forall|out: Vec<u8>| #[trigger]
        call_ensures(supplier, (id,), out) ==> out@.len() <= u32::MAX
}

/// The fetch trampoline: invoke the native supplier on the decoded
/// identifier and hand its byte sequence off. The descriptor's bytes are
/// exactly what the supplier produced for this call — nothing truncated,
/// nothing reordered, nothing retained.
pub fn get_data<F: Fn(&str) -> Vec<u8>>(supplier: &F, id: &str) -> (d: BufferDescriptor)
    requires
        supplier_ok(*supplier, id),
    ensures
        exists|out: Vec<u8>| #[trigger]
            call_ensures(*supplier, (id,), out) && d@ == out@,
{
    let bytes = supplier(id);
    BufferDescriptor::hand_off(bytes)
}

/// The release trampoline: reconstruct the owning handle from a descriptor
/// previously produced by [`get_data`] and let it drop normally. Consuming
/// the descriptor by value makes a second release of the same buffer
/// impossible.
pub fn free_data(d: BufferDescriptor) -> (owned: Vec<u8>)
    ensures
        owned@ == d@,
{
    d.release()
}

} // verus!
