//! The provider adapter: the foreign-side object that serves one image
//! request by bridging it to the trampoline pair.
//!
//! An adapter is constructed once per registration and holds the native
//! supplier for its full lifetime. Each request is an independent cycle:
//! fetch a buffer from the supplier, let the rendering pipeline's decoder
//! observe exactly those bytes, release the buffer exactly once, and hand
//! back the decoded image — or the empty default when decoding fails, which
//! is absorbed here and never escapes as a fault.

use vstd::prelude::*;

use crate::buffer::BufferDescriptor;
use crate::pixel::PixelBuffer;
use crate::trampoline;
use crate::trampoline::supplier_ok;

verus! {

/// Whether `decoder` may be handed any byte sequence to decode.
pub open spec fn decoder_ok<D: Fn(&Vec<u8>) -> Option<PixelBuffer>>(decoder: D) -> bool {
    forall|b: &Vec<u8>| #[trigger] call_requires(decoder, (b,))
}

/// One adapter per registered provider name, holding the native supplier
/// for the lifetime of the registry that owns it.
pub struct ProviderAdapter<F> {
    supplier: F,
}

impl<F> ProviderAdapter<F> {
    /// The native supplier this adapter was registered with.
    pub closed spec fn spec_supplier(self) -> F {
        self.supplier
    }

    /// Construction stores the supplier and does nothing else.
    pub fn new(supplier: F) -> (a: Self)
        ensures
            a.spec_supplier() == supplier,
    {
        ProviderAdapter { supplier }
    }
}

impl<F: Fn(&str) -> Vec<u8>> ProviderAdapter<F> {
    /// Serves one image request: fetch the supplier's bytes for `id`, have
    /// `decoder` observe exactly those bytes, release the buffer, and
    /// return the decoded image — the empty default when decoding fails.
    ///
    /// The requested target size is accepted for the pipeline's sake and
    /// ignored: the supplier always materializes the full image.
    ///
    /// The contract ties one supplier output to the whole cycle: the bytes
    /// the decoder observes are byte-for-byte the bytes the supplier
    /// produced for `id` in this call, a decoded image is returned as the
    /// decoder produced it, and a failed decode yields the empty image and
    /// no fault.
    pub fn request_pixmap<D: Fn(&Vec<u8>) -> Option<PixelBuffer>>(
        &self,
        id: &str,
        _requested_size: Option<(u32, u32)>,
        decoder: &D,
    ) -> (r: PixelBuffer)
        requires
            supplier_ok(self.spec_supplier(), id),
            decoder_ok(*decoder),
        ensures
            exists|bytes: Vec<u8>|
                #![trigger call_ensures(self.spec_supplier(), (id,), bytes)]
                {
                    &&& call_ensures(self.spec_supplier(), (id,), bytes)
                    &&& exists|observed: Vec<u8>, dec: Option<PixelBuffer>|
                        {
                            &&& observed@ == bytes@
                            &&& #[trigger] call_ensures(*decoder, (&observed,), dec)
                            &&& match dec {
                                Some(image) => r == image,
                                None => r.is_empty() && r@ == Seq::<u32>::empty(),
                            }
                        }
                },
    {
        let descriptor: BufferDescriptor = trampoline::get_data(&self.supplier, id);
        let decoded: Option<PixelBuffer> = decoder(descriptor.bytes());
        let _owned: Vec<u8> = trampoline::free_data(descriptor);
        match decoded {
            Some(image) => image,
            None => PixelBuffer::empty(),
        }
    }
}

} // verus!
