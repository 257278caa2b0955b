//! The pixel representation the provider adapter hands back to the
//! rendering pipeline.
//!
//! The bridge itself decodes no image format; the rendering pipeline does
//! that. This type only carries the outcome: a width, a height, and one
//! packed color value per pixel in row-major order. A failed decode
//! degrades to the empty image, never to a fault.

use vstd::prelude::*;

verus! {

/// A fully materialized pixel buffer: `width * height` packed color values
/// in row-major order.
pub struct PixelBuffer {
    width: u32,
    height: u32,
    pixels: Vec<u32>,
}

impl View for PixelBuffer {
    type V = Seq<u32>;

    closed spec fn view(&self) -> Seq<u32> {
        self.pixels@
    }
}

impl PixelBuffer {
    #[verifier::type_invariant]
    spec fn wf(self) -> bool {
        self.pixels@.len() == self.width * self.height
    }

    pub closed spec fn spec_width(self) -> u32 {
        self.width
    }

    pub closed spec fn spec_height(self) -> u32 {
        self.height
    }

    /// The blank placeholder a request degrades to when decoding fails.
    pub open spec fn is_empty(self) -> bool {
        self.spec_width() == 0 && self.spec_height() == 0
    }

    /// The empty default image: no dimensions, no pixels.
    pub fn empty() -> (r: Self)
        ensures
            r.is_empty(),
            r@ == Seq::<u32>::empty(),
    {
        PixelBuffer { width: 0, height: 0, pixels: Vec::new() }
    }

    /// A materialized image of the given dimensions and pixel values.
    pub fn new(width: u32, height: u32, pixels: Vec<u32>) -> (r: Self)
        requires
            pixels@.len() == width * height,
        ensures
            r.spec_width() == width,
            r.spec_height() == height,
            r@ == pixels@,
    {
        PixelBuffer { width, height, pixels }
    }

    pub fn width(&self) -> (r: u32)
        ensures
            r == self.spec_width(),
    {
        self.width
    }

    pub fn height(&self) -> (r: u32)
        ensures
            r == self.spec_height(),
    {
        self.height
    }

    /// The packed pixel values, row-major, `width * height` of them.
    pub fn pixels(&self) -> (r: &Vec<u32>)
        ensures
            r@ == self@,
            r@.len() == self.spec_width() * self.spec_height(),
    {
        proof {
            use_type_invariant(self);
        }
        &self.pixels
    }
}

} // verus!
