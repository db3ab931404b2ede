//! The pixel image a render pass produces.

use vstd::prelude::*;

verus! {

/// One rendered frame: `width * height` RGBA pixels, four bytes each.
/// A buffer is immutable once produced; a newer frame supersedes it, it is
/// never changed in place.
#[derive(Debug)]
pub struct FrameBuffer {
    pub width: u32,
    pub height: u32,
    pub pixels: Vec<u8>,
}

impl FrameBuffer {
    /// A well-formed buffer: a nonempty image whose byte length matches its
    /// dimensions exactly.
    pub open spec fn wf(self) -> bool {
        &&& 1 <= self.width
        &&& 1 <= self.height
        &&& self.pixels@.len() == self.width * self.height * 4
    }

    /// Builds a buffer from raw parts, checking that the dimensions are
    /// nonzero and that the byte length matches them; anything else is
    /// rejected.
    pub fn from_raw(width: u32, height: u32, pixels: Vec<u8>) -> (r: Option<FrameBuffer>)
        ensures
            match r {
                Some(fb) => fb.wf() && fb.width == width && fb.height == height && fb.pixels@
                    == pixels@,
                None => !(1 <= width && 1 <= height && pixels@.len() == width * height * 4),
            },
    {
        if width >= 1 && height >= 1 {
            let w: u64 = width as u64;
            let h: u64 = height as u64;
            proof {
                assert(w * h <= 0xffff_ffffu64 * 0xffff_ffffu64) by (nonlinear_arith)
                    requires
                        w <= 0xffff_ffff,
                        h <= 0xffff_ffff,
                ;
            }
            let expected: u128 = (w * h) as u128 * 4;
            if (pixels.len() as u128) == expected {
                Some(FrameBuffer { width, height, pixels })
            } else {
                None
            }
        } else {
            None
        }
    }

    /// Whether the buffer is well formed; a render pass re-checks this
    /// before caching anything the engine offered.
    pub fn is_wf(&self) -> (r: bool)
        ensures
            r == self.wf(),
    {
        if self.width >= 1 && self.height >= 1 {
            let w: u64 = self.width as u64;
            let h: u64 = self.height as u64;
            proof {
                assert(w * h <= 0xffff_ffffu64 * 0xffff_ffffu64) by (nonlinear_arith)
                    requires
                        w <= 0xffff_ffff,
                        h <= 0xffff_ffff,
                ;
            }
            let expected: u128 = (w * h) as u128 * 4;
            (self.pixels.len() as u128) == expected
        } else {
            false
        }
    }

    /// The pixel bytes, for the display path to copy byte for byte.
    pub fn bytes(&self) -> (r: &[u8])
        ensures
            r@ == self.pixels@,
    {
        self.pixels.as_slice()
    }
}

} // verus!
