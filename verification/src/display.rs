//! Host-side frame presentation types: a sized pixel buffer and the
//! interface a display back end implements.

use vstd::prelude::*;

verus! {

/// A width-by-height buffer of one byte per pixel (DMG pixels carry
/// four possible colours).
pub struct DisplayBuf {
    pub width: u16,
    pub height: u16,
    pub frame: Vec<u8>,
}

impl DisplayBuf {
    /// A dark buffer of the given size.
    pub fn new(width: u16, height: u16) -> (r: Self)
        ensures
            r.width == width,
            r.height == height,
            r.frame@.len() == width * height,
            forall|i: int| 0 <= i < r.frame@.len() ==> r.frame@[i] == 0u8,
    {
        Self { width, height, frame: Self::alloc_buf(width, height) }
    }

    /// A fresh dark buffer with this buffer's dimensions.
    pub fn new_from_this(&self) -> (r: Self)
        ensures
            r.width == self.width,
            r.height == self.height,
            r.frame@.len() == self.width * self.height,
            forall|i: int| 0 <= i < r.frame@.len() ==> r.frame@[i] == 0u8,
    {
        Self {
            width: self.width,
            height: self.height,
            frame: Self::alloc_buf(self.width, self.height),
        }
    }

    /// Zeroed backing storage for a buffer of the given size.
    fn alloc_buf(width: u16, height: u16) -> (v: Vec<u8>)
        ensures
            v@.len() == width * height,
            forall|i: int| 0 <= i < v@.len() ==> v@[i] == 0u8,
    {
        proof {
            assert(width * height <= 0xFFFF * 0xFFFF) by (nonlinear_arith)
                requires width <= 0xFFFF && height <= 0xFFFF;
        }
        let buf_sz: usize = (width as usize) * (height as usize);
        crate::util::zero_vec(buf_sz)
    }
}

/// A display back end: somewhere for finished frames to go.
pub trait Renderer where Self: Sized {
    /// Create a back end with a screen of the given size, if the
    /// environment allows one.
    fn new(width: u16, height: u16) -> Option<Self>;

    /// Present the current buffer; reports whether the frame was
    /// accepted.
    fn update(&mut self) -> bool;

    /// The buffer the next frame should be drawn into.
    fn buffer_mut(&mut self) -> &mut DisplayBuf;
}

/// A back end that swallows every frame.
pub struct NullRenderer {
    pub buffer: DisplayBuf,
}

impl Renderer for NullRenderer {
    fn new(width: u16, height: u16) -> Option<Self> {
        Some(Self { buffer: DisplayBuf::new(width, height) })
    }

    fn update(&mut self) -> bool {
        true
    }

    fn buffer_mut(&mut self) -> &mut DisplayBuf {
        &mut self.buffer
    }
}

} // verus!
