//! The render target and how its size is taken from the window.

use vstd::prelude::*;

verus! {

/// The render target of one iteration.
#[derive(Clone, Copy, Debug, PartialEq, Eq)]
pub struct Frame {
    pub width: u16,
    pub height: u16,
}

/// The low sixteen bits of `n`, read as an unsigned number.
pub open spec fn low16(n: int) -> int {
    n % 0x10000
}

/// One side of the window, as the frame stores it: the low sixteen bits of the
/// reported size. Every size a window can have in practice is kept as it is.
pub fn dimension(size: i32) -> (d: u16)
    ensures
        d as int == low16(size as int),
        0 <= size < 0x10000 ==> d == size,
{
    let d: u16 = #[verifier::truncate] (size as u16);
    assert(size as u16 == (size & 0xffff) as u16) by (bit_vector);
    assert(0 <= size ==> (size & 0xffff) == size % 0x10000) by (bit_vector);
    assert(size < 0 ==> (size & 0xffff) == (size + 0x7fff_0000 + 0x10000) % 0x10000)
        by (bit_vector);
    d
}

/// The frame that covers a window of the reported size.
pub open spec fn window_frame(width: i32, height: i32) -> Frame {
    Frame { width: low16(width as int) as u16, height: low16(height as int) as u16 }
}

impl Frame {
    /// A frame of the given size.
    pub fn new(width: u16, height: u16) -> (frame: Frame)
        ensures
            frame == (Frame { width, height }),
    {
        Frame { width, height }
    }

    /// The frame that covers a window of the reported size.
    pub fn of_window(width: i32, height: i32) -> (frame: Frame)
        ensures
            frame == window_frame(width, height),
    {
        Frame::new(dimension(width), dimension(height))
    }
}

} // verus!
