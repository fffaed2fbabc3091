use vstd::prelude::*;

verus! {

/// A size in the plane, passed across the bridge by value.
///
/// Width and height are double-precision numbers. Each is carried here as the
/// 64 bits of that number, which is all that copying a size has to preserve.
#[derive(Clone, Copy, Debug, PartialEq, Eq, Structural)]
pub struct QSizeF {
    w: u64,
    h: u64,
}

impl QSizeF {
    /// The size whose width and height have the given bits.
    pub fn new(w: u64, h: u64) -> (s: QSizeF)
        ensures
            s.width_bits() == w,
            s.height_bits() == h,
    {
        QSizeF { w, h }
    }

    pub closed spec fn width_bits(&self) -> u64 {
        self.w
    }

    pub closed spec fn height_bits(&self) -> u64 {
        self.h
    }

    /// The bits of the width.
    pub fn width(&self) -> (w: u64)
        ensures
            w == self.width_bits(),
    {
        self.w
    }

    /// The bits of the height.
    pub fn height(&self) -> (h: u64)
        ensures
            h == self.height_bits(),
    {
        self.h
    }
}

} // verus!
