use vstd::prelude::*;

verus! {

/// A point in the plane, passed across the bridge by value.
///
/// Each coordinate is a double-precision number. It is carried here as the 64
/// bits of that number, which is all that copying a point has to preserve.
#[derive(Clone, Copy, Debug, PartialEq, Eq, Structural)]
pub struct QPointF {
    x: u64,
    y: u64,
}

impl QPointF {
    /// The point whose coordinates have the given bits.
    pub fn new(x: u64, y: u64) -> (p: QPointF)
        ensures
            p.x_bits() == x,
            p.y_bits() == y,
    {
        QPointF { x, y }
    }

    pub closed spec fn x_bits(&self) -> u64 {
        self.x
    }

    pub closed spec fn y_bits(&self) -> u64 {
        self.y
    }

    /// The bits of the horizontal coordinate.
    pub fn x(&self) -> (x: u64)
        ensures
            x == self.x_bits(),
    {
        self.x
    }

    /// The bits of the vertical coordinate.
    pub fn y(&self) -> (y: u64)
        ensures
            y == self.y_bits(),
    {
        self.y
    }
}

} // verus!
