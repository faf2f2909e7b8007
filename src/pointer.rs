use vstd::prelude::*;
use vstd::arithmetic::div_mod::{lemma_div_is_ordered, lemma_div_multiples_vanish};

verus! {

/// One unit of normalized window space: a pointer coordinate `c` stands for
/// the value `c / POINTER_UNIT` in `[0, 1]`.
pub const POINTER_UNIT: u32 = 65536;

/// A pointer position in normalized window space, in fixed point.
/// The vertical axis points up, the opposite of raw window coordinates.
#[derive(Clone, Copy, Debug, PartialEq, Eq, Structural)]
pub struct Pointer {
    pub x: u32,
    pub y: u32,
}

pub open spec fn clamp(v: int, lo: int, hi: int) -> int {
    if v < lo {
        lo
    } else if v > hi {
        hi
    } else {
        v
    }
}

/// `v / extent`, limited to `[0, 1]`, in units of `POINTER_UNIT`
/// (rounded down); an empty extent maps everything to zero.
pub open spec fn normalized(v: int, extent: int) -> int {
    if extent <= 0 {
        0
    } else {
        clamp(v, 0, extent) * POINTER_UNIT as int / extent
    }
}

impl Pointer {
    pub open spec fn well_formed(self) -> bool {
        self.x <= POINTER_UNIT && self.y <= POINTER_UNIT
    }

    /// The lower left corner, where a fresh session points.
    pub fn origin() -> (r: Pointer)
        ensures
            r.x == 0 && r.y == 0,
    {
        Pointer { x: 0, y: 0 }
    }

    /// Normalizes a raw window position `(x, y)` (origin at the top left)
    /// against a window of `width` by `height`: positions outside the window
    /// are brought to its edge, and the vertical axis is flipped.
    pub fn from_window(x: i64, y: i64, width: u32, height: u32) -> (r: Pointer)
        ensures
            r.x == normalized(x as int, width as int),
            r.y == normalized(height as int - y as int, height as int),
            r.well_formed(),
    {
        let fy: i64 = if y < 0 { 0 } else if y > height as i64 { height as i64 } else { y };
        Pointer {
            x: scale(x, width),
            y: scale(height as i64 - fy, height),
        }
    }
}

fn scale(v: i64, extent: u32) -> (r: u32)
    ensures
        r == normalized(v as int, extent as int),
        r <= POINTER_UNIT,
{
    if extent == 0 {
        return 0;
    }
    let c: u64 = if v < 0 { 0 } else if v > extent as i64 { extent as u64 } else { v as u64 };
    proof {
        let (ci, ei, u) = (c as int, extent as int, POINTER_UNIT as int);
        assert(ci * u <= ei * u) by (nonlinear_arith)
            requires ci <= ei, u > 0;
        lemma_div_is_ordered(ci * u, u * ei, ei);
        lemma_div_multiples_vanish(u, ei);
        assert(ei * u == u * ei) by (nonlinear_arith);
    }
    let q: u64 = c * (POINTER_UNIT as u64) / (extent as u64);
    q as u32
}

} // verus!
