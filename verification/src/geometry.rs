//! Fixed-point geometry.
//!
//! Coordinates and lengths are carried as plain integers in thousandths of
//! a pixel (a point at x = 12.5 px has `x == 12500`), so that every
//! geometric rule of the pen can be stated and proved exactly. The hosting
//! process converts between its own floating-point surface coordinates and
//! these values at the boundary.

use vstd::prelude::*;

verus! {

/// Largest coordinate magnitude a stored vector may carry, in thousandths
/// of a pixel. All arithmetic on vectors is proved free of overflow under
/// this bound.
pub const COORD_LIMIT: i64 = 1_000_000_000;

/// A two-dimensional vector in thousandths of a pixel.
#[derive(Debug, Clone, Copy, PartialEq, Eq, Structural)]
pub struct FxVector {
    pub x: i64,
    pub y: i64,
}

impl FxVector {
    /// Both coordinates within [`COORD_LIMIT`].
    pub open spec fn wf(self) -> bool {
        -COORD_LIMIT <= self.x <= COORD_LIMIT && -COORD_LIMIT <= self.y <= COORD_LIMIT
    }

    /// Component-wise difference (exact: the difference of two well-formed
    /// vectors always fits).
    pub fn sub(self, other: FxVector) -> (r: FxVector)
        requires
            self.wf(),
            other.wf(),
        ensures
            r.x == self.x - other.x,
            r.y == self.y - other.y,
    {
        FxVector { x: self.x - other.x, y: self.y - other.y }
    }

    /// The squared length of this vector, in squared thousandths. Also
    /// accepts differences of two well-formed vectors, which may reach
    /// twice the coordinate bound.
    pub fn norm_squared(self) -> (r: u64)
        requires
            -2_000_000_000 <= self.x <= 2_000_000_000,
            -2_000_000_000 <= self.y <= 2_000_000_000,
        ensures
            r == self.x * self.x + self.y * self.y,
    {
        proof {
            assert(0 <= self.x * self.x <= 2_000_000_000i64 * 2_000_000_000i64)
                by (nonlinear_arith)
                requires
                    -2_000_000_000i64 <= self.x <= 2_000_000_000i64,
            ;
            assert(0 <= self.y * self.y <= 2_000_000_000i64 * 2_000_000_000i64)
                by (nonlinear_arith)
                requires
                    -2_000_000_000i64 <= self.y <= 2_000_000_000i64,
            ;
        }
        let xs = self.x * self.x;
        let ys = self.y * self.y;
        (xs as u64) + (ys as u64)
    }

    /// The length of this vector, rounded down to whole thousandths.
    pub fn magnitude(self) -> (r: u64)
        requires
            -2_000_000_000 <= self.x <= 2_000_000_000,
            -2_000_000_000 <= self.y <= 2_000_000_000,
        ensures
            r == spec_magnitude(self),
            is_isqrt((self.x * self.x + self.y * self.y) as nat, r as nat),
    {
        let sq = self.norm_squared();
        let root = isqrt64(sq);
        proof {
            lemma_isqrt_unique(sq as nat, root as nat, spec_isqrt(sq as nat));
        }
        root
    }
}

/// `v` forced into the [`COORD_LIMIT`] interval.
pub open spec fn spec_clamp_coord(v: int) -> int {
    if v < -COORD_LIMIT {
        -COORD_LIMIT as int
    } else if v > COORD_LIMIT {
        COORD_LIMIT as int
    } else {
        v
    }
}

/// Forces a computed coordinate back into the stored-coordinate range.
pub fn clamp_coord(v: i64) -> (r: i64)
    ensures
        r == spec_clamp_coord(v as int),
        -COORD_LIMIT <= r <= COORD_LIMIT,
{
    if v < -COORD_LIMIT {
        -COORD_LIMIT
    } else if v > COORD_LIMIT {
        COORD_LIMIT
    } else {
        v
    }
}

/// Whether `r` is the integer square root of `n`, rounded down.
pub open spec fn is_isqrt(n: nat, r: nat) -> bool {
    r * r <= n && n < (r + 1) * (r + 1)
}

/// The integer square root of `n`, rounded down.
pub open spec fn spec_isqrt(n: nat) -> nat {
    choose|r: nat| is_isqrt(n, r)
}

/// The rounded-down square root is unique.
pub proof fn lemma_isqrt_unique(n: nat, a: nat, b: nat)
    requires
        is_isqrt(n, a),
        is_isqrt(n, b),
    ensures
        a == b,
{
    if a < b {
        assert((a + 1) * (a + 1) <= b * b) by (nonlinear_arith)
            requires
                a + 1 <= b,
        ;
    }
    if b < a {
        assert((b + 1) * (b + 1) <= a * a) by (nonlinear_arith)
            requires
                b + 1 <= a,
        ;
    }
}

/// The length of this vector, rounded down to whole thousandths.
pub open spec fn spec_magnitude(v: FxVector) -> nat {
    spec_isqrt((v.x * v.x + v.y * v.y) as nat)
}

/// The integer square root of `n`, rounded down, by bisection.
pub fn isqrt64(n: u64) -> (r: u64)
    ensures
        is_isqrt(n as nat, r as nat),
        r == spec_isqrt(n as nat),
{
    let mut lo: u64 = 0;
    let mut hi: u64 = 4_294_967_295;
    proof {
        assert((4_294_967_295u64 + 1) * (4_294_967_295u64 + 1) > u64::MAX) by (nonlinear_arith);
    }
    while lo < hi
        invariant
            lo <= hi <= 4_294_967_295,
            lo * lo <= n,
            n < (hi + 1) * (hi + 1),
        decreases hi - lo,
    {
        let mid = lo + (hi - lo + 1) / 2;
        proof {
            assert(mid <= 4_294_967_295);
            assert(mid * mid <= 4_294_967_295u64 * 4_294_967_295u64) by (nonlinear_arith)
                requires
                    mid <= 4_294_967_295u64,
            ;
        }
        let sq = mid * mid;
        if sq <= n {
            lo = mid;
        } else {
            hi = mid - 1;
        }
    }
    proof {
        lemma_isqrt_unique(n as nat, lo as nat, spec_isqrt(n as nat));
    }
    lo
}

/// Millimetres from pixels at the given resolution, both in thousandths:
/// one inch is exactly 25.4 mm, so `mm = px * 127 / (5 * dpi)`, rounded
/// down.
pub open spec fn spec_px_to_mm(px: nat, dpi: nat) -> nat
    recommends
        dpi > 0,
{
    px * 127 / (dpi * 5)
}

/// Converts a length in thousandths of a pixel to thousandths of a
/// millimetre, rounding down (the fixed-point form of the engine's unit
/// conversion).
pub fn px_to_mm(px: u64, dpi: u32) -> (r: u64)
    requires
        1 <= dpi,
        px <= 100_000_000_000_000,
    ensures
        r == spec_px_to_mm(px as nat, dpi as nat),
{
    proof {
        assert(px * 127 <= 100_000_000_000_000u64 * 127) by (nonlinear_arith)
            requires
                px <= 100_000_000_000_000u64,
        ;
    }
    (px * 127) / ((dpi as u64) * 5)
}

/// Pixels from millimetres at the given resolution, both in thousandths:
/// `px = mm * dpi * 5 / 127`, rounded down.
pub open spec fn spec_mm_to_px(mm: nat, dpi: nat) -> nat {
    mm * (dpi * 5) / 127
}

/// Converts a length in thousandths of a millimetre to thousandths of a
/// pixel, rounding down.
pub fn mm_to_px(mm: u64, dpi: u32) -> (r: u64)
    requires
        dpi <= 100_000,
        mm <= 10_000_000_000,
    ensures
        r == spec_mm_to_px(mm as nat, dpi as nat),
{
    proof {
        assert(mm * ((dpi as u64) * 5) <= 10_000_000_000u64 * (100_000u64 * 5))
            by (nonlinear_arith)
            requires
                mm <= 10_000_000_000u64,
                dpi <= 100_000u32,
        ;
    }
    (mm * ((dpi as u64) * 5)) / 127
}

} // verus!
