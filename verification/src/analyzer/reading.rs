//! Fixed-point measurements and the range mapping that every sub-score uses.

use vstd::prelude::*;

verus! {

/// One unit (1 dB, 1 LU, 1 LUFS, 1 point of score) in millionths.
pub const UNIT: i64 = 1_000_000;

/// A measurement in millionths of its unit. Silence is reported by the
/// analysis tool as infinite attenuation, so both infinities are values.
#[derive(Clone, Copy, Debug, PartialEq, Eq, Structural)]
pub enum Reading {
    NegInfinity,
    Finite(i64),
    PosInfinity,
}

/// `value` limited to the closed interval `[lo, hi]`.
pub open spec fn clamp_int(value: int, lo: int, hi: int) -> int {
    if value < lo {
        lo
    } else if value > hi {
        hi
    } else {
        value
    }
}

/// Linear interpolation of `value`, first limited to `[in_min, in_max]`, onto
/// the output range. A degenerate input range maps everything to `out_min`.
/// The interpolated offset is rounded toward `out_min`.
pub open spec fn map_score(value: int, in_min: int, in_max: int, out_min: int, out_max: int) -> int {
    if in_min == in_max {
        out_min
    } else {
        let offset = clamp_int(value, in_min, in_max) - in_min;
        let span = in_max - in_min;
        if out_max >= out_min {
            out_min + (offset * (out_max - out_min)) / span
        } else {
            out_min - (offset * (out_min - out_max)) / span
        }
    }
}

impl Reading {
    /// `self < bound` in the extended integers.
    pub open spec fn below(self, bound: int) -> bool {
        match self {
            Reading::NegInfinity => true,
            Reading::Finite(v) => v < bound,
            Reading::PosInfinity => false,
        }
    }

    /// `self > bound` in the extended integers.
    pub open spec fn above(self, bound: int) -> bool {
        match self {
            Reading::NegInfinity => false,
            Reading::Finite(v) => v > bound,
            Reading::PosInfinity => true,
        }
    }

    /// `lo <= self <= hi`.
    pub open spec fn within(self, lo: int, hi: int) -> bool {
        !self.below(lo) && !self.above(hi)
    }

    /// The value limited to `[lo, hi]`; an infinity lands on the nearer end.
    pub open spec fn clamped(self, lo: int, hi: int) -> int {
        match self {
            Reading::NegInfinity => lo,
            Reading::Finite(v) => clamp_int(v as int, lo, hi),
            Reading::PosInfinity => hi,
        }
    }

    /// Whether the reading is less than `bound`.
    pub fn is_below(&self, bound: i64) -> (b: bool)
        ensures
            b == self.below(bound as int),
    {
        match self {
            Reading::NegInfinity => true,
            Reading::Finite(v) => *v < bound,
            Reading::PosInfinity => false,
        }
    }

    /// Whether the reading is greater than `bound`.
    pub fn is_above(&self, bound: i64) -> (b: bool)
        ensures
            b == self.above(bound as int),
    {
        match self {
            Reading::NegInfinity => false,
            Reading::Finite(v) => *v > bound,
            Reading::PosInfinity => true,
        }
    }

    /// Whether the reading lies in `[lo, hi]`.
    pub fn is_within(&self, lo: i64, hi: i64) -> (b: bool)
        ensures
            b == self.within(lo as int, hi as int),
    {
        !self.is_below(lo) && !self.is_above(hi)
    }

    /// The reading limited to `[lo, hi]`.
    pub fn clamp_to(&self, lo: i64, hi: i64) -> (c: i64)
        requires
            lo <= hi,
        ensures
            c == self.clamped(lo as int, hi as int),
            lo <= c <= hi,
    {
        match self {
            Reading::NegInfinity => lo,
            Reading::Finite(v) => {
                if *v < lo {
                    lo
                } else if *v > hi {
                    hi
                } else {
                    *v
                }
            },
            Reading::PosInfinity => hi,
        }
    }
}

/// `offset * delta / span` never exceeds `delta` while `offset <= span`.
pub proof fn lemma_scaled_offset_bounds(offset: int, delta: int, span: int)
    by (nonlinear_arith)
    requires
        0 <= offset <= span,
        0 < span,
        0 <= delta,
    ensures
        0 <= (offset * delta) / span <= delta,
        offset == 0 ==> (offset * delta) / span == 0,
        offset == span ==> (offset * delta) / span == delta,
{
}

/// The scaled offset grows with the offset.
pub proof fn lemma_scaled_offset_monotonic(a: int, b: int, delta: int, span: int)
    by (nonlinear_arith)
    requires
        0 <= a <= b,
        0 < span,
        0 <= delta,
    ensures
        (a * delta) / span <= (b * delta) / span,
{
}

/// The mapped value always lies between the two output bounds.
pub proof fn lemma_map_score_range(value: int, in_min: int, in_max: int, out_min: int, out_max: int)
    requires
        in_min <= in_max,
    ensures
        out_min <= out_max ==> out_min <= map_score(value, in_min, in_max, out_min, out_max) <= out_max,
        out_max <= out_min ==> out_max <= map_score(value, in_min, in_max, out_min, out_max) <= out_min,
{
    if in_min < in_max {
        let offset = clamp_int(value, in_min, in_max) - in_min;
        let span = in_max - in_min;
        if out_max >= out_min {
            lemma_scaled_offset_bounds(offset, out_max - out_min, span);
        } else {
            lemma_scaled_offset_bounds(offset, out_min - out_max, span);
        }
    }
}

/// The range mapping at and beyond the ends of the input range: the lower end
/// and everything below it give `out_min`, the upper end and everything above
/// it give `out_max`, and a degenerate range gives `out_min` for every value.
pub proof fn lemma_map_score_endpoints(value: int, in_min: int, in_max: int, out_min: int, out_max: int)
    requires
        in_min <= in_max,
    ensures
        map_score(in_min, in_min, in_max, out_min, out_max) == out_min,
        in_min < in_max ==> map_score(in_max, in_min, in_max, out_min, out_max) == out_max,
        in_min == in_max ==> map_score(value, in_min, in_max, out_min, out_max) == out_min,
        map_score(value, in_min, in_max, out_min, out_max) == map_score(
            clamp_int(value, in_min, in_max),
            in_min,
            in_max,
            out_min,
            out_max,
        ),
        value <= in_min ==> map_score(value, in_min, in_max, out_min, out_max) == out_min,
        value >= in_max && in_min < in_max ==> map_score(value, in_min, in_max, out_min, out_max)
            == out_max,
{
    if in_min < in_max {
        let span = in_max - in_min;
        if out_max >= out_min {
            lemma_scaled_offset_bounds(0, out_max - out_min, span);
            lemma_scaled_offset_bounds(span, out_max - out_min, span);
        } else {
            lemma_scaled_offset_bounds(0, out_min - out_max, span);
            lemma_scaled_offset_bounds(span, out_min - out_max, span);
        }
    }
}

/// The range mapping never decreases in `value` when the output range
/// ascends, and never increases when it descends.
pub proof fn lemma_map_score_monotonic(a: int, b: int, in_min: int, in_max: int, out_min: int, out_max: int)
    requires
        in_min <= in_max,
        a <= b,
    ensures
        out_min <= out_max ==> map_score(a, in_min, in_max, out_min, out_max) <= map_score(
            b,
            in_min,
            in_max,
            out_min,
            out_max,
        ),
        out_max <= out_min ==> map_score(a, in_min, in_max, out_min, out_max) >= map_score(
            b,
            in_min,
            in_max,
            out_min,
            out_max,
        ),
{
    if in_min < in_max {
        let oa = clamp_int(a, in_min, in_max) - in_min;
        let ob = clamp_int(b, in_min, in_max) - in_min;
        let span = in_max - in_min;
        if out_max >= out_min {
            lemma_scaled_offset_monotonic(oa, ob, out_max - out_min, span);
            lemma_scaled_offset_bounds(oa, out_max - out_min, span);
            lemma_scaled_offset_bounds(ob, out_max - out_min, span);
        } else {
            lemma_scaled_offset_monotonic(oa, ob, out_min - out_max, span);
        }
    }
}

proof fn lemma_product_fits(a: int, b: int)
    by (nonlinear_arith)
    requires
        0 <= a < 0x1_0000_0000_0000_0000,
        0 <= b < 0x1_0000_0000_0000_0000,
    ensures
        0 <= a * b <= 0xffff_ffff_ffff_fffe_0000_0000_0000_0001,
{
}

/// Clamps `value` to `[in_min, in_max]` and interpolates it linearly onto
/// `[out_min, out_max]`.
pub fn map_to_score(value: i64, in_min: i64, in_max: i64, out_min: i64, out_max: i64) -> (mapped: i64)
    requires
        in_min <= in_max,
    ensures
        mapped == map_score(value as int, in_min as int, in_max as int, out_min as int, out_max as int),
{
    if in_min == in_max {
        return out_min;
    }
    let clamped: i64 = if value < in_min {
        in_min
    } else if value > in_max {
        in_max
    } else {
        value
    };
    let offset: u128 = (clamped as i128 - in_min as i128) as u128;
    let span: u128 = (in_max as i128 - in_min as i128) as u128;
    proof {
        lemma_map_score_range(value as int, in_min as int, in_max as int, out_min as int, out_max as int);
    }
    if out_max >= out_min {
        let delta: u128 = (out_max as i128 - out_min as i128) as u128;
        proof {
            lemma_product_fits(offset as int, delta as int);
            lemma_scaled_offset_bounds(offset as int, delta as int, span as int);
        }
        let scaled: u128 = offset * delta / span;
        (out_min as i128 + scaled as i128) as i64
    } else {
        let delta: u128 = (out_min as i128 - out_max as i128) as u128;
        proof {
            lemma_product_fits(offset as int, delta as int);
            lemma_scaled_offset_bounds(offset as int, delta as int, span as int);
        }
        let scaled: u128 = offset * delta / span;
        (out_min as i128 - scaled as i128) as i64
    }
}

impl Reading {
    /// The reading, limited to the input range, mapped onto the output range.
    pub open spec fn mapped(self, in_min: int, in_max: int, out_min: int, out_max: int) -> int {
        map_score(self.clamped(in_min, in_max), in_min, in_max, out_min, out_max)
    }

    /// Maps the reading from the input range onto the output range.
    pub fn map_to(&self, in_min: i64, in_max: i64, out_min: i64, out_max: i64) -> (mapped: i64)
        requires
            in_min <= in_max,
        ensures
            mapped == self.mapped(in_min as int, in_max as int, out_min as int, out_max as int),
            out_min <= out_max ==> out_min <= mapped <= out_max,
            out_max <= out_min ==> out_max <= mapped <= out_min,
    {
        proof {
            lemma_map_score_range(
                self.clamped(in_min as int, in_max as int),
                in_min as int,
                in_max as int,
                out_min as int,
                out_max as int,
            );
        }
        map_to_score(self.clamp_to(in_min, in_max), in_min, in_max, out_min, out_max)
    }
}

} // verus!
