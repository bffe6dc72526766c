//! The arithmetic of downscaling: the ratio by which an image shrinks and the
//! dimensions that come out of it.

use vstd::prelude::*;

verus! {

/// Longest edge, in pixels, that a stored capture may have.
pub const MAX_IMAGE_DIM: u32 = 1280;

/// The larger of two edge lengths.
pub open spec fn longer_edge(width: nat, height: nat) -> nat {
    if width >= height {
        width
    } else {
        height
    }
}

/// `length * numerator / denominator`, rounded to the nearest integer with
/// halves rounded up, and never less than one pixel.
pub open spec fn scaled_dimension(length: nat, numerator: nat, denominator: nat) -> nat
    recommends
        denominator > 0,
{
    let rounded = (2 * length * numerator + denominator) / (2 * denominator);
    if rounded < 1 {
        1
    } else {
        rounded as nat
    }
}

/// A fraction of two natural numbers: what a `ScaleFactor` stands for.
pub struct Ratio {
    pub numerator: nat,
    pub denominator: nat,
}

impl Ratio {
    /// The ratio of an image that was left as it is.
    pub open spec fn one() -> Ratio {
        Ratio { numerator: 1, denominator: 1 }
    }

    /// Whether the ratio is exactly one.
    pub open spec fn is_one(self) -> bool {
        self.numerator == self.denominator
    }

    /// The length that an edge of `length` pixels has after scaling.
    pub open spec fn apply(self, length: nat) -> nat {
        scaled_dimension(length, self.numerator, self.denominator)
    }
}

/// The ratio by which both dimensions of an image were multiplied, kept as
/// the exact fraction it was computed from.
#[derive(Clone, Copy, Debug, PartialEq, Eq, Structural)]
pub struct ScaleFactor {
    numerator: u32,
    denominator: u32,
}

impl View for ScaleFactor {
    type V = Ratio;

    closed spec fn view(&self) -> Ratio {
        Ratio { numerator: self.numerator as nat, denominator: self.denominator as nat }
    }
}

impl ScaleFactor {
    /// A denominator of zero stands for no ratio at all, and no ratio enlarges.
    #[verifier::type_invariant]
    pub closed spec fn well_formed(self) -> bool {
        0 < self.denominator && self.numerator <= self.denominator
    }

    /// The ratio of an image that was left as it is.
    pub fn identity() -> (out: ScaleFactor)
        ensures
            out@ == Ratio::one(),
    {
        ScaleFactor { numerator: 1, denominator: 1 }
    }

    /// The ratio `limit / edge` by which an edge of `edge` pixels shrinks to
    /// `limit` pixels, or no ratio where the edge is within the limit already.
    pub fn shrinking(limit: u32, edge: u32) -> (out: Option<ScaleFactor>)
        ensures
            out is Some <==> edge > limit,
            out matches Some(factor) ==> factor@ == (Ratio {
                numerator: limit as nat,
                denominator: edge as nat,
            }),
    {
        if edge > limit {
            Some(ScaleFactor { numerator: limit, denominator: edge })
        } else {
            None
        }
    }

    /// The upper part of the fraction.
    pub fn numerator(&self) -> (out: u32)
        ensures
            out == self@.numerator,
            out <= self@.denominator,
    {
        proof {
            use_type_invariant(self);
        }
        self.numerator
    }

    /// The lower part of the fraction; never zero.
    pub fn denominator(&self) -> (out: u32)
        ensures
            out == self@.denominator,
            out > 0,
    {
        proof {
            use_type_invariant(self);
        }
        self.denominator
    }

    /// Whether the ratio is exactly one.
    pub fn is_unscaled(&self) -> (out: bool)
        ensures
            out == self@.is_one(),
    {
        self.numerator == self.denominator
    }

    /// The length that an edge of `length` pixels has after scaling.
    pub fn apply(&self, length: u32) -> (out: u32)
        ensures
            out == self@.apply(length as nat),
            1 <= out,
            length >= 1 ==> out <= length,
    {
        proof {
            use_type_invariant(self);
            lemma_scaled_dimension_bounds(
                length as nat,
                self.numerator as nat,
                self.denominator as nat,
            );
        }
        let wide_length: u128 = length as u128;
        let wide_numerator: u128 = self.numerator as u128;
        let wide_denominator: u128 = self.denominator as u128;
        assert(2 * wide_length * wide_numerator <= 2 * 0xffff_ffff * 0xffff_ffff)
            by (nonlinear_arith)
            requires
                wide_length <= 0xffff_ffff,
                wide_numerator <= 0xffff_ffff,
        ;
        let rounded: u128 = (2 * wide_length * wide_numerator + wide_denominator) / (2
            * wide_denominator);
        if rounded < 1 {
            1
        } else {
            rounded as u32
        }
    }
}

/// A scaled edge is at least one pixel, and with a ratio of at most one it is
/// no longer than the edge it came from.
pub proof fn lemma_scaled_dimension_bounds(length: nat, numerator: nat, denominator: nat)
    requires
        0 < denominator,
        numerator <= denominator,
    ensures
        1 <= scaled_dimension(length, numerator, denominator),
        length >= 1 ==> scaled_dimension(length, numerator, denominator) <= length,
        (2 * length * numerator + denominator) / (2 * denominator) <= length,
{
    let top = 2 * length * numerator + denominator;
    let bottom = 2 * denominator;
    assert(top < bottom * (length + 1)) by (nonlinear_arith)
        requires
            top == 2 * length * numerator + denominator,
            bottom == 2 * denominator,
            0 < denominator,
            numerator <= denominator,
    ;
    assert(top / bottom <= length) by (nonlinear_arith)
        requires
            top < bottom * (length + 1),
            0 < bottom,
            0 <= top,
    ;
}

/// A longer edge scales to a length that is at least that of a shorter one.
pub proof fn lemma_scaled_dimension_monotonic(
    shorter: nat,
    longer: nat,
    numerator: nat,
    denominator: nat,
)
    requires
        0 < denominator,
        shorter <= longer,
    ensures
        scaled_dimension(shorter, numerator, denominator) <= scaled_dimension(
            longer,
            numerator,
            denominator,
        ),
{
    let low = 2 * shorter * numerator + denominator;
    let high = 2 * longer * numerator + denominator;
    let bottom = 2 * denominator;
    assert(low <= high) by (nonlinear_arith)
        requires
            low == 2 * shorter * numerator + denominator,
            high == 2 * longer * numerator + denominator,
            shorter <= longer,
    ;
    assert(low / bottom <= high / bottom) by (nonlinear_arith)
        requires
            0 <= low <= high,
            0 < bottom,
    ;
}

/// The edge that the ratio was computed from scales to the limit exactly.
pub proof fn lemma_longer_edge_scales_to_limit(limit: nat, edge: nat)
    requires
        1 <= limit,
        0 < edge,
    ensures
        scaled_dimension(edge, limit, edge) == limit,
{
    let top = 2 * edge * limit + edge;
    let bottom = 2 * edge;
    assert(top / bottom == limit) by (nonlinear_arith)
        requires
            top == 2 * edge * limit + edge,
            bottom == 2 * edge,
            0 < edge,
            1 <= limit,
    ;
}

/// Scaling an image whose longer edge exceeds the limit brings that edge to
/// the limit and keeps the other edge between one pixel and the limit.
pub proof fn lemma_scaled_image_fits(width: nat, height: nat, limit: nat)
    requires
        1 <= limit,
        longer_edge(width, height) > limit,
    ensures
        longer_edge(
            scaled_dimension(width, limit, longer_edge(width, height)),
            scaled_dimension(height, limit, longer_edge(width, height)),
        ) == limit,
        1 <= scaled_dimension(width, limit, longer_edge(width, height)),
        1 <= scaled_dimension(height, limit, longer_edge(width, height)),
{
    let edge = longer_edge(width, height);
    lemma_longer_edge_scales_to_limit(limit, edge);
    lemma_scaled_dimension_monotonic(width, edge, limit, edge);
    lemma_scaled_dimension_monotonic(height, edge, limit, edge);
}

} // verus!
