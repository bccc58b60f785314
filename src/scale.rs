use vstd::prelude::*;

verus! {

/// Lowest rating of the scale.
pub const RMIN: i32 = 1;

/// Highest rating of the scale.
pub const RMAX: i32 = 5;

/// Twice the midpoint of the scale, `R_max + R_min`; doubling keeps it whole.
pub open spec fn med2() -> int {
    RMAX + RMIN
}

/// Two ratings disagree when one lies strictly above the midpoint and the
/// other strictly below it.
pub open spec fn agree_spec(r1: int, r2: int) -> bool {
    !((2 * r1 > med2() && 2 * r2 < med2()) || (2 * r1 < med2() && 2 * r2 > med2()))
}

/// Whether two ratings of one item agree about the side of the midpoint.
pub fn agreement(r1: i32, r2: i32) -> (r: bool)
    ensures
        r == agree_spec(r1 as int, r2 as int),
{
    let m: i64 = RMAX as i64 + RMIN as i64;
    let a: i64 = 2 * r1 as i64;
    let b: i64 = 2 * r2 as i64;
    !((a > m && b < m) || (a < m && b > m))
}

/// Four times `R_med+ = (R_max + R_med) / 2`.
pub open spec fn medp4() -> int {
    2 * RMAX + med2()
}

/// Four times `R_med- = (R_med + R_min) / 2`.
pub open spec fn medm4() -> int {
    med2() + 2 * RMIN
}

/// The centre `(R_med+ + R_med-) / 2` of the agreement branch of the
/// proximity is the midpoint `R_med` itself (both sides taken four times).
pub proof fn lemma_centre_is_midpoint()
    ensures
        (medp4() + medm4()) / 2 == 2 * med2(),
        (medp4() + medm4()) % 2 == 0,
{
}

/// Absolute value on the integers.
pub open spec fn abs(x: int) -> int {
    if x < 0 {
        -x
    } else {
        x
    }
}

/// Width of the scale, `R_max - R_min`.
pub open spec fn width() -> int {
    RMAX - RMIN
}

/// A non-negative ratio `num / den`, kept exactly as computed (not reduced).
#[derive(Clone, Copy, Debug, PartialEq, Eq, Structural)]
pub struct Ratio {
    pub num: u128,
    pub den: u128,
}

/// The weight `δ` of the disagreement branch, in quarters: 3 when the
/// distance exceeds the midpoint, 2 when it equals it, 1 below it.
pub open spec fn delta_quarters(d: int) -> int {
    if 2 * d > med2() {
        3
    } else if 2 * d == med2() {
        2
    } else {
        1
    }
}

/// Numerator of the proximity of two ratings.
/// Agreeing: `((d - R_med) / W)^2 = (2d - 2R_med)^2 / (4 W^2)`, where
/// `(R_med+ + R_med-) / 2` equals `R_med`.
/// Disagreeing: `δ ((1/d) / W)^2 = (4δ) / (4 d^2 W^2)`.
pub open spec fn prox_num(r1: int, r2: int) -> int {
    let d = abs(r1 - r2);
    if agree_spec(r1, r2) {
        (2 * d - med2()) * (2 * d - med2())
    } else {
        delta_quarters(d)
    }
}

/// Denominator of the proximity of two ratings (see `prox_num`).
pub open spec fn prox_den(r1: int, r2: int) -> int {
    let d = abs(r1 - r2);
    if agree_spec(r1, r2) {
        4 * (width() * width())
    } else {
        4 * (d * d) * (width() * width())
    }
}

/// The proximity of two ratings as an exact ratio.
pub open spec fn proximity_spec(r1: int, r2: int) -> Ratio {
    Ratio { num: prox_num(r1, r2) as u128, den: prox_den(r1, r2) as u128 }
}

/// Disagreeing ratings are never equal, so the disagreement branch of the
/// proximity never divides by a zero distance.
pub proof fn lemma_disagree_apart(r1: int, r2: int)
    requires
        !agree_spec(r1, r2),
    ensures
        abs(r1 - r2) > 0,
{
}

/// Proximity of two ratings of one item: how close they are, weighted by
/// whether they agree.
pub fn proximity(r1: i32, r2: i32) -> (p: Ratio)
    ensures
        p == proximity_spec(r1 as int, r2 as int),
        p.num as int == prox_num(r1 as int, r2 as int),
        p.den as int == prox_den(r1 as int, r2 as int),
        p.den > 0,
{
    let diff: i128 = r1 as i128 - r2 as i128;
    let d: i128 = if diff < 0 {
        -diff
    } else {
        diff
    };
    let w: i128 = RMAX as i128 - RMIN as i128;
    let m: i128 = RMAX as i128 + RMIN as i128;
    assert(0 <= d < 0x1_0000_0000);
    assert(d == abs(r1 as int - r2 as int));
    assert(w == width() && w * w == 16);
    if agreement(r1, r2) {
        let t: i128 = 2 * d - m;
        assert(0 <= t * t < 0x1_0000_0000_0000_0000_0) by (nonlinear_arith)
            requires
                -0x2_0000_0000 < t < 0x2_0000_0000,
        ;
        Ratio { num: (t * t) as u128, den: (4 * w * w) as u128 }
    } else {
        proof {
            lemma_disagree_apart(r1 as int, r2 as int);
        }
        let k: u128 = if 2 * d > m {
            3
        } else if 2 * d == m {
            2
        } else {
            1
        };
        assert(0 < d * d < 0x1_0000_0000_0000_0000) by (nonlinear_arith)
            requires
                0 < d < 0x1_0000_0000,
        ;
        Ratio { num: k, den: (4 * (d * d) * (w * w)) as u128 }
    }
}

/// Twice the offset of a rating from the midpoint, plus two: `2 (|r - R_med| + 1)`.
pub open spec fn extremity2(r: int) -> int {
    abs(2 * r - med2()) + 2
}

/// The impact of two ratings. Both variants carry `q = 1 / (a b)`, where
/// `a = |r1 - R_med| + 1` and `b = |r2 - R_med| + 1`.
#[derive(Clone, Copy, Debug, PartialEq, Eq, Structural)]
pub enum Impact {
    /// Agreeing ratings: the impact is `exp(-q)`.
    Damped(Ratio),
    /// Disagreeing ratings: the impact is `q` itself.
    Direct(Ratio),
}

impl Impact {
    /// The ratio `q` that the impact is computed from.
    pub open spec fn base(self) -> Ratio {
        match self {
            Impact::Damped(q) => q,
            Impact::Direct(q) => q,
        }
    }

    /// Whether the impact is `exp(-q)` rather than `q`.
    pub open spec fn damped(self) -> bool {
        self is Damped
    }
}

/// `1 / (a b)` written as `4 / ((2a) (2b))`.
pub open spec fn impact_base(r1: int, r2: int) -> Ratio {
    Ratio { num: 4, den: (extremity2(r1) * extremity2(r2)) as u128 }
}

/// The impact of two ratings.
pub open spec fn impact_spec(r1: int, r2: int) -> Impact {
    if agree_spec(r1, r2) {
        Impact::Damped(impact_base(r1, r2))
    } else {
        Impact::Direct(impact_base(r1, r2))
    }
}

/// Impact of two ratings of one item: how far from the midpoint they lie.
pub fn impact(r1: i32, r2: i32) -> (i: Impact)
    ensures
        i == impact_spec(r1 as int, r2 as int),
        i.damped() == agree_spec(r1 as int, r2 as int),
        i.base().num == 4,
        i.base().den as int == extremity2(r1 as int) * extremity2(r2 as int),
        i.base().den > 0,
{
    let m: i128 = RMAX as i128 + RMIN as i128;
    let t1: i128 = 2 * r1 as i128 - m;
    let t2: i128 = 2 * r2 as i128 - m;
    let a: i128 = if t1 < 0 {
        -t1
    } else {
        t1
    } + 2;
    let b: i128 = if t2 < 0 {
        -t2
    } else {
        t2
    } + 2;
    assert(0 < a * b < 0x1_0000_0000_0000_0000_0) by (nonlinear_arith)
        requires
            0 < a < 0x2_0000_0000,
            0 < b < 0x2_0000_0000,
    ;
    let q = Ratio { num: 4, den: (a * b) as u128 };
    if agreement(r1, r2) {
        Impact::Damped(q)
    } else {
        Impact::Direct(q)
    }
}

/// An item's average rating `r`, held as its floor and its ceiling. A whole
/// rating `x` lies above the average exactly when `x > floor`, and below it
/// exactly when `x < ceil`. An average that no rating is above or below (one
/// that is not a number) is held as `floor = i64::MAX`, `ceil = i64::MIN`.
#[derive(Clone, Copy, Debug, PartialEq, Eq, Structural)]
pub struct ItemAverage {
    pub floor: i64,
    pub ceil: i64,
}

impl ItemAverage {
    /// Whether a rating lies strictly above the average.
    pub open spec fn above(self, r: int) -> bool {
        r > self.floor
    }

    /// Whether a rating lies strictly below the average.
    pub open spec fn below(self, r: int) -> bool {
        r < self.ceil
    }
}

/// The popularity of two ratings against the item's average `r`.
#[derive(Clone, Copy, Debug, PartialEq, Eq, Structural)]
pub enum Popularity {
    /// The ratings straddle or touch the average: `log10(2)`.
    Baseline,
    /// Both ratings lie on one side of the average; the value held is
    /// `s = r1 + r2`, and the popularity is `log10(2 + (s / 2 - r)^2)`.
    Spread(i64),
}

/// Whether both ratings lie strictly on one side of the average.
pub open spec fn same_side(r1: int, r2: int, a: ItemAverage) -> bool {
    (a.above(r1) && a.above(r2)) || (a.below(r1) && a.below(r2))
}

/// The popularity of two ratings against an item average.
pub open spec fn popularity_spec(r1: int, r2: int, a: ItemAverage) -> Popularity {
    if same_side(r1, r2, a) {
        Popularity::Spread((r1 + r2) as i64)
    } else {
        Popularity::Baseline
    }
}

/// Popularity of two ratings of one item against the item's average.
pub fn popularity(r1: i32, r2: i32, avg: &ItemAverage) -> (p: Popularity)
    ensures
        p == popularity_spec(r1 as int, r2 as int, *avg),
        same_side(r1 as int, r2 as int, *avg) ==> p == Popularity::Spread(
            (r1 + r2) as i64,
        ),
        !same_side(r1 as int, r2 as int, *avg) ==> p == Popularity::Baseline,
{
    let x1: i64 = r1 as i64;
    let x2: i64 = r2 as i64;
    if (x1 > avg.floor && x2 > avg.floor) || (x1 < avg.ceil && x2 < avg.ceil) {
        Popularity::Spread(x1 + x2)
    } else {
        Popularity::Baseline
    }
}

} // verus!
