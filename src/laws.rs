use vstd::prelude::*;
use crate::mpip::{mpip_spec, term_spec};
use crate::scale::{
    abs, agree_spec, extremity2, impact_spec, popularity_spec, prox_den, prox_num,
    proximity_spec, same_side, Impact, ItemAverage, Popularity, Ratio,
};

verus! {

/// Agreement does not depend on the order of the two ratings.
pub proof fn lemma_agreement_symmetric(r1: int, r2: int)
    ensures
        agree_spec(r1, r2) == agree_spec(r2, r1),
{
}

/// Proximity does not depend on the order of the two ratings.
pub proof fn lemma_proximity_symmetric(r1: int, r2: int)
    ensures
        prox_num(r1, r2) == prox_num(r2, r1),
        prox_den(r1, r2) == prox_den(r2, r1),
        proximity_spec(r1, r2) == proximity_spec(r2, r1),
{
    assert(abs(r1 - r2) == abs(r2 - r1));
}

/// Impact does not depend on the order of the two ratings.
pub proof fn lemma_impact_symmetric(r1: int, r2: int)
    ensures
        impact_spec(r1, r2) == impact_spec(r2, r1),
{
    assert(extremity2(r1) * extremity2(r2) == extremity2(r2) * extremity2(r1)) by (nonlinear_arith);
}

/// Popularity does not depend on the order of the two ratings.
pub proof fn lemma_popularity_symmetric(r1: int, r2: int, a: ItemAverage)
    ensures
        popularity_spec(r1, r2, a) == popularity_spec(r2, r1, a),
{
}

/// Swapping the two users leaves every per-item factor of the MPIP
/// similarity, and so the similarity itself, unchanged; unaligned vectors
/// are refused either way.
pub proof fn lemma_mpip_symmetric(u1: Seq<i32>, u2: Seq<i32>, avg: Seq<ItemAverage>)
    ensures
        mpip_spec(u1, u2, avg) == mpip_spec(u2, u1, avg),
{
    if u1.len() == u2.len() && u1.len() == avg.len() {
        assert forall|i: int| 0 <= i < u1.len() implies term_spec(u1[i] as int, u2[i] as int, avg[i])
            == term_spec(u2[i] as int, u1[i] as int, avg[i]) by {
            lemma_proximity_symmetric(u1[i] as int, u2[i] as int);
            lemma_impact_symmetric(u1[i] as int, u2[i] as int);
            lemma_popularity_symmetric(u1[i] as int, u2[i] as int, avg[i]);
        }
        assert(Seq::new(u1.len(), |i: int| term_spec(u1[i] as int, u2[i] as int, avg[i]))
            =~= Seq::new(u2.len(), |i: int| term_spec(u2[i] as int, u1[i] as int, avg[i])));
    }
}

/// Disagreeing ratings are apart, so the disagreement branch of the
/// proximity has a positive distance to divide by.
pub proof fn lemma_disagreement_has_distance(r1: int, r2: int)
    ensures
        !agree_spec(r1, r2) ==> abs(r1 - r2) > 0,
        !agree_spec(r1, r2) ==> prox_den(r1, r2) > 0,
{
    if !agree_spec(r1, r2) {
        let d = abs(r1 - r2);
        assert(d * d > 0) by (nonlinear_arith)
            requires
                d > 0,
        ;
        assert(4 * (d * d) * 16 > 0) by (nonlinear_arith)
            requires
                d * d > 0,
        ;
    }
}

/// Equal ratings agree, and their impact is `exp(-1 / (|r - R_med| + 1)^2)`:
/// `q = 4 / (2 (|r - R_med| + 1))^2`.
pub proof fn lemma_equal_ratings_impact(r: int)
    ensures
        agree_spec(r, r),
        impact_spec(r, r) == Impact::Damped(
            Ratio { num: 4, den: (extremity2(r) * extremity2(r)) as u128 },
        ),
{
}

/// Ratings that straddle or touch the item average from opposite sides get
/// the default popularity `log10(2)`.
pub proof fn lemma_popularity_default(r1: int, r2: int, a: ItemAverage)
    requires
        !same_side(r1, r2, a),
    ensures
        popularity_spec(r1, r2, a) == Popularity::Baseline,
{
}

} // verus!
