use vstd::prelude::*;
use crate::scale::{
    impact, impact_spec, popularity, popularity_spec, proximity, proximity_spec, Impact,
    ItemAverage, Popularity, Ratio,
};

verus! {

/// Why a score could not be computed.
#[derive(Clone, Copy, Debug, PartialEq, Eq, Structural)]
pub enum RecommendError {
    /// Vectors that must be aligned index by index differ in length.
    LengthMismatch,
    /// The similarities of the neighbours sum to zero.
    UndefinedPrediction,
    /// There is nothing to average.
    EmptyInput,
}

/// The three factors that one co-rated item adds to the MPIP similarity,
/// which is the sum over all items of `proximity * impact * popularity`.
#[derive(Clone, Copy, Debug, PartialEq, Eq, Structural)]
pub struct Term {
    pub proximity: Ratio,
    pub impact: Impact,
    pub popularity: Popularity,
}

/// The factors of one item rated `r1` and `r2`, with average `a`.
pub open spec fn term_spec(r1: int, r2: int, a: ItemAverage) -> Term {
    Term {
        proximity: proximity_spec(r1, r2),
        impact: impact_spec(r1, r2),
        popularity: popularity_spec(r1, r2, a),
    }
}

/// The factors of every item, or the error when the vectors are not aligned.
pub open spec fn mpip_spec(u1: Seq<i32>, u2: Seq<i32>, avg: Seq<ItemAverage>) -> Result<
    Seq<Term>,
    RecommendError,
> {
    if u1.len() == u2.len() && u1.len() == avg.len() {
        Ok(Seq::new(u1.len(), |i: int| term_spec(u1[i] as int, u2[i] as int, avg[i])))
    } else {
        Err(RecommendError::LengthMismatch)
    }
}

/// The factors of one item.
pub fn item_term(r1: i32, r2: i32, avg: &ItemAverage) -> (t: Term)
    ensures
        t == term_spec(r1 as int, r2 as int, *avg),
{
    Term { proximity: proximity(r1, r2), impact: impact(r1, r2), popularity: popularity(r1, r2, avg) }
}

/// The per-item factors of the MPIP similarity of two users, whose rating
/// vectors `u1` and `u2` and item averages `avg` are aligned by item.
pub fn mpip_terms(u1: &Vec<i32>, u2: &Vec<i32>, avg: &Vec<ItemAverage>) -> (r: Result<
    Vec<Term>,
    RecommendError,
>)
    ensures
        r is Ok <==> (u1.len() == u2.len() && u1.len() == avg.len()),
        r matches Ok(t) ==> mpip_spec(u1@, u2@, avg@) == Ok::<Seq<Term>, RecommendError>(t@),
        r matches Err(e) ==> e == RecommendError::LengthMismatch,
        r matches Err(e) ==> mpip_spec(u1@, u2@, avg@) == Err::<Seq<Term>, RecommendError>(e),
{
    if u1.len() != u2.len() || u1.len() != avg.len() {
        return Err(RecommendError::LengthMismatch);
    }
    let n: usize = u1.len();
    let mut terms: Vec<Term> = Vec::new();
    let mut i: usize = 0;
    while i < n
        invariant
            n == u1.len(),
            n == u2.len(),
            n == avg.len(),
            i <= n,
            terms.len() == i,
            forall|j: int|
                0 <= j < i ==> terms@[j] == term_spec(u1@[j] as int, u2@[j] as int, avg@[j]),
        decreases n - i,
    {
        terms.push(item_term(u1[i], u2[i], &avg[i]));
        i = i + 1;
    }
    assert(terms@ =~= Seq::new(
        u1@.len(),
        |j: int| term_spec(u1@[j] as int, u2@[j] as int, avg@[j]),
    ));
    Ok(terms)
}

/// The inputs of a collaborative-filtering prediction, checked: the
/// similarities, ratings and neighbour averages must have one length, and the
/// similarities must not sum to zero.
pub fn cf_check(n_sim: usize, n_rating: usize, n_avg: usize, zero_total: bool) -> (r: Result<
    (),
    RecommendError,
>)
    ensures
        r == (if n_sim != n_rating || n_sim != n_avg {
            Err(RecommendError::LengthMismatch)
        } else if zero_total {
            Err(RecommendError::UndefinedPrediction)
        } else {
            Ok(())
        }),
{
    if n_sim != n_rating || n_sim != n_avg {
        Err(RecommendError::LengthMismatch)
    } else if zero_total {
        Err(RecommendError::UndefinedPrediction)
    } else {
        Ok(())
    }
}

/// The input of a content-based prediction, checked: the mean of no
/// percentages is undefined.
pub fn cb_check(n: usize) -> (r: Result<(), RecommendError>)
    ensures
        r == (if n == 0 {
            Err(RecommendError::EmptyInput)
        } else {
            Ok(())
        }),
{
    if n == 0 {
        Err(RecommendError::EmptyInput)
    } else {
        Ok(())
    }
}

} // verus!
