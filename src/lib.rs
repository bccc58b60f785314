//! Integer and exact-ratio core of the MPIP recommender scores.
//!
//! Ratings are whole numbers on the scale `RMIN..=RMAX`. They are not checked
//! against the scale: any `i32` rating gets the exact value of the formulas.
mod laws;
mod mpip;
mod scale;

pub use mpip::{cb_check, cf_check, item_term, mpip_terms, RecommendError, Term};
pub use scale::{
    agreement, impact, lemma_centre_is_midpoint, popularity, proximity, Impact, ItemAverage,
    Popularity, Ratio, RMAX, RMIN,
};
pub use laws::{
    lemma_agreement_symmetric, lemma_disagreement_has_distance, lemma_equal_ratings_impact,
    lemma_impact_symmetric, lemma_mpip_symmetric, lemma_popularity_default,
    lemma_popularity_symmetric, lemma_proximity_symmetric,
};
