use hermes::{
    agreement, cb_check, cf_check, impact, item_term, mpip_terms, popularity, proximity, Impact,
    ItemAverage, Popularity, Ratio, RecommendError, RMAX, RMIN,
};

fn avg_of(floor: i64, ceil: i64) -> ItemAverage {
    ItemAverage { floor, ceil }
}

#[test]
fn agreement_cases() {
    assert!(!agreement(5, 1));
    assert!(!agreement(1, 4));
    assert!(agreement(3, 1));
    assert!(agreement(5, 3));
    assert!(agreement(4, 5));
    assert!(agreement(1, 2));
    assert!(agreement(3, 3));
}

#[test]
fn agreement_symmetric_on_scale() {
    for r1 in RMIN..=RMAX {
        for r2 in RMIN..=RMAX {
            assert_eq!(agreement(r1, r2), agreement(r2, r1));
            assert_eq!(proximity(r1, r2), proximity(r2, r1));
            assert_eq!(impact(r1, r2), impact(r2, r1));
            let a = avg_of(2, 3);
            assert_eq!(popularity(r1, r2, &a), popularity(r2, r1, &a));
        }
    }
}

#[test]
fn disagreement_has_distance() {
    for r1 in RMIN..=RMAX {
        for r2 in RMIN..=RMAX {
            if !agreement(r1, r2) {
                assert!(r1 != r2);
                assert!(proximity(r1, r2).den > 0);
            }
        }
    }
}

#[test]
fn proximity_disagree_far() {
    // d = 4 > 3: delta 3/4, (1/4 / 4)^2 = 1/256.
    assert_eq!(proximity(5, 1), Ratio { num: 3, den: 1024 });
}

#[test]
fn proximity_disagree_at_midpoint() {
    // 1 and 4 are 3 apart, the midpoint itself: delta 1/2, (1/3 / 4)^2 = 1/144.
    assert_eq!(proximity(1, 4), Ratio { num: 2, den: 576 });
}

#[test]
fn proximity_disagree_near() {
    // 2 and 4 are 2 apart: delta 1/4, (1/2 / 4)^2 = 1/64.
    assert_eq!(proximity(2, 4), Ratio { num: 1, den: 256 });
}

#[test]
fn proximity_agree() {
    // Equal ratings: ((0 - 3) / 4)^2 = 9/16.
    assert_eq!(proximity(3, 3), Ratio { num: 36, den: 64 });
    // 5 and 3: ((2 - 3) / 4)^2 = 1/16.
    assert_eq!(proximity(5, 3), Ratio { num: 4, den: 64 });
}

#[test]
fn impact_disagree() {
    // 1 / ((2 + 1)(2 + 1)) = 1/9.
    assert_eq!(impact(5, 1), Impact::Direct(Ratio { num: 4, den: 36 }));
}

#[test]
fn impact_equal_ratings() {
    // exp(-1 / (|r - 3| + 1)^2).
    assert_eq!(impact(3, 3), Impact::Damped(Ratio { num: 4, den: 4 }));
    assert_eq!(impact(5, 5), Impact::Damped(Ratio { num: 4, den: 36 }));
    assert_eq!(impact(1, 1), Impact::Damped(Ratio { num: 4, den: 36 }));
    assert_eq!(impact(4, 4), Impact::Damped(Ratio { num: 4, den: 16 }));
}

#[test]
fn popularity_straddle_and_touch() {
    // Average 3 exactly.
    let three = avg_of(3, 3);
    assert_eq!(popularity(5, 1, &three), Popularity::Baseline);
    assert_eq!(popularity(3, 5, &three), Popularity::Baseline);
    assert_eq!(popularity(3, 3, &three), Popularity::Baseline);
    // Average 2.5.
    let mid = avg_of(2, 3);
    assert_eq!(popularity(2, 3, &mid), Popularity::Baseline);
}

#[test]
fn popularity_same_side() {
    let mid = avg_of(2, 3);
    assert_eq!(popularity(4, 5, &mid), Popularity::Spread(9));
    assert_eq!(popularity(1, 2, &mid), Popularity::Spread(3));
    let three = avg_of(3, 3);
    assert_eq!(popularity(4, 4, &three), Popularity::Spread(8));
}

#[test]
fn popularity_not_a_number() {
    let none = avg_of(i64::MAX, i64::MIN);
    assert_eq!(popularity(5, 5, &none), Popularity::Baseline);
    assert_eq!(popularity(1, 1, &none), Popularity::Baseline);
}

#[test]
fn example_item_five_and_one() {
    let t = item_term(5, 1, &avg_of(3, 3));
    assert_eq!(t.proximity, Ratio { num: 3, den: 1024 });
    assert_eq!(t.impact, Impact::Direct(Ratio { num: 4, den: 36 }));
    assert_eq!(t.popularity, Popularity::Baseline);
}

#[test]
fn mpip_length_mismatch() {
    let u1 = vec![1, 2, 3];
    let u2 = vec![1, 2];
    let avg = vec![avg_of(2, 2), avg_of(2, 2), avg_of(2, 2)];
    assert_eq!(mpip_terms(&u1, &u2, &avg), Err(RecommendError::LengthMismatch));
    let short = vec![avg_of(2, 2)];
    assert_eq!(mpip_terms(&u1, &u1, &short), Err(RecommendError::LengthMismatch));
}

#[test]
fn mpip_terms_per_item() {
    let u1 = vec![5, 3, 4];
    let u2 = vec![1, 3, 5];
    let avg = vec![avg_of(3, 3), avg_of(3, 4), avg_of(3, 4)];
    let terms = mpip_terms(&u1, &u2, &avg).unwrap();
    assert_eq!(terms.len(), 3);
    for i in 0..3 {
        assert_eq!(terms[i], item_term(u1[i], u2[i], &avg[i]));
    }
    assert_eq!(terms[2].popularity, Popularity::Spread(9));
    assert_eq!(terms[1].impact, Impact::Damped(Ratio { num: 4, den: 4 }));
}

#[test]
fn mpip_symmetric() {
    let u1 = vec![5, 3, 4, 1];
    let u2 = vec![1, 3, 5, 2];
    let avg = vec![avg_of(3, 3), avg_of(3, 4), avg_of(3, 4), avg_of(1, 2)];
    assert_eq!(mpip_terms(&u1, &u2, &avg), mpip_terms(&u2, &u1, &avg));
}

#[test]
fn mpip_empty() {
    let e: Vec<i32> = Vec::new();
    let a: Vec<ItemAverage> = Vec::new();
    assert_eq!(mpip_terms(&e, &e, &a), Ok(Vec::new()));
}

#[test]
fn cf_undefined_prediction() {
    // Similarities [0, 0] sum to zero.
    let sim = [0.0f64, 0.0];
    let total: f64 = sim.iter().sum();
    assert_eq!(cf_check(2, 2, 2, total == 0.0), Err(RecommendError::UndefinedPrediction));
}

#[test]
fn cf_length_mismatch() {
    assert_eq!(cf_check(2, 3, 2, false), Err(RecommendError::LengthMismatch));
    assert_eq!(cf_check(2, 2, 1, true), Err(RecommendError::LengthMismatch));
    assert_eq!(cf_check(2, 2, 2, false), Ok(()));
}

#[test]
fn cb_empty_input() {
    assert_eq!(cb_check(0), Err(RecommendError::EmptyInput));
    assert_eq!(cb_check(3), Ok(()));
}
