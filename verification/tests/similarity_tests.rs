use curhatin::similarity::cosine_similarity;

#[test]
fn cosine_of_unit_vector_with_itself_is_one() {
    let v: Vec<i64> = vec![1_000_000, 0, 0];
    assert_eq!(cosine_similarity(&v, &v), 1_000_000);
}

#[test]
fn cosine_of_nonaxis_vector_with_itself_is_one() {
    // (0.3, 0.4) has magnitude exactly 0.5 in fixed point.
    let v: Vec<i64> = vec![300_000, 400_000];
    assert_eq!(cosine_similarity(&v, &v), 1_000_000);
}

#[test]
fn cosine_of_tiny_vector_with_itself_is_still_one() {
    // A vector of a few quanta: the rounded-down square root would make the
    // raw quotient overshoot 1.0, and the clamp brings it back.
    let v: Vec<i64> = vec![2, 1];
    assert_eq!(cosine_similarity(&v, &v), 1_000_000);
}

#[test]
fn cosine_of_large_component_vector_with_itself_is_one() {
    // Components above 1.0 are admitted up to the fixed-point limit of 4.0.
    let v: Vec<i64> = vec![3_000_000, 4_000_000];
    assert_eq!(cosine_similarity(&v, &v), 1_000_000);
}

#[test]
fn cosine_never_leaves_the_unit_range() {
    // On sub-resolution vectors the rounded-down square roots would push
    // the raw quotient past 1.0 in magnitude; the clamp keeps every score
    // in [-1, 1].
    let a: Vec<i64> = vec![1, 1];
    let b: Vec<i64> = vec![-1, -1];
    assert_eq!(cosine_similarity(&a, &a), 1_000_000);
    assert_eq!(cosine_similarity(&a, &b), -1_000_000);
}

#[test]
fn cosine_of_mismatched_lengths_is_zero() {
    let a: Vec<i64> = vec![1_000_000, 0];
    let b: Vec<i64> = vec![1_000_000];
    assert_eq!(cosine_similarity(&a, &b), 0);
    assert_eq!(cosine_similarity(&b, &a), 0);
}

#[test]
fn cosine_with_zero_magnitude_vector_is_zero() {
    let z: Vec<i64> = vec![0, 0, 0];
    let v: Vec<i64> = vec![1_000_000, 0, 0];
    assert_eq!(cosine_similarity(&z, &v), 0);
    assert_eq!(cosine_similarity(&v, &z), 0);
    assert_eq!(cosine_similarity(&z, &z), 0);
}

#[test]
fn cosine_of_empty_vectors_is_zero() {
    let e: Vec<i64> = vec![];
    assert_eq!(cosine_similarity(&e, &e), 0);
}

#[test]
fn cosine_of_orthogonal_vectors_is_zero() {
    let a: Vec<i64> = vec![1_000_000, 0];
    let b: Vec<i64> = vec![0, 1_000_000];
    assert_eq!(cosine_similarity(&a, &b), 0);
}

#[test]
fn cosine_of_opposite_vectors_is_minus_one() {
    let a: Vec<i64> = vec![1_000_000];
    let b: Vec<i64> = vec![-1_000_000];
    assert_eq!(cosine_similarity(&a, &b), -1_000_000);
}

#[test]
fn cosine_known_value() {
    // (0.3, 0.4) against (0.4, 0.3): cosine is 24/25 = 0.96.
    let a: Vec<i64> = vec![300_000, 400_000];
    let b: Vec<i64> = vec![400_000, 300_000];
    assert_eq!(cosine_similarity(&a, &b), 960_000);
}
