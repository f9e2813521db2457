use osrm::codec::{
    all_below, encode_bearings, encode_optional_text, encode_texts, flatten_pairs, has_point_count,
    is_boundary_safe, resolve_indices, unflatten_pairs, with_sentinel,
};
use osrm::scalar::{Scalar, FIVE_BITS, MINUS_ONE_BITS, ZERO_BITS};

fn s(x: f64) -> Scalar {
    Scalar::from_bits(x.to_bits())
}

#[test]
fn flatten_interleaves_longitude_and_latitude() {
    let pairs = vec![(s(6.1319), s(49.6116)), (s(6.1063), s(49.7508))];
    let flat = flatten_pairs(&pairs);
    assert_eq!(flat, vec![s(6.1319), s(49.6116), s(6.1063), s(49.7508)]);
}

#[test]
fn flatten_of_nothing_is_empty() {
    let pairs: Vec<(Scalar, Scalar)> = Vec::new();
    assert!(flatten_pairs(&pairs).is_empty());
}

#[test]
fn flatten_then_unflatten_gives_the_points_back() {
    let pairs = vec![
        (s(6.1319), s(49.6116)),
        (s(6.1063), s(49.7508)),
        (s(5.9675), s(49.5009)),
    ];
    let flat = flatten_pairs(&pairs);
    assert_eq!(flat.len(), 6);
    assert_eq!(unflatten_pairs(&flat), pairs);
}

#[test]
fn absent_bearing_is_minus_one_pair() {
    let flat = encode_bearings(&vec![Some((90, 10)), None, Some((0, 180))]);
    assert_eq!(flat, vec![90, 10, -1, -1, 0, 180]);
}

#[test]
fn absent_radius_is_minus_one() {
    let radiuses = vec![Some(s(25.0)), None];
    let dense = with_sentinel(&radiuses, Scalar::minus_one());
    assert_eq!(dense, vec![s(25.0), s(-1.0)]);
    assert_eq!(Scalar::minus_one().to_bits(), (-1.0f64).to_bits());
    assert_eq!(MINUS_ONE_BITS, (-1.0f64).to_bits());
}

#[test]
fn present_sentinel_value_reads_as_absent() {
    let present = with_sentinel(&vec![Some(s(-1.0))], Scalar::minus_one());
    let absent = with_sentinel(&vec![None], Scalar::minus_one());
    assert_eq!(present, absent);
}

#[test]
fn absent_or_unsafe_texts_become_empty() {
    let texts = encode_texts(&vec![Some("abc".to_string()), None, Some("a\0b".to_string())]);
    assert_eq!(texts, vec!["abc".to_string(), String::new(), String::new()]);
}

#[test]
fn nul_makes_a_text_unsafe() {
    assert!(is_boundary_safe(&"curb".to_string()));
    assert!(!is_boundary_safe(&"cu\0rb".to_string()));
    assert!(is_boundary_safe(&String::new()));
}

#[test]
fn optional_text_keeps_safe_text_only() {
    assert_eq!(encode_optional_text(&Some("any".to_string())), Some("any".to_string()));
    assert_eq!(encode_optional_text(&Some("a\0".to_string())), None);
    assert_eq!(encode_optional_text(&None), None);
}

#[test]
fn missing_indices_default_to_every_point() {
    assert_eq!(resolve_indices(&None, 3), vec![0, 1, 2]);
    assert_eq!(resolve_indices(&Some(vec![2, 0]), 3), vec![2, 0]);
    assert!(resolve_indices(&None, 0).is_empty());
}

#[test]
fn point_count_and_index_range_checks() {
    assert!(has_point_count::<u8>(&None, 4));
    assert!(has_point_count(&Some(vec![1u8, 2, 3]), 3));
    assert!(!has_point_count(&Some(vec![1u8, 2]), 3));
    assert!(all_below(&vec![0, 1, 2], 3));
    assert!(!all_below(&vec![0, 3], 3));
    assert!(all_below(&vec![], 0));
}

#[test]
fn scalar_classification() {
    assert!(s(1.5).is_finite());
    assert!(!s(f64::INFINITY).is_finite());
    assert!(!s(f64::NAN).is_finite());
    assert!(s(0.001).is_positive());
    assert!(!s(0.0).is_positive());
    assert!(!s(-0.0).is_positive());
    assert!(!s(-2.0).is_positive());
    assert!(!s(f64::INFINITY).is_positive());
    assert_eq!(Scalar::zero().to_bits(), ZERO_BITS);
    assert_eq!(FIVE_BITS, 5.0f64.to_bits());
}
