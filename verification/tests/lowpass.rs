use fours::cutoff_is_valid;

#[test]
fn positive_cutoffs_are_accepted() {
    assert!(cutoff_is_valid(1.0f32.to_bits()));
    assert!(cutoff_is_valid(0.5f32.to_bits()));
    assert!(cutoff_is_valid(f32::MIN_POSITIVE.to_bits()));
    assert!(cutoff_is_valid(f32::MAX.to_bits()));
    assert!(cutoff_is_valid(f32::INFINITY.to_bits()));
}

#[test]
fn non_positive_cutoffs_are_rejected() {
    assert!(!cutoff_is_valid(0.0f32.to_bits()));
    assert!(!cutoff_is_valid((-0.0f32).to_bits()));
    assert!(!cutoff_is_valid((-1.0f32).to_bits()));
    assert!(!cutoff_is_valid(f32::NAN.to_bits()));
    assert!(!cutoff_is_valid(f32::NEG_INFINITY.to_bits()));
    assert!(!cutoff_is_valid((-f32::MIN_POSITIVE).to_bits()));
}
