use vmagic::validation::validate_duration;
use vmagic::validation::validate_duration_loose;

fn micros(seconds: f64) -> u64 {
    (seconds * 1_000_000.0).round() as u64
}

#[test]
fn test_duration_validation_within_tolerance() {
    // Exact match
    assert!(validate_duration(micros(10.0), micros(10.0)).0);

    // Within positive tolerance
    assert!(validate_duration(micros(10.0), micros(10.05)).0);
    assert!(validate_duration(micros(10.0), micros(10.1)).0);

    // Within negative tolerance
    assert!(validate_duration(micros(10.0), micros(9.95)).0);
    assert!(validate_duration(micros(10.0), micros(9.9)).0);
}

#[test]
fn test_duration_validation_outside_tolerance() {
    // Outside positive tolerance
    assert!(!validate_duration(micros(10.0), micros(10.15)).0);
    assert!(!validate_duration(micros(10.0), micros(10.2)).0);

    // Outside negative tolerance
    assert!(!validate_duration(micros(10.0), micros(9.85)).0);
    assert!(!validate_duration(micros(10.0), micros(9.8)).0);
}

#[test]
fn test_duration_difference_calculation() {
    let (_, diff) = validate_duration(micros(10.0), micros(10.05));
    assert_eq!(diff, 50_000);

    let (_, diff) = validate_duration(micros(10.0), micros(9.95));
    assert_eq!(diff, -50_000);
}

#[test]
fn duration_tolerance_boundary_is_inclusive() {
    // exactly a tenth of a second off, on both sides: still valid
    let (valid, diff) = validate_duration(10_000_000, 10_100_000);
    assert!(valid);
    assert_eq!(diff, 100_000);
    let (valid, diff) = validate_duration(10_000_000, 9_900_000);
    assert!(valid);
    assert_eq!(diff, -100_000);

    // one microsecond beyond the boundary: invalid
    assert!(!validate_duration(10_000_000, 10_100_001).0);
    assert!(!validate_duration(10_000_000, 9_899_999).0);
}

#[test]
fn loose_duration_tolerance_is_exclusive() {
    // strictly below half a second is valid
    assert!(validate_duration_loose(10_000_000, 10_499_999).0);
    // exactly half a second is not
    assert!(!validate_duration_loose(10_000_000, 10_500_000).0);
    let (_, diff) = validate_duration_loose(10_000_000, 9_700_000);
    assert_eq!(diff, 300_000);
}
