use coarse_logprob::CoarseLogProb;
use coarse_logprob::MIN_LOG_UNITS;
use coarse_logprob::UNITS_PER_NAT;
use std::cmp::Ordering;

/// Converts an f32 log probability (in nats) to the codec's fixed-point
/// units. The float-to-integer cast saturates and maps NaN to 0, so every
/// float lands on some unit count and the codec's clamping does the rest.
fn units_of(v: f32) -> i64 {
    ((v as f64) * (UNITS_PER_NAT as f64)).round() as i64
}

fn decode(v: f32) -> CoarseLogProb {
    CoarseLogProb::from_log_units(units_of(v))
}

#[test]
fn test_from_f32() {
    assert_eq!(decode(0f32), CoarseLogProb::from_code(0));
    assert_eq!(decode(-10.0f32), CoarseLogProb::from_code(7504));
    assert_eq!(decode(-87.33655f32), CoarseLogProb::from_code(65535));
    assert_eq!(decode(-100f32), CoarseLogProb::from_code(65535));
}

#[test]
fn clamps_below_floor_to_min() {
    assert_eq!(
        CoarseLogProb::from_log_units(MIN_LOG_UNITS - 1),
        CoarseLogProb::min_value()
    );
    assert_eq!(CoarseLogProb::from_log_units(i64::MIN), CoarseLogProb::min_value());
    assert_eq!(decode(-87.34f32), CoarseLogProb::min_value());
    assert_eq!(decode(-1.0e30f32), CoarseLogProb::min_value());
}

#[test]
fn clamps_at_or_above_zero_to_unity() {
    assert_eq!(CoarseLogProb::from_log_units(0), CoarseLogProb::unity());
    assert_eq!(CoarseLogProb::from_log_units(1), CoarseLogProb::unity());
    assert_eq!(CoarseLogProb::from_log_units(i64::MAX), CoarseLogProb::unity());
    assert_eq!(decode(0.5f32), CoarseLogProb::unity());
}

#[test]
fn non_finite_inputs_saturate() {
    // NaN compares false against both clamp bounds; the conversion maps it
    // to 0 units, so it lands on unity. Infinities saturate to the nearest
    // clamp side. Nothing panics.
    assert_eq!(decode(f32::NAN), CoarseLogProb::unity());
    assert_eq!(decode(f32::INFINITY), CoarseLogProb::unity());
    assert_eq!(decode(f32::NEG_INFINITY), CoarseLogProb::min_value());
}

#[test]
fn codes_non_increasing_as_input_increases() {
    let inputs: Vec<i64> = vec![
        i64::MIN,
        MIN_LOG_UNITS - 1,
        MIN_LOG_UNITS,
        MIN_LOG_UNITS + 1,
        -4_000_000,
        -1_000_000,
        -133,
        -67,
        -66,
        -1,
        0,
    ];
    for pair in inputs.windows(2) {
        let lower = CoarseLogProb::from_log_units(pair[0]).code();
        let upper = CoarseLogProb::from_log_units(pair[1]).code();
        assert!(lower >= upper, "{} -> {}, {} -> {}", pair[0], lower, pair[1], upper);
    }
}

#[test]
fn comparison_reverses_code_order() {
    let small_code = CoarseLogProb::from_code(3);
    let large_code = CoarseLogProb::from_code(5);
    assert_eq!(small_code.partial_cmp(&large_code), Some(Ordering::Greater));
    assert_eq!(large_code.partial_cmp(&small_code), Some(Ordering::Less));
    assert_eq!(small_code.partial_cmp(&small_code), Some(Ordering::Equal));
    assert!(small_code > large_code);
    assert!(large_code < small_code);
    assert!(CoarseLogProb::unity() > CoarseLogProb::min_value());
    assert_eq!(
        decode(-10.0f32).partial_cmp(&decode(-20.0f32)),
        Some(Ordering::Greater)
    );
}

#[test]
fn round_trip_stays_within_one_increment() {
    // One code step spans -MIN_LOG_UNITS / 65535 units, so a difference d is
    // within one increment exactly when 65535 * |d| <= -MIN_LOG_UNITS.
    let inputs: Vec<i64> = vec![MIN_LOG_UNITS, -4_000_123, -1_000_000, -5_000, -67, -1, 0];
    for &units in &inputs {
        let back = CoarseLogProb::from_log_units(units).to_log_units();
        let diff = (back - units).abs();
        assert!(65535 * diff <= -MIN_LOG_UNITS, "{} -> {}", units, back);
    }
}

#[test]
fn round_trip_within_increment_from_f32() {
    let inputs: Vec<f32> = vec![-87.33655, -40.001, -40.0, -10.0, -0.5, -0.001, 0.0];
    for &v in &inputs {
        let units = units_of(v);
        let back = CoarseLogProb::from_log_units(units).to_log_units();
        let recovered = (back as f64 / UNITS_PER_NAT as f64) as f32;
        // One increment (about 0.0013327 nats) plus the half-unit slack of
        // the fixed-point conversion at the boundary.
        assert!((recovered - v).abs() <= 0.001338, "{} -> {}", v, recovered);
    }
}

#[test]
fn constants_are_consistent() {
    assert_eq!(CoarseLogProb::unity().to_log_units(), 0);
    assert_eq!(CoarseLogProb::min_value().to_log_units(), MIN_LOG_UNITS);
    assert_eq!(CoarseLogProb::unity(), CoarseLogProb::from_code(0));
    assert_eq!(CoarseLogProb::min_value(), CoarseLogProb::from_code(65535));
    assert_eq!(CoarseLogProb::unity().code(), 0);
    assert_eq!(CoarseLogProb::min_value().code(), 65535);
}

#[test]
fn code_round_trips_through_from_code() {
    for code in [0u16, 1, 7504, 32768, 65535] {
        assert_eq!(CoarseLogProb::from_code(code).code(), code);
    }
}

#[test]
fn one_code_step_is_one_increment() {
    // Code 1 sits one increment below zero: round(8733655 / 65535) = 133.
    assert_eq!(CoarseLogProb::from_code(1).to_log_units(), -133);
    // An input one increment below zero decodes to code 1.
    assert_eq!(CoarseLogProb::from_log_units(-133).code(), 1);
}
