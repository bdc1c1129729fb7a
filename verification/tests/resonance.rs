use vortex_369::synthetic::resonance::ResonanceValidator;
use vortex_369::synthetic::{EventType, SyntheticEvent};

fn hz(value: f64) -> u64 {
    (value * 1_000_000.0).round() as u64
}

fn to_unit(value: i128) -> f64 {
    value as f64 / 1_000_000.0
}

fn events(resonances: &[u64]) -> Vec<SyntheticEvent> {
    resonances
        .iter()
        .map(|r| SyntheticEvent::new(0, EventType::Custom, *r, "e".to_string()))
        .collect()
}

#[test]
fn test_frequency_validation() {
    let validator = ResonanceValidator::default();
    let mut event = SyntheticEvent::new(0, EventType::Liquidation, hz(432.0), "test".to_string());

    assert!(validator.validate_frequency(&event));

    event.resonance = hz(500.0);
    assert!(!validator.validate_frequency(&event));
}

#[test]
fn test_369_pattern() {
    let validator = ResonanceValidator::default();

    assert!(validator.validate_369_pattern(9));
    assert!(validator.validate_369_pattern(18));
    assert!(validator.validate_369_pattern(27));
    assert!(validator.validate_369_pattern(369));
    assert!(!validator.validate_369_pattern(5));
}

#[test]
fn resonance_test_self_cancellation() {
    let validator = ResonanceValidator::default();
    let mut event = SyntheticEvent::new(0, EventType::Liquidation, hz(100.0), "test".to_string());

    assert!(validator.should_self_cancel(&event));

    event.resonance = hz(400.0);
    assert!(!validator.should_self_cancel(&event));
}

#[test]
fn test_resonance_score() {
    let validator = ResonanceValidator::default();
    let event = SyntheticEvent::new(9, EventType::Liquidation, hz(432.0), "test".to_string());

    let score = validator.calculate_score(&event).unwrap();
    assert!(to_unit(score) > 0.9);
}

#[test]
fn test_369_pattern_validation() {
    let validator = ResonanceValidator::default();

    // Test 3·6·9 numbers
    assert!(validator.validate_369_pattern(3));
    assert!(validator.validate_369_pattern(6));
    assert!(validator.validate_369_pattern(9));
    assert!(validator.validate_369_pattern(18)); // 1+8=9
    assert!(validator.validate_369_pattern(27)); // 2+7=9
    assert!(validator.validate_369_pattern(369)); // 3+6+9=18→9

    // Test non-369 numbers
    assert!(!validator.validate_369_pattern(5));
    assert!(!validator.validate_369_pattern(7));
}

#[test]
fn score_exact_values() {
    let validator = ResonanceValidator::default();
    let at = |timestamp: u64, resonance: u64| {
        validator
            .calculate_score(&SyntheticEvent::new(timestamp, EventType::Custom, resonance, "s".to_string()))
            .unwrap()
    };
    // aligned time, exact resonance: (1 + 1) / 2
    assert_eq!(at(9, hz(432.0)), 1_000_000);
    // time 0 is not aligned: (1 + 0.5) / 2
    assert_eq!(at(0, hz(432.0)), 750_000);
    assert_eq!(at(5, hz(432.0)), 750_000);
    // resonance 100 Hz: 1 - 332/432 = 0.231481..., with 0.5: 0.365740...
    assert_eq!(at(0, hz(100.0)), 365_740);
    assert_eq!(at(3, hz(100.0)), 615_740);
    // twice the base: 1 - 1 = 0, with 1: 0.5
    assert_eq!(at(6, hz(864.0)), 500_000);
    // three times the base: 1 - 2 = -1, with 0.5: -0.25
    assert_eq!(at(1, hz(1296.0)), -250_000);
    // rounding goes down, also below zero: (432 - 1000.000001) / 432 + 0.5 = -0.814814817...
    assert_eq!(at(1, hz(1432.000001)), -407_408);
    assert_eq!(at(1, u64::MAX), -21_350_398_232_210_130);
}

#[test]
fn score_of_a_zero_base_is_none() {
    let validator = ResonanceValidator::new(0);
    let event = SyntheticEvent::new(9, EventType::Custom, 5, "s".to_string());
    assert!(validator.calculate_score(&event).is_none());
    assert!(!validator.validate_frequency(&event));
    assert!(!validator.should_self_cancel(&event));
}

#[test]
fn coherence_of_event_sets() {
    let validator = ResonanceValidator::default();
    assert!(!validator.validate_coherence(&[]));
    assert!(validator.validate_coherence(&events(&[hz(432.0)])));
    assert!(validator.validate_coherence(&events(&[hz(432.0), hz(440.0), hz(425.0)])));
    // two values 2d apart have the variance d^2: the limit is d = 43.2 Hz
    assert!(!validator.validate_coherence(&events(&[hz(400.0), hz(486.4)])));
    assert!(validator.validate_coherence(&events(&[hz(400.0), hz(486.4) - 1])));
    assert!(!validator.validate_coherence(&events(&[hz(100.0), hz(900.0)])));
}

#[test]
fn coherence_of_huge_resonances_is_exact() {
    let validator = ResonanceValidator::new(u64::MAX);
    // mean 2M/3, variance 2M^2/9, far above (M/10)^2
    assert!(!validator.validate_coherence(&events(&[u64::MAX, u64::MAX, 0])));
    // all equal: variance 0
    assert!(validator.validate_coherence(&events(&[u64::MAX, u64::MAX, u64::MAX])));
    assert!(validator.validate_coherence(&events(&[u64::MAX; 50])));
    // two values 2d apart have the variance d^2; the limit is d = base / 10
    let small = ResonanceValidator::new(10);
    assert!(small.validate_coherence(&events(&[1 << 60, 1 << 60])));
    assert!(!small.validate_coherence(&events(&[1 << 60, (1 << 60) + 2])));
    assert!(small.validate_coherence(&events(&[u64::MAX - 1, u64::MAX])));
    assert!(!small.validate_coherence(&events(&[u64::MAX - 2, u64::MAX])));
    // nothing is coherent around a base of zero
    assert!(!ResonanceValidator::new(0).validate_coherence(&events(&[5, 5])));
}
