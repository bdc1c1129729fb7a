use vortex_369::governance::{Phase, PhaseEngine};

#[test]
fn test_phase_progression() {
    let mut phase = Phase::Silence;
    for i in 1..=9 {
        phase = phase.next().unwrap();
        assert_eq!(phase.number(), i);
    }
    assert_eq!(phase, Phase::Manifestation);
    assert!(phase.next().is_none());
}

#[test]
fn test_checkpoints() {
    assert!(Phase::Breath.is_checkpoint());
    assert!(Phase::Manifestation.is_checkpoint());
    assert!(!Phase::Proposal.is_checkpoint());
}

#[test]
fn test_fractal_scaling() {
    let engine = PhaseEngine::new();

    assert_eq!(engine.calculate_fractal_scale(0), 3);
    assert_eq!(engine.calculate_fractal_scale(1), 9);
    assert_eq!(engine.calculate_fractal_scale(2), 27);
    assert_eq!(engine.calculate_fractal_scale(3), 81);
}

#[test]
fn test_cycle_time() {
    let engine = PhaseEngine::new();
    let total = engine.total_cycle_time();

    // Should be divisible by 9
    assert_eq!(total % 9, 0);
}

#[test]
fn cycle_time_is_117_seconds() {
    let engine = PhaseEngine::new();
    assert_eq!(engine.total_cycle_time(), 117);
    assert_eq!(engine.get_phase_duration(Phase::Vortex), 18);
    assert_eq!(engine.get_phase_duration(Phase::Fractal), 27);
    assert_eq!(engine.get_phase_duration(Phase::Silence), 9);
}

#[test]
fn fractal_scale_at_the_upper_limit() {
    let engine = PhaseEngine::new();
    assert_eq!(engine.calculate_fractal_scale(39), 12157665459056928801);
}

#[test]
fn numbers_and_phases_round_trip() {
    for n in 0u8..=9 {
        assert_eq!(Phase::from_number(n).unwrap().number(), n);
    }
    assert!(Phase::from_number(10).is_none());
    assert!(Phase::from_number(255).is_none());
}

#[test]
fn phase_names() {
    assert_eq!(Phase::Silence.name(), "Silence");
    assert_eq!(Phase::Manifestation.name(), "Manifestation");
}

#[test]
fn transitions_follow_the_chain() {
    let engine = PhaseEngine::new();
    assert!(engine.validate_transition(Phase::Silence, Phase::Proposal));
    assert!(engine.validate_transition(Phase::Return, Phase::Manifestation));
    assert!(!engine.validate_transition(Phase::Silence, Phase::Mirror));
    assert!(!engine.validate_transition(Phase::Proposal, Phase::Silence));
    assert!(!engine.validate_transition(Phase::Manifestation, Phase::Manifestation));
    assert!(!engine.validate_transition(Phase::Manifestation, Phase::Silence));
}
