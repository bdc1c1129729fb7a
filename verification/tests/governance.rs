use vortex_369::embedding::VectorEmbedder;
use vortex_369::frequency::{
    does_meet_manifest_threshold, is_below_cancel_threshold, is_within_tolerance,
};
use vortex_369::governance::{
    Action, ActionType, GovernanceEngine, GovernanceError, Phase, PhaseEngine,
};
use vortex_369::witness::generate_witness_record;

fn hz(value: f64) -> u64 {
    (value * 1_000_000.0).round() as u64
}

fn units(vector: [f32; 9]) -> [i32; 9] {
    let mut out = [0i32; 9];
    for i in 0..9 {
        out[i] = (vector[i] as f64 * 1_000_000.0).round() as i32;
    }
    out
}

#[test]
fn test_action_creation() {
    let action = Action::new([0u8; 32], ActionType::Liquidation, hz(432.0), "Test action".to_string());

    assert_eq!(action.phase, Phase::Silence);
    assert_eq!(action.action_type, ActionType::Liquidation);
}

#[test]
fn action_test_self_cancellation() {
    let mut action = Action::new([0u8; 32], ActionType::Liquidation, hz(100.0), "Test".to_string());
    action.phase = Phase::Breath;

    assert!(action.should_self_cancel());

    action.resonance = hz(400.0);
    assert!(!action.should_self_cancel());
}

#[test]
fn test_manifestation() {
    let mut action = Action::new([0u8; 32], ActionType::Liquidation, hz(400.0), "Test".to_string());
    action.phase = Phase::Manifestation;

    assert!(action.can_manifest());
}

#[test]
fn action_test_phase_advancement() {
    let mut action = Action::new([0u8; 32], ActionType::Liquidation, hz(432.0), "Test".to_string());

    for i in 1..=9 {
        let phase = action.advance_phase().unwrap();
        assert_eq!(phase.number(), i);
    }

    assert!(action.advance_phase().is_err());
}

#[test]
fn test_submit_and_retrieve() {
    let mut engine = GovernanceEngine::new();
    let hash = [1u8; 32];

    engine.submit_action(hash, ActionType::Liquidation, hz(432.0), "Test".to_string()).unwrap();

    let action = engine.get_action(&hash).unwrap();
    assert_eq!(action.hash, hash);
    assert_eq!(action.phase, Phase::Silence);
}

#[test]
fn test_full_cycle() {
    let mut engine = GovernanceEngine::new();
    let hash = [2u8; 32];

    let action = engine
        .process_event(
            hash,
            ActionType::Liquidation,
            hz(432.0),
            "Test action".to_string(),
            units([0.5; 9]),
        )
        .unwrap();

    assert_eq!(action.phase, Phase::Manifestation);
    assert!(action.can_manifest());
}

#[test]
fn core_test_self_cancellation() {
    let mut engine = GovernanceEngine::new();
    let hash = [3u8; 32];

    let result = engine.process_event(
        hash,
        ActionType::Liquidation,
        hz(100.0), // Low resonance - will self-cancel
        "Test".to_string(),
        units([0.1; 9]),
    );

    assert!(result.is_err());
    assert!(engine.get_action(&hash).is_none());
}

#[test]
fn test_get_by_phase() {
    let mut engine = GovernanceEngine::new();

    for i in 0..5 {
        let hash = [i; 32];
        engine.submit_action(hash, ActionType::Liquidation, hz(432.0), "Test".to_string()).unwrap();
    }

    let silence_actions = engine.get_actions_by_phase(Phase::Silence);
    assert_eq!(silence_actions.len(), 5);
}

#[test]
fn phase_engine_test_phase_advancement() {
    let mut engine = PhaseEngine::new();
    let mut action = Action::new([0u8; 32], ActionType::Liquidation, hz(432.0), "Test".to_string());

    for i in 1..=9 {
        let phase = engine.advance_phase(&mut action).unwrap();
        assert_eq!(phase.number(), i);
    }
}

#[test]
fn phase_engine_test_self_cancellation() {
    let mut engine = PhaseEngine::new();
    let mut action = Action::new(
        [0u8; 32],
        ActionType::Liquidation,
        hz(100.0), // Low resonance
        "Test".to_string(),
    );

    // Advance to Phase 6 (Breath)
    for _ in 0..6 {
        engine.advance_phase(&mut action).unwrap();
    }

    // Should fail at Phase 6
    let result = engine.advance_phase(&mut action);
    assert!(result.is_err());
}

#[test]
fn test_high_resonance_manifests() {
    let mut governance = GovernanceEngine::new();
    let embedder = VectorEmbedder::default();

    let action_hash = [1u8; 32];
    let high_resonance = hz(432.0); // High resonance
    let description = "High resonance action".to_string();
    let vector = embedder.embed(&description).unwrap();

    let result = governance.process_event(
        action_hash,
        ActionType::Liquidation,
        high_resonance,
        description,
        vector,
    );

    assert!(result.is_ok());
    let action = result.unwrap();
    assert_eq!(action.phase, Phase::Manifestation);
    assert!(action.can_manifest());
}

#[test]
fn test_low_resonance_cancels() {
    let mut governance = GovernanceEngine::new();
    let embedder = VectorEmbedder::default();

    let action_hash = [2u8; 32];
    let low_resonance = hz(100.0); // Low resonance (< 432 * 0.369)
    let description = "Low resonance action".to_string();
    let vector = embedder.embed(&description).unwrap();

    let result = governance.process_event(
        action_hash,
        ActionType::Liquidation,
        low_resonance,
        description,
        vector,
    );

    // Should fail at Phase 6 (Breath)
    assert!(result.is_err());
}

#[test]
fn nine_moves_reach_manifestation_and_the_tenth_finalizes() {
    let mut engine = PhaseEngine::new();
    let mut action = Action::new_at([7u8; 32], ActionType::Rebalance, hz(432.0), "x".to_string(), 5);
    let mut last = 0u8;
    for _ in 0..9 {
        let phase = engine.advance_phase(&mut action).unwrap();
        assert_eq!(phase.number(), last + 1);
        last = phase.number();
    }
    assert_eq!(action.phase, Phase::Manifestation);
    assert_eq!(engine.advance_phase(&mut action), Ok(Phase::Manifestation));
    assert_eq!(action.phase, Phase::Manifestation);
    assert_eq!(action.advance_phase(), Err(GovernanceError::TerminalPhaseExceeded));
    assert_eq!(action.timestamp, 5);
}

#[test]
fn self_cancel_boundary_is_exact() {
    // 0.369 x 432 Hz = 159.408 Hz
    let boundary = hz(159.408);
    assert_eq!(boundary, 159_408_000);
    assert!(!is_below_cancel_threshold(boundary, hz(432.0)));
    assert!(is_below_cancel_threshold(boundary - 1, hz(432.0)));

    let mut engine = GovernanceEngine::new();
    let kept = engine.process_event([1; 32], ActionType::Custom, boundary, "at".to_string(), [0; 9]);
    assert_eq!(kept.unwrap_err(), GovernanceError::ManifestationGateFailed);
    let cancelled =
        engine.process_event([2; 32], ActionType::Custom, boundary - 1, "below".to_string(), [0; 9]);
    assert_eq!(cancelled.unwrap_err(), GovernanceError::SelfCancelled);
}

#[test]
fn manifestation_boundary_is_exact() {
    // 0.9 x 432 Hz = 388.8 Hz
    let boundary = hz(388.8);
    assert_eq!(boundary, 388_800_000);
    assert!(does_meet_manifest_threshold(boundary, hz(432.0)));
    assert!(!does_meet_manifest_threshold(boundary - 1, hz(432.0)));

    let mut engine = GovernanceEngine::new();
    let passed = engine.process_event([1; 32], ActionType::Custom, boundary, "at".to_string(), [0; 9]);
    let action = passed.unwrap();
    assert_eq!(action.phase, Phase::Manifestation);
    assert!(action.can_manifest());
    assert!(engine.get_action(&[1; 32]).is_some());

    let failed =
        engine.process_event([2; 32], ActionType::Custom, boundary - 1, "below".to_string(), [0; 9]);
    assert_eq!(failed.unwrap_err(), GovernanceError::ManifestationGateFailed);
    assert!(engine.get_action(&[2; 32]).is_none());
    assert_eq!(engine.action_count(), 1);
}

#[test]
fn tolerance_boundary_is_exact() {
    // 5% of 432 Hz = 21.6 Hz
    assert!(is_within_tolerance(hz(453.6), hz(432.0)));
    assert!(!is_within_tolerance(hz(453.6) + 1, hz(432.0)));
    assert!(is_within_tolerance(hz(410.4), hz(432.0)));
    assert!(!is_within_tolerance(hz(410.4) - 1, hz(432.0)));
}

#[test]
fn end_to_end_cycle() {
    let mut engine = GovernanceEngine::new();
    let hash = [9u8; 32];
    let vector = units([0.5; 9]);
    let action = engine
        .process_event(hash, ActionType::Liquidation, hz(432.0), "test".to_string(), vector)
        .unwrap();
    assert_eq!(action.phase, Phase::Manifestation);
    assert!(action.can_manifest());
    assert_eq!(action.vector, vector);
    assert_eq!(action.hash, hash);
    assert_eq!(action.description, "test");
    assert_eq!(action.value, 0);
    assert_eq!(engine.get_manifestable_actions().len(), 1);

    let hash2 = [10u8; 32];
    let result =
        engine.process_event(hash2, ActionType::Liquidation, hz(100.0), "test".to_string(), vector);
    assert_eq!(result.unwrap_err(), GovernanceError::SelfCancelled);
    assert!(engine.get_action(&hash2).is_none());
    assert_eq!(engine.action_count(), 1);
}

#[test]
fn witness_is_recorded_once_per_cycle_and_kept() {
    let mut engine = GovernanceEngine::new();
    let hash = [4u8; 32];
    assert!(engine.get_witness_records(&hash).is_none());

    engine.process_event(hash, ActionType::Custom, hz(432.0), "a".to_string(), [0; 9]).unwrap();
    let expected = generate_witness_record(&hash, 0, 7);
    assert_eq!(engine.get_witness_records(&hash).unwrap(), &vec![expected.clone()]);

    // A second cycle under the same hash fails late: its record is appended.
    let failed = engine.process_event(hash, ActionType::Custom, hz(200.0), "b".to_string(), [0; 9]);
    assert_eq!(failed.unwrap_err(), GovernanceError::ManifestationGateFailed);
    assert_eq!(
        engine.get_witness_records(&hash).unwrap(),
        &vec![expected.clone(), expected.clone()]
    );

    // A cycle that cancels at Breath never reaches Witness.
    let cancelled = engine.process_event(hash, ActionType::Custom, hz(1.0), "c".to_string(), [0; 9]);
    assert_eq!(cancelled.unwrap_err(), GovernanceError::SelfCancelled);
    assert_eq!(engine.get_witness_records(&hash).unwrap().len(), 2);

    engine.clear();
    assert_eq!(engine.get_witness_records(&hash).unwrap().len(), 2);
}

#[test]
fn resubmission_replaces_the_action() {
    let mut engine = GovernanceEngine::new();
    let hash = [5u8; 32];
    engine.submit_action_at(hash, ActionType::Custom, hz(432.0), "first".to_string(), 1).unwrap();
    engine.submit_action_at([6u8; 32], ActionType::Custom, hz(432.0), "other".to_string(), 2).unwrap();
    assert_eq!(engine.advance_action_phase(&hash), Ok(Phase::Proposal));
    engine.submit_action_at(hash, ActionType::Rebalance, hz(300.0), "second".to_string(), 3).unwrap();
    assert_eq!(engine.action_count(), 2);
    let action = engine.get_action(&hash).unwrap();
    assert_eq!(action.phase, Phase::Silence);
    assert_eq!(action.description, "second");
    assert_eq!(action.timestamp, 3);
    assert_eq!(action.action_type, ActionType::Rebalance);
}

#[test]
fn advance_by_hash() {
    let mut engine = GovernanceEngine::new();
    let hash = [8u8; 32];
    assert_eq!(engine.advance_action_phase(&hash), Err(GovernanceError::ActionNotFound));
    engine.submit_action(hash, ActionType::Custom, hz(100.0), "low".to_string()).unwrap();
    for n in 1..=6u8 {
        assert_eq!(engine.advance_action_phase(&hash).unwrap().number(), n);
    }
    assert_eq!(engine.get_actions_by_phase(Phase::Breath).len(), 1);
    assert_eq!(engine.advance_action_phase(&hash), Err(GovernanceError::SelfCancelled));
    assert!(engine.get_action(&hash).is_none());
    assert_eq!(engine.advance_action_phase(&hash), Err(GovernanceError::ActionNotFound));
}

#[test]
fn remove_and_mutate() {
    let mut engine = GovernanceEngine::new();
    for i in 0..3u8 {
        engine.submit_action([i; 32], ActionType::Custom, hz(432.0), "x".to_string()).unwrap();
    }
    engine.get_action_mut(&[1; 32]).unwrap().set_vector([3; 9]);
    assert!(engine.get_action_mut(&[9; 32]).is_none());
    let removed = engine.remove_action(&[1; 32]).unwrap();
    assert_eq!(removed.vector, [3; 9]);
    assert!(engine.remove_action(&[1; 32]).is_none());
    assert_eq!(engine.action_count(), 2);
    let left: Vec<[u8; 32]> =
        engine.get_actions_by_phase(Phase::Silence).iter().map(|a| a.hash).collect();
    assert_eq!(left, vec![[0u8; 32], [2u8; 32]]);
    assert!(engine.get_manifestable_actions().is_empty());
}

#[test]
fn action_scores() {
    let mut action = Action::new_at([0; 32], ActionType::Custom, hz(432.0), "s".to_string(), 0);
    // resonance 1, vector 0: (1 + 0) / 2
    assert_eq!(action.calculate_score(), 500_000);
    action.set_vector(units([1.0; 9]));
    // the vector has length 3: (1 + 1) / 2
    assert_eq!(action.calculate_score(), 1_000_000);
    action.set_vector(units([0.5; 9]));
    action.resonance = hz(216.0);
    // (0.5 + 0.5) / 2
    assert_eq!(action.calculate_score(), 500_000);
    action.resonance = hz(100.0);
    // (0.231481 + 0.5) / 2 = 0.3657405
    assert_eq!(action.calculate_score(), 365_740);
    action.resonance = u64::MAX;
    action.set_vector([i32::MIN; 9]);
    assert_eq!(action.calculate_score(), (u64::MAX as u128 * 1_000_000 / 432_000_000 + 1_000_000) as u64 / 2);
}

#[test]
fn error_messages() {
    assert_eq!(GovernanceError::SelfCancelled.message(), "Action self-cancelled at Phase 6 (Breath)");
    assert_eq!(GovernanceError::ManifestationGateFailed.message(), "Action failed manifestation gate");
    assert_eq!(GovernanceError::TerminalPhaseExceeded.message(), "Already at terminal phase");
    assert_eq!(GovernanceError::ActionNotFound.message(), "Action not found");
}
