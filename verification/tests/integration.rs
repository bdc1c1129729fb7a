use sha3::{Digest, Keccak256};
use vortex_369::bridge::VortexBridge;
use vortex_369::embedding::VectorEmbedder;
use vortex_369::governance::{ActionType, GovernanceEngine, GovernanceError, Phase};
use vortex_369::synthetic::SyntheticGenerator;

fn hz(value: f64) -> u64 {
    (value * 1_000_000.0).round() as u64
}

// Helper function
fn calculate_hash(text: &str) -> [u8; 32] {
    let mut hasher = Keccak256::new();
    hasher.update(text.as_bytes());
    hasher.finalize().into()
}

#[test]
fn test_full_governance_cycle() {
    let seed = [0u8; 32];
    let mut generator = SyntheticGenerator::new(seed, hz(432.0));
    let embedder = VectorEmbedder::default();
    let mut governance = GovernanceEngine::new();

    // Generate event
    let event = generator.generate_event();
    assert!(event.resonance > hz(0.0));

    // Embed
    let vector = embedder.embed(&event.description).unwrap();
    assert_eq!(vector.len(), 9);

    // Process through governance
    let action_hash = calculate_hash(&event.description);
    let action_type = ActionType::Liquidation;

    let result =
        governance.process_event(action_hash, action_type, event.resonance, event.description, vector);

    // Should either manifest or self-cancel
    match result {
        Ok(action) => {
            assert_eq!(action.phase, Phase::Manifestation);
            assert!(action.can_manifest());
        }
        Err(_) => {
            // Self-cancelled at Phase 6 (low resonance)
            assert!(event.resonance < hz(432.0 * 0.369));
        }
    }
}

#[test]
fn test_bridge_single_cycle() {
    let seed = [0u8; 32];
    let mut bridge = VortexBridge::new(seed).unwrap();

    let result = bridge.run_single_cycle();

    // Should complete without error (may self-cancel, that's ok)
    match result {
        Ok(_) => assert!(true),
        Err(e) => {
            // Self-cancellation is expected for some events
            let error_msg = e.message().to_string();
            assert!(error_msg.contains("self-cancel") || error_msg.contains("manifestation"));
        }
    }
}

#[test]
fn test_batch_processing() {
    let seed = [0u8; 32];
    let mut generator = SyntheticGenerator::new(seed, hz(432.0));
    let embedder = VectorEmbedder::default();

    // Generate 9 events (one per phase)
    let events = generator.generate_batch(9);
    assert_eq!(events.len(), 9);

    // Embed all descriptions
    let descriptions: Vec<String> = events.iter().map(|e| e.description.clone()).collect();

    let embeddings = embedder.embed_batch(&descriptions).unwrap();
    assert_eq!(embeddings.len(), 9);

    // All embeddings should be 9D
    for emb in embeddings {
        assert_eq!(emb.len(), 9);
    }
}

#[test]
fn bridge_cycle_submits_the_generated_event() {
    let mut bridge = VortexBridge::new([0u8; 32]).unwrap();
    assert_eq!(bridge.run_cycle_at(1000), Ok(()));
    let description = "Harvest yield from pool #52";
    let hash = calculate_hash(description);
    assert_eq!(bridge.calculate_hash(description), hash);
    let embedder = VectorEmbedder::default();
    let action = bridge.governance.get_action(&hash).unwrap();
    assert_eq!(action.phase, Phase::Manifestation);
    assert_eq!(action.action_type, ActionType::YieldHarvest);
    assert_eq!(action.resonance, 441_856_480);
    assert_eq!(action.description, description);
    assert_eq!(action.vector, embedder.embed(description).unwrap());
    assert_eq!(bridge.generator.event_count(), 1);
    assert_eq!(bridge.governance.get_witness_records(&hash).unwrap().len(), 1);

    assert_eq!(bridge.run_cycle_at(1000), Ok(()));
    assert!(bridge.governance.get_action(&calculate_hash("Liquidate position #904")).is_some());
    assert_eq!(bridge.governance.action_count(), 2);
}

#[test]
fn bridge_cycle_reports_a_cancelled_event() {
    let mut bridge = VortexBridge::new([0u8; 32]).unwrap();
    // a generator at 100 Hz never reaches 0.369 x 432 Hz
    bridge.generator = SyntheticGenerator::new([0u8; 32], hz(100.0));
    assert_eq!(bridge.run_cycle_at(0), Err(GovernanceError::SelfCancelled));
    assert_eq!(bridge.governance.action_count(), 0);
    // one at 300 Hz gets past Breath and fails at Manifestation
    bridge.generator = SyntheticGenerator::new([0u8; 32], hz(300.0));
    assert_eq!(bridge.run_cycle_at(0), Err(GovernanceError::ManifestationGateFailed));
    assert_eq!(bridge.governance.action_count(), 0);
}
