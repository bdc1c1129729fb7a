use vortex_369::api::health::health_check;
use vortex_369::api::photonic::michael_proof;
use vortex_369::api::score::{
    char_to_value, digital_root, get_keywords, score_proposal, score_with_lowercase,
};
use vortex_369::chain::{call_with_selector, ChainClient, ChainConfig};
use vortex_369::config::VortexConfig;
use vortex_369::constants::to_base9;
use vortex_369::macedon::{
    action_name, action_type_of, check_petition, event_from_proposal, petition_outcome,
    result_from_report, MacedonClient,
};
use vortex_369::office::{get_office_name, is_stats_cycle, is_valid_office, select_chain, ChainChoice};
use vortex_369::relayer::{push_micro_decimal, ChainRelayer};
use vortex_369::resolver::{parse_address, AddressError, VortexResolver};
use vortex_369::services::engine::VortexEngine;
use vortex_369::types::{
    ActionType, EngineStats, HealthResponse, LiquidationParams, Phase, PhaseProof, ProcessingResult,
    RebalanceParams, SyntheticEvent, YieldHarvestParams,
};

const NOW: u64 = 1_700_000_000;

fn engine() -> VortexEngine {
    let config = VortexConfig::default_for_chain("base", "http://localhost:8000");
    let relayer = ChainRelayer::new(config.clone(), false);
    VortexEngine::new(config, 4, relayer)
}

fn event(hash: &str, value: u128) -> SyntheticEvent {
    SyntheticEvent {
        event_hash: hash.to_string(),
        event_type: ActionType::Liquidation,
        target: "0x1234".to_string(),
        value,
        payload: vec![1, 2, 3],
        base9_witness: String::new(),
        timestamp: NOW,
        phase: 0,
    }
}

#[test]
fn test_chain_config() {
    let config = ChainConfig::base();
    assert_eq!(config.chain_id, 8453);
    assert_eq!(
        config.null_office.to_vec(),
        hex::decode("0000000000000000000000000000000000000369").unwrap()
    );
}

#[test]
fn chain_configs() {
    let base = ChainConfig::base();
    assert_eq!(base.rpc_url, "https://mainnet.base.org");
    assert_eq!(base.dao_address, [0u8; 20]);
    let arbitrum = ChainConfig::arbitrum();
    assert_eq!(arbitrum.rpc_url, "https://arb1.arbitrum.io/rpc");
    assert_eq!(arbitrum.chain_id, 42161);
    assert_eq!(arbitrum.null_office, base.null_office);
    assert_eq!(arbitrum.null_office[18..], [0x03, 0x69]);
}

#[test]
fn chain_client_plans_transactions() {
    let without = ChainClient::new(ChainConfig::base(), false);
    assert_eq!(without.execute_action([7; 32]).unwrap_err(), "Wallet required for transactions");
    assert_eq!(
        without.advance_phase([7; 32], "12".to_string()).unwrap_err(),
        "Wallet required for transactions"
    );
    let client = ChainClient::new(ChainConfig::base(), true);
    assert_eq!(client.config().chain_id, 8453);
    let plan = client.execute_action([7; 32]).unwrap();
    assert_eq!(plan.to, [0u8; 20]);
    assert_eq!(plan.value, 0);
    assert_eq!(plan.data.len(), 36);
    assert_eq!(plan.data[4..], [7u8; 32]);
    assert_eq!(plan.data, client.encode_execute_action([7; 32]));
    let advance = client.advance_phase([7; 32], "12".to_string()).unwrap();
    assert_eq!(advance.data[4..], [7u8; 32]);
    assert_ne!(advance.data[..4], plan.data[..4]);
    assert_eq!(advance.data, client.encode_advance_phase([7; 32], "other"));
}

#[test]
fn an_event_manifests() {
    let mut engine = engine();
    let result = engine.process_event_at(event("event-4", 1_000_000_000_000_000), NOW).unwrap();
    assert!(result.manifested);
    assert_eq!(result.cancel_phase, 0);
    assert_eq!(result.final_phase, Phase::Manifestation);
    assert_eq!(result.witness_record, "54522721276416751014");
    assert_eq!(result.event_hash, "event-4");
    assert_eq!(result.processing_time_ms, 0);
    assert_eq!(
        engine.stats,
        EngineStats { events_processed: 1, events_manifested: 1, ..EngineStats::default() }
    );
    assert_eq!(
        engine.push_to_chain(&result).unwrap(),
        "0x000000000000000000000000000000000000000000000000000000000event-4"
    );
}

#[test]
fn an_event_is_cancelled_at_each_checkpoint() {
    let mut engine = engine();
    let value = 1_000_000_000_000_000u128;

    // phase 1: no hash, or a time outside the window
    let mut unnamed = event("", value);
    unnamed.target = "0x1".to_string();
    assert_eq!(engine.process_event_at(unnamed, NOW).unwrap().cancel_phase, 1);
    let mut early = event("event-4", value);
    early.timestamp = NOW + 301;
    assert_eq!(engine.process_event_at(early, NOW).unwrap().cancel_phase, 1);
    let mut late = event("event-4", value);
    late.timestamp = NOW - 3601;
    assert_eq!(engine.process_event_at(late, NOW).unwrap().cancel_phase, 1);
    assert_eq!(engine.stats.events_cancelled, 0);
    let mut edge = event("event-4", value);
    edge.timestamp = NOW + 300;
    assert!(engine.process_event_at(edge, NOW).unwrap().manifested);
    let mut other_edge = event("event-4", value);
    other_edge.timestamp = NOW - 3600;
    assert!(engine.process_event_at(other_edge, NOW).unwrap().manifested);

    // phase 4: neither an aligned value nor a target
    let mut homeless = event("event-4", value);
    homeless.target = String::new();
    assert_eq!(engine.process_event_at(homeless, NOW).unwrap().cancel_phase, 4);
    let mut zeroed = event("event-4", value);
    zeroed.target = "0x0000000000000000000000000000000000000000".to_string();
    assert_eq!(engine.process_event_at(zeroed, NOW).unwrap().cancel_phase, 4);

    // phase 5: the value does not replicate
    assert_eq!(engine.process_event_at(event("event-4", 0), NOW).unwrap().cancel_phase, 5);
    assert_eq!(
        engine.process_event_at(event("event-4", u64::MAX as u128), NOW).unwrap().cancel_phase,
        5
    );

    // phase 6: the value is too small
    let small = engine.process_event_at(event("event-4", value - 1), NOW).unwrap();
    assert_eq!(small.cancel_phase, 6);
    assert_eq!(small.witness_record, "");

    // phase 8: the witness record does not close the loop
    let open = engine.process_event_at(event("event-0", value), NOW).unwrap();
    assert_eq!(open.cancel_phase, 8);
    assert!(!open.manifested);
    assert_eq!(open.final_phase, Phase::Silence);
    assert_eq!(open.witness_record, "117833255315074801723");
    assert_eq!(engine.push_to_chain(&open).unwrap_err(), "Event not manifested");

    assert_eq!(engine.stats.events_processed, 11);
    assert_eq!(engine.stats.events_manifested, 2);
    assert_eq!(engine.stats.events_cancelled, 6);
}

#[test]
fn a_stale_event_is_refused_by_the_clock() {
    let mut engine = engine();
    let mut stale = event("event-4", 1_000_000_000_000_000);
    stale.timestamp = 0;
    let result = engine.process_event(stale).unwrap();
    assert_eq!(result.cancel_phase, 1);
    assert!(!result.manifested);
    assert_eq!(engine.stats.events_processed, 1);
    assert_eq!(engine.stats.events_cancelled, 0);
}

#[test]
fn the_low_64_bits_of_the_value_count() {
    let mut engine = engine();
    // 2^64 + 10^15 has the low bits of 10^15 and is large enough
    let value = (1u128 << 64) + 1_000_000_000_000_000;
    let result = engine.process_event_at(event("event-4", value), NOW).unwrap();
    assert!(result.cancel_phase == 0 || result.cancel_phase == 8);
    // 2^64 itself has the low bits 0
    assert_eq!(engine.process_event_at(event("event-4", 1u128 << 64), NOW).unwrap().cancel_phase, 5);
}

#[test]
fn parts_of_the_cycle() {
    let engine = engine();
    let mut sample = event("event-0", 27);
    sample.phase = 7;
    assert_eq!(engine.calculate_spin(&sample), 9);
    sample.value = 6;
    assert_eq!(engine.calculate_spin(&sample), 8);
    sample.value = 12;
    assert_eq!(engine.calculate_spin(&sample), 7);
    sample.value = 10;
    assert_eq!(engine.calculate_spin(&sample), 4);
    assert!(engine.check_self_cancel(&sample));
    assert!(engine.validate_event(&sample, NOW));
    assert!(!engine.validate_event(&sample, 0));
    assert!(engine.resolve_conflict(&sample));
    assert!(engine.validate_fractal_scales(&sample));
    assert!(!engine.verify_loop_closure(&sample));
    sample.base9_witness = "18".to_string();
    assert!(engine.verify_loop_closure(&sample));
    sample.value = 1_000_000_000_000_000;
    assert_eq!(engine.generate_witness_record(&sample), "117833255315074801723");

    let inverted = engine.create_inversion(&sample);
    assert_eq!(inverted.event_hash, "139473a33f854cdab704bb1e637e946411f7");
    assert_eq!(inverted.value, u128::MAX - 1_000_000_000_000_000);
    assert_eq!(inverted.target, sample.target);
    assert_eq!(inverted.payload, sample.payload);
    assert_eq!(inverted.timestamp, sample.timestamp);
    assert_eq!(inverted.phase, 7);
    assert_eq!(inverted.base9_witness, "18");
}

#[test]
fn events_are_taken_only_from_a_coherent_source() {
    let engine = engine();
    let mut health = HealthResponse {
        status: "ok".to_string(),
        version: "1".to_string(),
        frequency: 432_000_000,
        coherent: true,
        database: "up".to_string(),
        timestamp: NOW,
    };
    assert_eq!(engine.poll_macedon_events(&health, vec![event("a", 1), event("b", 2)]).len(), 2);
    health.coherent = false;
    assert!(engine.poll_macedon_events(&health, vec![event("a", 1)]).is_empty());
}

#[test]
fn vortex_scores() {
    assert_eq!(score_proposal(""), (10, "Base score: 10 (Digital Root 1)".to_string()));
    assert_eq!(
        score_proposal("love joy 369"),
        (
            286,
            "Base score: 50 (Digital Root 5); Sacred pattern detected +33; Keyword bonuses: 150; \
             Trinity structure +33; Mantra bonuses: 20"
                .to_string()
        )
    );
    assert_eq!(
        score_proposal("abc"),
        (120, "Base score: 60 (Digital Root 6); Sacred Harmony Flow +60".to_string())
    );
    assert_eq!(
        score_proposal("Sovereign ananda love joy bliss gratitude peace harmony rise 369 awakening"),
        (
            302,
            "Base score: 40 (Digital Root 4); Sacred pattern detected +33; Keyword bonuses: 199; \
             Mantra bonuses: 30"
                .to_string()
        )
    );
    assert_eq!(
        score_proposal("xrp to the moon"),
        (
            70,
            "Base score: 30 (Digital Root 3); Sacred Trinity Creation +30; Keyword bonuses: 10"
                .to_string()
        )
    );
    assert_eq!(score_proposal("ccc"), (0, "Base score: 0 (Digital Root 0)".to_string()));
    assert_eq!(
        score_proposal("\u{e9}9"),
        (43, "Base score: 10 (Digital Root 1); Sacred pattern detected +33".to_string())
    );
    assert_eq!(
        score_proposal("sovereign"),
        (
            202,
            "Base score: 60 (Digital Root 6); Sacred Harmony Flow +60; Keyword bonuses: 50; \
             Length divisible by 9 +27; Mantra bonuses: 5"
                .to_string()
        )
    );
}

#[test]
fn vortex_score_is_cut_at_369() {
    assert_eq!(
        score_proposal("anandasovereignlove joybliss369 aaad"),
        (
            369,
            "Base score: 60 (Digital Root 6); Sacred Harmony Flow +60; Sacred pattern detected +33; \
             Keyword bonuses: 199; Trinity structure +33; Length divisible by 9 +27; \
             Mantra bonuses: 30"
                .to_string()
        )
    );
}

#[test]
fn letters_and_roots() {
    assert_eq!(char_to_value('a'), 1);
    assert_eq!(char_to_value('A'), 1);
    assert_eq!(char_to_value('z'), 26);
    assert_eq!(char_to_value('Z'), 26);
    assert_eq!(char_to_value('0'), 0);
    assert_eq!(char_to_value('\u{e9}'), 0);
    assert_eq!(char_to_value('`'), 0);
    assert_eq!(char_to_value('{'), 0);
    assert_eq!(digital_root(0), 0);
    assert_eq!(digital_root(9), 9);
    assert_eq!(digital_root(10), 1);
    assert_eq!(digital_root(u32::MAX), 3);
    let keywords = get_keywords();
    assert_eq!(keywords.len(), 17);
    assert_eq!((keywords[0].word, keywords[0].points), ("ananda", 99));
    assert_eq!((keywords[16].word, keywords[16].points), ("xrp", 10));
    assert!(keywords.windows(2).all(|pair| pair[0].points >= pair[1].points));
}

#[test]
fn health_answer() {
    assert_eq!(health_check(), ("ok".to_string(), "0.1.0".to_string()));
}

#[test]
fn harmonic_verification() {
    assert_eq!(michael_proof(33), (true, "Michael blue flame verification successful".to_string()));
    assert_eq!(michael_proof(99).0, true);
    assert_eq!(michael_proof(89).0, true);
    assert_eq!(
        michael_proof(88),
        (false, "Verification failed - insufficient harmonic resonance".to_string())
    );
    assert_eq!(michael_proof(0).0, false);
    assert_eq!(michael_proof(34).0, false);
}

fn liquidation() -> LiquidationParams {
    LiquidationParams {
        protocol: "aave".to_string(),
        collateral_asset: "a".to_string(),
        debt_asset: "b".to_string(),
        borrower: "c".to_string(),
        debt_to_cover: 1,
    }
}

fn manifested(hash: &str) -> ProcessingResult {
    ProcessingResult { event_hash: hash.to_string(), manifested: true, ..ProcessingResult::default() }
}

#[test]
fn relayer_submissions() {
    let config = VortexConfig::default_for_chain("base", "x");
    let mock = ChainRelayer::new(config.clone(), false);
    assert_eq!(mock.submit_action(&manifested("abc")).unwrap(), format!("0x{:0>64}", "abc"));
    let long = "z".repeat(70);
    assert_eq!(mock.submit_action(&manifested(&long)).unwrap(), format!("0x{}", long));
    assert_eq!(
        mock.submit_action(&ProcessingResult::default()).unwrap_err(),
        "Action not manifested"
    );
    let signer = ChainRelayer::new(config, true);
    assert_eq!(signer.submit_action(&manifested("abc")).unwrap(), "0x1234abcd");
    assert_eq!(signer.submit_direct(&[0x00, 0x0f, 0xa0, 0xff]).unwrap(), "0x000fa0ff");
    assert_eq!(signer.submit_direct(&[]).unwrap(), "0x");

    assert_eq!(mock.submit_liquidation(&liquidation()).unwrap(), format!("0x{:0>64}", "liquidation"));
    let harvest =
        YieldHarvestParams { protocol: "p".to_string(), asset: "a".to_string(), strategy: None };
    assert_eq!(mock.submit_harvest(&harvest).unwrap(), format!("0x{:0>64}", "harvest"));
    let rebalance = RebalanceParams {
        from_protocol: "a".to_string(),
        to_protocol: "b".to_string(),
        asset: "c".to_string(),
        amount: 5,
    };
    assert_eq!(mock.submit_rebalance(&rebalance).unwrap(), format!("0x{:0>64}", "rebalance"));
    assert_eq!(mock.burn_to_null(9).unwrap(), format!("0x{:0>64}", "burn"));

    assert_eq!(mock.encode_propose_action(&manifested("abc")).unwrap(), vec![0x12, 0x34, 0xab, 0xcd]);
    assert_eq!(mock.encode_liquidation_call(&liquidation()).unwrap(), vec![0x00, 0xa7, 0x18, 0xa9]);
    assert_eq!(mock.encode_harvest_call(&harvest).unwrap(), vec![0x46, 0x41, 0x25, 0x7d]);
    assert_eq!(mock.encode_rebalance_call(&rebalance).unwrap(), vec![0x12, 0x34, 0x56, 0x78]);
    assert_eq!(mock.queue_safe_tx(&[], "t", 0).unwrap(), "safe-tx-hash");
}

#[test]
fn relayer_limits() {
    let mut config = VortexConfig::default_for_chain("base", "x");
    let relayer = ChainRelayer::new(config.clone(), false);
    assert_eq!(relayer.queue_gelato_task(&[], "t").unwrap_err(), "Gelato API key not configured");
    // Base allows up to 50 gwei
    assert!(relayer.check_gas_price(50_999_999_999));
    assert!(!relayer.check_gas_price(51_000_000_000));
    assert!(relayer.check_gas_price(0));
    assert_eq!(relayer.estimate_profit(&liquidation()), Ok(10_000));

    config.relayer.gelato_api_key = Some("key".to_string());
    config.relayer.min_profit_eth = 10_000;
    let keyed = ChainRelayer::new(config.clone(), false);
    assert_eq!(keyed.queue_gelato_task(&[], "t").unwrap(), "gelato-task-id");
    assert_eq!(keyed.estimate_profit(&liquidation()), Ok(10_000));

    config.relayer.min_profit_eth = 50_000;
    let strict = ChainRelayer::new(config.clone(), false);
    assert_eq!(
        strict.estimate_profit(&liquidation()).unwrap_err(),
        "Profit 0.01 ETH below minimum 0.05 ETH"
    );
    config.relayer.min_profit_eth = 2_000_000;
    let stricter = ChainRelayer::new(config, false);
    assert_eq!(
        stricter.estimate_profit(&liquidation()).unwrap_err(),
        "Profit 0.01 ETH below minimum 2 ETH"
    );
}

#[test]
fn amounts_in_millionths() {
    let show = |amount: u64| {
        let mut out = String::new();
        push_micro_decimal(&mut out, amount);
        out
    };
    assert_eq!(show(0), "0");
    assert_eq!(show(1), "0.000001");
    assert_eq!(show(10), "0.00001");
    assert_eq!(show(1_000), "0.001");
    assert_eq!(show(100), "0.0001");
    assert_eq!(show(1_500_000), "1.5");
    assert_eq!(show(12_000_000), "12");
    assert_eq!(show(123_456_789), "123.456789");
    assert_eq!(show(999_999), "0.999999");
    assert_eq!(show(1_000_010), "1.00001");
    assert_eq!(show(u64::MAX), "18446744073709.551615");
}

#[test]
fn event_source_addresses() {
    let base = |given: &str| MacedonClient::new(given).unwrap().endpoint("");
    assert_eq!(base("http://host:8000///"), "http://host:8000");
    assert_eq!(base("http://host"), "http://host");
    assert_eq!(base("a/b/"), "a/b");
    assert_eq!(base("///"), "");
    assert_eq!(base(""), "");
    let client = MacedonClient::new("http://host/").unwrap();
    assert_eq!(client.endpoint("/x"), "http://host/x");
    assert_eq!(client.health_url(), "http://host/health");
    assert_eq!(client.pending_events_url(), "http://host/proposals?state=PENDING");
    assert_eq!(client.proposals_url(), "http://host/proposals");
    assert_eq!(client.process_url(), "http://host/proposals/process");
    assert_eq!(client.status_url(), "http://host/status");
    assert_eq!(client.petition_url(6).unwrap(), "http://host/petitions");
    assert_eq!(client.petition_url(5).unwrap_err(), "Word count must be 3, 6, or 9 (got 5)");
}

#[test]
fn proposals_become_events() {
    assert_eq!(action_type_of(Some("liquidation")), ActionType::Liquidation);
    assert_eq!(action_type_of(Some("harvest")), ActionType::YieldHarvest);
    assert_eq!(action_type_of(Some("rebalance")), ActionType::Rebalance);
    assert_eq!(action_type_of(Some("compound")), ActionType::Compound);
    assert_eq!(action_type_of(Some("burn")), ActionType::BurnToNull);
    assert_eq!(action_type_of(Some("Liquidation")), ActionType::BurnToNull);
    assert_eq!(action_type_of(None), ActionType::BurnToNull);
    assert_eq!(action_name(ActionType::Liquidation), "liquidation");
    assert_eq!(action_name(ActionType::YieldHarvest), "harvest");
    assert_eq!(action_name(ActionType::Rebalance), "rebalance");
    assert_eq!(action_name(ActionType::Compound), "compound");
    assert_eq!(action_name(ActionType::BurnToNull), "burn");

    let full = event_from_proposal(
        "id-1".to_string(),
        Some("harvest"),
        Some(77),
        Some("0xabc"),
        vec![9, 8],
        Some("123".to_string()),
        1234,
        3,
    );
    assert_eq!(full.event_hash, "id-1");
    assert_eq!(full.event_type, ActionType::YieldHarvest);
    assert_eq!(full.value, 77);
    assert_eq!(full.target, "0xabc");
    assert_eq!(full.payload, vec![9, 8]);
    assert_eq!(full.base9_witness, "123");
    assert_eq!(full.timestamp, 1234);
    assert_eq!(full.phase, 3);

    let bare = event_from_proposal("id-2".to_string(), None, None, None, vec![], None, 0, 0);
    assert_eq!(bare.event_type, ActionType::BurnToNull);
    assert_eq!(bare.value, 0);
    assert_eq!(bare.target, "");
    assert_eq!(bare.base9_witness, "");
}

#[test]
fn reports_become_results() {
    let done = result_from_report("p".to_string(), "MANIFESTED", Some("18".to_string()), 1500);
    assert!(done.manifested);
    assert_eq!(done.cancel_phase, 0);
    assert_eq!(done.final_phase, Phase::Manifestation);
    assert_eq!(done.witness_record, "18");
    assert_eq!(done.processing_time_ms, 1500);
    assert_eq!(done.event_hash, "p");
    let cancelled = result_from_report("p".to_string(), "CANCELLED", None, 0);
    assert!(!cancelled.manifested);
    assert_eq!(cancelled.cancel_phase, 6);
    assert_eq!(cancelled.final_phase, Phase::Silence);
    assert_eq!(cancelled.witness_record, "");
    let pending = result_from_report("p".to_string(), "PENDING", None, 0);
    assert!(!pending.manifested);
    assert_eq!(pending.cancel_phase, 0);
}

#[test]
fn petitions() {
    assert!(check_petition(3).is_ok());
    assert!(check_petition(6).is_ok());
    assert!(check_petition(9).is_ok());
    assert_eq!(check_petition(0).unwrap_err(), "Word count must be 3, 6, or 9 (got 0)");
    assert_eq!(check_petition(4).unwrap_err(), "Word count must be 3, 6, or 9 (got 4)");
    assert_eq!(check_petition(12).unwrap_err(), "Word count must be 3, 6, or 9 (got 12)");
    assert_eq!(
        petition_outcome("ACCEPTED", "fine".to_string(), Some("p-1".to_string())).unwrap(),
        "p-1"
    );
    assert_eq!(petition_outcome("ACCEPTED", "fine".to_string(), None).unwrap(), "fine");
    assert_eq!(
        petition_outcome("REJECTED", "too loud".to_string(), Some("p-1".to_string())).unwrap_err(),
        "REJECTED: too loud"
    );
}

#[test]
fn resolver_answers() {
    let resolver = VortexResolver::new("0x0000000000000000000000000000000000000369").unwrap();
    assert_eq!(resolver.contract_address()[18..], [0x03, 0x69]);
    assert_eq!(resolver.resolve_action("h", 9), Ok(true));
    assert_eq!(resolver.resolve_action("h", 8), Ok(false));
    assert_eq!(resolver.get_witness_record("h"), Ok(String::new()));
    let proof = PhaseProof {
        event_hash: "beef".to_string(),
        from_phase: 6,
        to_phase: 7,
        witness_record: "18".to_string(),
        signature: vec![],
    };
    assert_eq!(resolver.submit_phase_proof(&proof).unwrap(), format!("0x{:0>64}", "beef"));
}

#[test]
fn addresses() {
    let mut expected = [0u8; 20];
    expected[0] = 0xab;
    expected[19] = 0xcd;
    assert_eq!(parse_address("0xab000000000000000000000000000000000000cd"), Ok(expected));
    assert_eq!(parse_address("AB000000000000000000000000000000000000CD"), Ok(expected));
    assert_eq!(parse_address("0xab"), Err(AddressError::WrongLength));
    assert_eq!(parse_address(""), Err(AddressError::WrongLength));
    assert_eq!(parse_address("0x"), Err(AddressError::WrongLength));
    assert_eq!(
        parse_address("0xab000000000000000000000000000000000000cd00"),
        Err(AddressError::WrongLength)
    );
    // 39 digits
    assert_eq!(parse_address("0x369000000000000000000000000000000000432"), Err(AddressError::NotHex));
    assert_eq!(parse_address("0xzz000000000000000000000000000000000000cd"), Err(AddressError::NotHex));
    assert_eq!(parse_address("0X00000000000000000000000000000000000000cd"), Err(AddressError::NotHex));
    assert!(VortexResolver::new("nothing").is_err());
}

#[test]
fn offices_and_chains() {
    let names =
        ["RESONATOR", "NULL", "MIRROR", "VORTEX", "WITNESS", "FRACTAL", "BREATH", "SILENCE", "RETURN"];
    for office in 1..=9u8 {
        assert_eq!(get_office_name(office), names[office as usize - 1]);
        assert!(is_valid_office(office));
    }
    assert_eq!(get_office_name(0), "UNKNOWN");
    assert_eq!(get_office_name(10), "UNKNOWN");
    assert!(!is_valid_office(0));
    assert!(!is_valid_office(10));
    assert_eq!(select_chain("base"), Some(ChainChoice::Base));
    assert_eq!(select_chain("base-sepolia"), Some(ChainChoice::Base));
    assert_eq!(select_chain("arbitrum"), Some(ChainChoice::Arbitrum));
    assert_eq!(select_chain("ethereum"), None);
    assert_eq!(select_chain("Base"), None);
    assert!(is_stats_cycle(9));
    assert!(is_stats_cycle(18));
    assert!(!is_stats_cycle(10));
}

#[test]
fn default_configurations() {
    let base = VortexConfig::default_for_chain("base", "http://m");
    assert_eq!(base.chain.name, "Base");
    assert_eq!(base.chain.chain_id, 8453);
    assert_eq!(base.chain.rpc_url, "https://mainnet.base.org");
    assert_eq!(base.chain.ws_url.as_deref(), Some("wss://base-mainnet.g.alchemy.com/v2/"));
    assert_eq!(base.chain.block_time_ms, 2000);
    assert_eq!(base.macedon.api_url, "http://m");
    assert_eq!(base.macedon.poll_interval_ms, 3000);
    assert_eq!(base.macedon.health_check_interval_ms, 30000);
    assert_eq!(base.contracts.vortex_dao, "0x0000000000000000000000000000000000000000");
    assert_eq!(base.contracts.resolver, "0x369000000000000000000000000000000000432");
    assert_eq!(base.contracts.null_office, "0x0000000000000000000000000000000000000369");
    assert_eq!(base.contracts.relayer_safe, "0x432000000000000000000000000000000000369");
    assert_eq!(base.contracts.light_photonic_grid, "0x5555555555555555555555555555555555555555");
    assert_eq!(base.relayer.gelato_api_key, None);
    assert_eq!(base.relayer.max_gas_price_gwei, 50);
    assert_eq!(base.relayer.min_profit_eth, 1_000);
    assert_eq!(base.protocols.aave.as_deref(), Some("0xA238Dd80C259a72e81d7e4664a9801593F98d1c5"));
    assert_eq!(base.protocols.pendle, None);
    assert!(!base.oracle.enabled);
    assert_eq!(base.oracle.submit_cooldown_ms, 3_600_000);

    for name in ["mainnet", "MAINNET", "Base", "arbitrum", "", "anything"] {
        assert_eq!(VortexConfig::default_for_chain(name, "m").chain.chain_id, 8453);
    }
    for name in ["sepolia", "Sepolia", "testnet", "TESTNET"] {
        let config = VortexConfig::default_for_chain(name, "m");
        assert_eq!(config.chain.chain_id, 84532);
        assert_eq!(config.chain.name, "Base Sepolia");
        assert!(config.oracle.enabled);
        assert_eq!(config.oracle.submit_cooldown_ms, 60_000);
        assert_eq!(config.relayer.min_profit_eth, 100);
        assert_eq!(config.contracts.light_photonic_grid, "0x1eC353a2Be261F682945A13b6262Bca098ff0686");
    }
    let arbitrum = VortexConfig::arbitrum_config("m");
    assert_eq!(arbitrum.chain.chain_id, 42161);
    assert_eq!(arbitrum.chain.block_time_ms, 250);
    assert_eq!(arbitrum.relayer.max_gas_price_gwei, 1);
    assert_eq!(arbitrum.protocols.morpho, None);
    assert_eq!(arbitrum.protocols.pendle.as_deref(), Some("0x888888888889758F76e7103c6CbF23ABbF58F946"));
    let ethereum = VortexConfig::ethereum_config("m");
    assert_eq!(ethereum.chain.chain_id, 1);
    assert_eq!(ethereum.chain.block_time_ms, 12000);
    assert_eq!(ethereum.relayer.max_gas_price_gwei, 100);
    assert_eq!(ethereum.relayer.min_profit_eth, 10_000);
    assert_eq!(
        ethereum.protocols.sommelier.as_deref(),
        Some("0x7bad5DF5E11151Dc5Ee1a648800057C5c934c0d5")
    );
}

#[test]
fn codes_of_types_and_phases() {
    for code in 0u8..=4 {
        assert_eq!(ActionType::from(code).code(), code);
    }
    assert_eq!(ActionType::from(5), ActionType::BurnToNull);
    assert_eq!(ActionType::from(255), ActionType::BurnToNull);
    for code in 0u8..=9 {
        assert_eq!(Phase::from(code).number(), code);
    }
    assert_eq!(Phase::from(10), Phase::Silence);
    assert_eq!(Phase::Breath.upper_name(), "BREATH");
    assert_eq!(Phase::Manifestation.upper_name(), "MANIFESTATION");
    let empty = SyntheticEvent::default();
    assert_eq!(empty.event_type, ActionType::BurnToNull);
    assert_eq!(empty.event_hash, "");
    assert_eq!(to_base9(0, 1), "0");
}

#[test]
fn vortex_keywords_are_sought_in_the_lowercase_form() {
    assert_eq!(score_with_lowercase("LOVE", "LOVE"), (0, "Base score: 0 (Digital Root 0)".to_string()));
    assert_eq!(
        score_with_lowercase("LOVE", "love"),
        (60, "Base score: 0 (Digital Root 0); Keyword bonuses: 50; Mantra bonuses: 10".to_string())
    );
    assert_eq!(score_proposal("LOVE"), score_with_lowercase("LOVE", "love"));
}

#[test]
fn call_data_layout() {
    let mut digest = [0u8; 32];
    for i in 0..32 {
        digest[i] = i as u8 + 1;
    }
    let data = call_with_selector(&digest, &[9; 32]);
    assert_eq!(data[..4], [1, 2, 3, 4]);
    assert_eq!(data[4..], [9u8; 32]);
}

#[test]
fn inversion_layout() {
    let engine = engine();
    let mut digest = [0u8; 32];
    digest[0] = 0xab;
    digest[17] = 0x0f;
    digest[18] = 0xff;
    let inverted = engine.inversion_with_digest(&event("e", 5), &digest);
    assert_eq!(inverted.event_hash, "ab000000000000000000000000000000000f");
    assert_eq!(inverted.value, u128::MAX - 5);
}

#[test]
fn defaults_by_lowercase_name() {
    assert_eq!(VortexConfig::default_for_lowercase("sepolia", "m").chain.chain_id, 84532);
    assert_eq!(VortexConfig::default_for_lowercase("testnet", "m").chain.chain_id, 84532);
    assert_eq!(VortexConfig::default_for_lowercase("Sepolia", "m").chain.chain_id, 8453);
    assert_eq!(VortexConfig::default_for_lowercase("base", "m").chain.chain_id, 8453);
}
