use vortex_369::synthetic::generator::{
    calculate_resonance, generate_description, generate_event_type, generate_timestamp,
    MAX_FREQUENCY, MAX_TIME,
};
use vortex_369::synthetic::{EventType, SyntheticGenerator};

fn hz(value: f64) -> u64 {
    (value * 1_000_000.0).round() as u64
}

fn to_hz(value: u64) -> f64 {
    value as f64 / 1_000_000.0
}

#[test]
fn generator_test_deterministic_generation() {
    let seed = [0u8; 32];
    let mut gen1 = SyntheticGenerator::new(seed, hz(432.0));
    let mut gen2 = SyntheticGenerator::new(seed, hz(432.0));

    let event1 = gen1.generate_event();
    let event2 = gen2.generate_event();

    assert_eq!(event1.resonance, event2.resonance);
    assert_eq!(event1.event_type, event2.event_type);
}

#[test]
fn test_frequency_alignment() {
    let mut gen = SyntheticGenerator::new([0u8; 32], hz(432.0));
    let event = gen.generate_event();

    // Resonance should be close to 432 Hz
    assert!((to_hz(event.resonance) - 432.0).abs() < 50.0);
}

#[test]
fn test_batch_generation() {
    let mut gen = SyntheticGenerator::new([0u8; 32], hz(432.0));
    let batch = gen.generate_batch(9);

    assert_eq!(batch.len(), 9);
    assert_eq!(gen.event_count(), 9);
}

#[test]
fn integration_tests_test_deterministic_generation() {
    let seed = [0u8; 32];
    let mut gen1 = SyntheticGenerator::new(seed, hz(432.0));
    let mut gen2 = SyntheticGenerator::new(seed, hz(432.0));

    let event1 = gen1.generate_event();
    let event2 = gen2.generate_event();

    assert_eq!(event1.resonance, event2.resonance);
    assert_eq!(event1.event_type, event2.event_type);
    assert_eq!(event1.description, event2.description);
}

#[test]
fn first_events_of_the_zero_seed() {
    // The ChaCha20 stream of the all-zero key begins with the words
    // ade0b876 903df1a0 e56a5d40 28bd8653 b819d2bd 1aed8da0.
    let mut generator = SyntheticGenerator::new([0u8; 32], hz(432.0));
    let first = generator.generate_event_at(1000);
    assert_eq!(first.event_type, EventType::YieldHarvest);
    assert_eq!(first.resonance, 441_856_480);
    assert_eq!(first.timestamp, 1000);
    assert_eq!(first.description, "Harvest yield from pool #52");
    assert_eq!(first.target_address, [0u8; 20]);
    assert_eq!(first.value, 0);
    assert_eq!(first.phase, 0);

    let second = generator.generate_event_at(1000);
    assert_eq!(second.event_type, EventType::Liquidation);
    assert_eq!(second.resonance, 459_952_725);
    assert_eq!(second.timestamp, 1001);
    assert_eq!(second.description, "Liquidate position #904");
    assert_eq!(generator.event_count(), 2);
}

#[test]
fn same_seed_same_sequence() {
    for seed_byte in [0u8, 1, 7, 255] {
        let mut a = SyntheticGenerator::new([seed_byte; 32], hz(432.0));
        let mut b = SyntheticGenerator::new([seed_byte; 32], hz(432.0));
        for n in 0..40u64 {
            let x = a.generate_event_at(5000 + n);
            let y = b.generate_event_at(5000 + n);
            assert_eq!(x.event_type, y.event_type);
            assert_eq!(x.resonance, y.resonance);
            assert_eq!(x.description, y.description);
            assert_eq!(x.timestamp, y.timestamp);
        }
    }
}

#[test]
fn a_batch_is_the_same_as_single_events() {
    let mut a = SyntheticGenerator::new([3u8; 32], hz(100.0));
    let mut b = SyntheticGenerator::new([3u8; 32], hz(100.0));
    let batch = a.generate_batch_at(20, 77);
    for item in batch.iter() {
        let single = b.generate_event_at(77);
        assert_eq!(item.resonance, single.resonance);
        assert_eq!(item.description, single.description);
        assert_eq!(item.event_type, single.event_type);
        assert_eq!(item.timestamp, single.timestamp);
    }
    assert_eq!(a.event_count(), 20);
    assert!(a.generate_batch_at(0, 77).is_empty());
}

#[test]
fn timestamps_sit_on_the_nine_second_grid() {
    let mut generator = SyntheticGenerator::from_block_hash([9u8; 32]);
    for n in 1..=20u64 {
        let event = generator.generate_event_at(1_700_000_005);
        assert_eq!(event.timestamp, (1_700_000_005 / 9) * 9 + n % 9);
    }
    let mut late = SyntheticGenerator::new([9u8; 32], hz(432.0));
    let event = late.generate_event_at(MAX_TIME);
    assert_eq!(event.timestamp, (MAX_TIME / 9) * 9 + 1);
}

#[test]
fn resonance_stays_in_its_band() {
    let mut generator = SyntheticGenerator::new([5u8; 32], hz(432.0));
    for _ in 0..200 {
        let event = generator.generate_event_at(0);
        assert!(event.resonance >= hz(388.8) - 1);
        assert!(event.resonance <= hz(513.216));
    }
    let mut wide = SyntheticGenerator::new([5u8; 32], MAX_FREQUENCY);
    for _ in 0..50 {
        let event = wide.generate_event_at(0);
        assert!(event.resonance as u128 * 10 >= MAX_FREQUENCY as u128 * 9 - 9);
    }
    let mut silent = SyntheticGenerator::new([5u8; 32], 0);
    assert_eq!(silent.generate_event_at(0).resonance, 0);
}

#[test]
fn descriptions_follow_the_category() {
    let mut generator = SyntheticGenerator::new([11u8; 32], hz(432.0));
    for _ in 0..200 {
        let event = generator.generate_event_at(0);
        let (prefix, limit) = match event.event_type {
            EventType::Liquidation => ("Liquidate position #", 1000u64),
            EventType::YieldHarvest => ("Harvest yield from pool #", 100),
            EventType::Rebalance => ("Rebalance strategy #", 50),
            EventType::Custom => ("Custom action #", 1 << 32),
        };
        assert!(event.description.starts_with(prefix));
        let number = &event.description[prefix.len()..];
        assert_eq!(number.parse::<u64>().unwrap().to_string(), number);
        assert!(number.parse::<u64>().unwrap() < limit);
    }
}

#[test]
fn categories_by_band() {
    for (word, expected) in [
        (0u32, EventType::Liquidation),
        (33, EventType::Liquidation),
        (34, EventType::YieldHarvest),
        (66, EventType::YieldHarvest),
        (67, EventType::Rebalance),
        (90, EventType::Rebalance),
        (91, EventType::Custom),
        (99, EventType::Custom),
        (100, EventType::Liquidation),
        (4_294_967_295, EventType::Custom),
        (4_294_967_233, EventType::Liquidation),
    ] {
        assert_eq!(generate_event_type(word), expected);
    }
}

#[test]
fn resonance_formula() {
    let base = hz(432.0);
    // the lowest draw gives 0.9 x base, the highest 1.1 x base; event 9 has no modulation
    assert_eq!(calculate_resonance(base, 0, 9), hz(388.8));
    assert_eq!(calculate_resonance(base, u32::MAX, 9), hz(475.2));
    // event 8 is raised by 8%
    assert_eq!(calculate_resonance(base, 0, 8), hz(419.904));
    assert_eq!(calculate_resonance(base, u32::MAX, 8), hz(513.216));
    assert_eq!(calculate_resonance(base, u32::MAX, 17), hz(513.216));
    // a draw in the middle, rounded down: 432 x (0.9 + 0.2 x 2147483647 / 4294967295) x 1.01
    assert_eq!(calculate_resonance(base, 2_147_483_647, 1), 436_319_999);
    assert_eq!(calculate_resonance(1, u32::MAX, 8), 1);
    assert_eq!(calculate_resonance(1, 0, 0), 0);
    assert_eq!(calculate_resonance(MAX_FREQUENCY, u32::MAX, 8), 10_957_365_979_783_473_658);
}

#[test]
fn time_grid() {
    assert_eq!(generate_timestamp(0, 0), 0);
    assert_eq!(generate_timestamp(8, 1), 1);
    assert_eq!(generate_timestamp(9, 9), 9);
    assert_eq!(generate_timestamp(17, 8), 17);
    assert_eq!(generate_timestamp(19, 10), 19);
    assert_eq!(generate_timestamp(MAX_TIME, 8), u64::MAX - 7);
    assert_eq!(generate_timestamp(100, u64::MAX), 99 + u64::MAX % 9);
}

#[test]
fn descriptions_by_category() {
    assert_eq!(generate_description(EventType::Liquidation, 1999), "Liquidate position #999");
    assert_eq!(generate_description(EventType::Liquidation, 2000), "Liquidate position #0");
    assert_eq!(generate_description(EventType::YieldHarvest, 1999), "Harvest yield from pool #99");
    assert_eq!(generate_description(EventType::Rebalance, 1999), "Rebalance strategy #49");
    assert_eq!(generate_description(EventType::Custom, 1999), "Custom action #1999");
    assert_eq!(generate_description(EventType::Custom, 0), "Custom action #0");
    assert_eq!(generate_description(EventType::Custom, u32::MAX), "Custom action #4294967295");
}
