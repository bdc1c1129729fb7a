use sha3::{Digest, Keccak256};
use vortex_369::embedding::vector::{dot_product, magnitude_of, squares};
use vortex_369::embedding::{SemanticAnalyzer, VectorEmbedder};
use vortex_369::fixed::{div_floor, isqrt, isqrt_product};
use vortex_369::wide::{from_u128, less_than, mul_small, mul_u128, mul_u64, shifted, sum_of};

fn units(vector: [f32; 9]) -> [i32; 9] {
    let mut out = [0i32; 9];
    for i in 0..9 {
        out[i] = (vector[i] as f64 * 1_000_000.0).round() as i32;
    }
    out
}

fn to_unit(value: i64) -> f64 {
    value as f64 / 1_000_000.0
}

#[test]
fn embedder_test_embedding_deterministic() {
    let embedder = VectorEmbedder::default();
    let text = "Test proposal for liquidation";

    let emb1 = embedder.embed(text).unwrap();
    let emb2 = embedder.embed(text).unwrap();

    assert_eq!(emb1, emb2);
}

#[test]
fn test_embedding_dimension() {
    let embedder = VectorEmbedder::default();
    let embedding = embedder.embed("test").unwrap();

    assert_eq!(embedding.len(), 9);
}

#[test]
fn test_different_texts_different_embeddings() {
    let embedder = VectorEmbedder::default();

    let emb1 = embedder.embed("Liquidate position").unwrap();
    let emb2 = embedder.embed("Harvest yield").unwrap();

    assert_ne!(emb1, emb2);
}

#[test]
fn test_magnitude() {
    let embedder = VectorEmbedder::default();
    let embedding = units([1.0, 0.0, 0.0, 0.0, 0.0, 0.0, 0.0, 0.0, 0.0]);

    let mag = embedder.magnitude(&embedding);
    assert!((to_unit(mag as i64) - 1.0).abs() < 0.001);
}

#[test]
fn test_normalization() {
    let embedder = VectorEmbedder::default();
    let mut embedding = units([3.0, 4.0, 0.0, 0.0, 0.0, 0.0, 0.0, 0.0, 0.0]);

    embedder.normalize(&mut embedding);
    let mag = embedder.magnitude(&embedding);

    assert!((to_unit(mag as i64) - 1.0).abs() < 0.001);
}

#[test]
fn test_batch_embedding() {
    let embedder = VectorEmbedder::default();
    let texts = vec![
        "First proposal".to_string(),
        "Second proposal".to_string(),
        "Third proposal".to_string(),
    ];

    let embeddings = embedder.embed_batch(&texts).unwrap();
    assert_eq!(embeddings.len(), 3);
}

#[test]
fn test_cosine_similarity() {
    let analyzer = SemanticAnalyzer::new();
    let a = units([1.0; 9]);
    let b = units([1.0; 9]);

    let sim = analyzer.cosine_similarity(&a, &b);
    assert!((to_unit(sim as i64) - 1.0).abs() < 0.001);
}

#[test]
fn test_anti_proposal() {
    let analyzer = SemanticAnalyzer::new();
    let vector = units([1.0; 9]);
    let anti = analyzer.generate_anti_proposal(&vector);

    assert_eq!(to_unit(anti[0] as i64), -1.0);
}

#[test]
fn integration_tests_test_embedding_deterministic() {
    let embedder = VectorEmbedder::default();
    let text = "Test proposal for liquidation";

    let emb1 = embedder.embed(text).unwrap();
    let emb2 = embedder.embed(text).unwrap();

    assert_eq!(emb1, emb2);
}

#[test]
fn test_vector_similarity() {
    let embedder = VectorEmbedder::default();
    let analyzer = SemanticAnalyzer::new();

    let text1 = "Liquidate position";
    let text2 = "Liquidate position"; // Same
    let text3 = "Harvest yield"; // Different

    let emb1 = embedder.embed(text1).unwrap();
    let emb2 = embedder.embed(text2).unwrap();
    let emb3 = embedder.embed(text3).unwrap();

    let sim_same = analyzer.cosine_similarity(&emb1, &emb2);
    let sim_diff = analyzer.cosine_similarity(&emb1, &emb3);

    assert_eq!(to_unit(sim_same as i64), 1.0); // Identical
    assert!(to_unit(sim_diff as i64) < 1.0); // Different
}

fn floor_div(a: i64, b: i64) -> i64 {
    a.div_euclid(b)
}

#[test]
fn embedding_follows_the_digest() {
    let embedder = VectorEmbedder::default();
    let text = "Liquidate position #904";
    let digest = Keccak256::digest(text.as_bytes());
    let wide: Vec<i64> =
        (0..384).map(|i| (2 * digest[i % 32] as i64 * 1_000_000) / 255 - 1_000_000).collect();
    assert_eq!(
        embedder.hash_based_embedding(text).iter().map(|v| *v as i64).collect::<Vec<i64>>(),
        wide
    );
    let scales = [3i64, 1, 1, 6, 1, 1, 9, 1, 1];
    let mut expected = [0i32; 9];
    for i in 0..9 {
        let sum: i64 = wide[42 * i..42 * i + 42].iter().sum();
        expected[i] = floor_div(floor_div(sum, 42) * scales[i], 6) as i32;
    }
    assert_eq!(embedder.embed(text).unwrap(), expected);
}

#[test]
fn reduce_checks_the_dimension() {
    let embedder = VectorEmbedder::new(Some("model.onnx".to_string())).unwrap();
    assert_eq!(
        embedder.reduce_to_9d(&[0; 10]).unwrap_err(),
        "Invalid embedding dimension: expected 384, got 10"
    );
    assert_eq!(embedder.reduce_to_9d(&[1_000_000; 384]).unwrap(), [
        500_000, 166_666, 166_666, 1_000_000, 166_666, 166_666, 1_500_000, 166_666, 166_666
    ]);
    assert_eq!(embedder.reduce_to_9d(&[-1; 384]).unwrap(), [-1, -1, -1, -1, -1, -1, -2, -1, -1]);
    assert!(VectorEmbedder::with_default_model().is_ok());
}

#[test]
fn scaling_rounds_down() {
    let embedder = VectorEmbedder::default();
    let mut vector = [7, 7, -7, 7, -7, 0, 7, -1, 1_000_000];
    embedder.apply_369_scaling(&mut vector);
    assert_eq!(vector, [3, 1, -2, 7, -2, 0, 10, -1, 166_666]);
}

#[test]
fn square_roots_round_down() {
    assert_eq!(isqrt(0), 0);
    assert_eq!(isqrt(1), 1);
    assert_eq!(isqrt(3), 1);
    assert_eq!(isqrt(4), 2);
    assert_eq!(isqrt(24), 4);
    assert_eq!(isqrt(25), 5);
    assert_eq!(isqrt(u64::MAX as u128 * u64::MAX as u128), u64::MAX);
    assert_eq!(isqrt(u64::MAX as u128 * u64::MAX as u128 - 1), u64::MAX - 1);
    assert_eq!(isqrt(u128::MAX), u64::MAX);
}

#[test]
fn quotients_round_down() {
    assert_eq!(div_floor(7, 2), 3);
    assert_eq!(div_floor(-7, 2), -4);
    assert_eq!(div_floor(-8, 2), -4);
    assert_eq!(div_floor(0, 5), 0);
    assert_eq!(div_floor(-1, 1_000_000), -1);
    assert_eq!(div_floor(i128::MIN + 1, 1), i128::MIN + 1);
}

#[test]
fn vector_sums() {
    let a = [1, -2, 3, -4, 5, -6, 7, -8, 9];
    let b = [9, 8, 7, 6, 5, 4, 3, 2, 1];
    assert_eq!(dot_product(&a, &b), 9 - 16 + 21 - 24 + 25 - 24 + 21 - 16 + 9);
    assert_eq!(squares(&a), 285);
    assert_eq!(magnitude_of(&a), 16);
    assert_eq!(squares(&[i32::MIN; 9]), 9 * (1u128 << 62));
    assert_eq!(magnitude_of(&[i32::MIN; 9]), 3 * (1u64 << 31));
}

#[test]
fn normalization_of_special_vectors() {
    let embedder = VectorEmbedder::default();
    let mut zero = [0i32; 9];
    embedder.normalize(&mut zero);
    assert_eq!(zero, [0; 9]);
    let mut v = units([3.0, -4.0, 0.0, 0.0, 0.0, 0.0, 0.0, 0.0, 0.0]);
    embedder.normalize(&mut v);
    assert_eq!(v, [600_000, -800_000, 0, 0, 0, 0, 0, 0, 0]);
    let mut w = [1, -1, 1, 0, 0, 0, 0, 0, 0];
    embedder.normalize(&mut w);
    assert_eq!(w, [1_000_000, -1_000_000, 1_000_000, 0, 0, 0, 0, 0, 0]);
    let mut extreme = [i32::MIN, i32::MAX, 0, 0, 0, 0, 0, 0, 0];
    embedder.normalize(&mut extreme);
    assert_eq!(extreme[2], 0);
    assert!(extreme[0] >= -1_000_000 && extreme[1] <= 1_000_000);
}

#[test]
fn cosine_of_special_vectors() {
    let analyzer = SemanticAnalyzer::new();
    let x = units([1.0, 0.0, 0.0, 0.0, 0.0, 0.0, 0.0, 0.0, 0.0]);
    let y = units([0.0, 1.0, 0.0, 0.0, 0.0, 0.0, 0.0, 0.0, 0.0]);
    let zero = [0i32; 9];
    assert_eq!(analyzer.cosine_similarity(&x, &y), 0);
    assert_eq!(analyzer.cosine_similarity(&x, &zero), 0);
    assert_eq!(analyzer.cosine_similarity(&zero, &zero), 0);
    assert_eq!(analyzer.cosine_similarity(&x, &analyzer.generate_anti_proposal(&x)), -1_000_000);
    let diagonal = units([1.0, 1.0, 0.0, 0.0, 0.0, 0.0, 0.0, 0.0, 0.0]);
    // cos 45 degrees = 0.70710678...
    assert_eq!(analyzer.cosine_similarity(&x, &diagonal), 707_106);
    let limit = [i32::MAX; 9];
    assert_eq!(analyzer.cosine_similarity(&limit, &limit), 1_000_000);
    assert_eq!(analyzer.cosine_similarity(&limit, &[i32::MIN; 9]), -1_000_000);
    assert_eq!(analyzer.cosine_similarity(&[i32::MIN; 9], &[i32::MIN; 9]), 1_000_000);
    let mut lopsided = [0i32; 9];
    lopsided[0] = i32::MIN;
    // against the diagonal: 1/3
    assert_eq!(analyzer.cosine_similarity(&lopsided, &[i32::MIN; 9]), 333_333);
    assert_eq!(analyzer.cosine_similarity(&lopsided, &limit), -333_334);
}

#[test]
fn vector_scores() {
    let analyzer = SemanticAnalyzer::new();
    assert_eq!(analyzer.calculate_resonance_score(&[0; 9]), 0);
    assert_eq!(analyzer.calculate_resonance_score(&units([1.0; 9])), 1_000_000);
    assert_eq!(analyzer.calculate_resonance_score(&units([0.5; 9])), 500_000);
    assert_eq!(analyzer.calculate_resonance_score(&units([3.0, 4.0, 0.0, 0.0, 0.0, 0.0, 0.0, 0.0, 0.0])), 1_000_000);
    assert_eq!(analyzer.calculate_resonance_score(&[i32::MAX; 9]), 1_000_000);
}

#[test]
fn components_of_a_digest() {
    let embedder = VectorEmbedder::default();
    let mut digest = [0u8; 32];
    digest[1] = 255;
    digest[2] = 128;
    digest[31] = 1;
    let components = embedder.components_of_digest(&digest);
    assert_eq!(components.len(), 384);
    assert_eq!(components[0], -1_000_000);
    assert_eq!(components[1], 1_000_000);
    // 2 x 128 / 255 - 1 = 0.00392156..., rounded down
    assert_eq!(components[2], 3_921);
    // 2 / 255 - 1 = -0.99215686..., where the quotient is rounded down
    assert_eq!(components[31], -992_157);
    assert_eq!(components[32], components[0]);
    assert_eq!(components[33], components[1]);
    assert_eq!(components[383], components[31]);
}

#[test]
fn roots_of_products() {
    assert_eq!(isqrt_product(0, 5), 0);
    assert_eq!(isqrt_product(4, 9), 6);
    assert_eq!(isqrt_product(2, 1), 1);
    assert_eq!(isqrt_product(1 << 65, 1 << 65), 1 << 65);
    assert_eq!(isqrt_product((1 << 66) - 1, (1 << 66) - 1), (1 << 66) - 1);
    assert_eq!(isqrt_product((1 << 66) - 1, (1 << 66) - 2), (1 << 66) - 2);
    assert_eq!(isqrt_product(u64::MAX as u128, u64::MAX as u128 + 2), u64::MAX as u128);
}

fn limbs(x: u128) -> Vec<u32> {
    (0..4).map(|i| (x >> (32 * i)) as u32).collect()
}

fn number(limbs: &[u32]) -> u128 {
    let mut x = 0u128;
    for (i, limb) in limbs.iter().enumerate() {
        if *limb != 0 {
            x += (*limb as u128) << (32 * i);
        }
    }
    x
}

#[test]
fn wide_numbers() {
    assert_eq!(from_u128(0), vec![0, 0, 0, 0]);
    assert_eq!(from_u128(u128::MAX), vec![u32::MAX; 4]);
    assert_eq!(from_u128(0x1_0000_0002), vec![2, 1, 0, 0]);
    for x in [0u128, 1, 0xffff_ffff, 0x1_0000_0000, 1 << 64, (1 << 96) + 12345, u128::MAX >> 1] {
        assert_eq!(from_u128(x), limbs(x));
        assert_eq!(number(&sum_of(&from_u128(x), &from_u128(x))), 2 * x);
        assert_eq!(number(&sum_of(&from_u128(x), &vec![])), x);
        assert_eq!(number(&mul_small(&from_u128(x >> 32), u32::MAX)), (x >> 32) * u32::MAX as u128);
        assert_eq!(number(&mul_u64(&from_u128(x >> 64), u64::MAX)), (x >> 64) * u64::MAX as u128);
        assert_eq!(number(&mul_u128(&from_u128(x >> 64), 1 << 63)), (x >> 64) << 63);
        assert_eq!(number(&shifted(&from_u128(x >> 32))), (x >> 32) << 32);
        assert!(!less_than(&from_u128(x), &from_u128(x)));
        assert!(less_than(&from_u128(x), &from_u128(x + 1)));
        assert!(!less_than(&from_u128(x + 1), &from_u128(x)));
        assert!(!less_than(&from_u128(x + 1), &vec![]));
    }
    // 2^128 - 1 squared, beyond 128 bits: (2^128 - 1)^2 = 2^256 - 2^129 + 1
    let square = mul_u128(&from_u128(u128::MAX), u128::MAX);
    let mut expected = vec![1u32, 0, 0, 0, 0xffff_fffe, 0xffff_ffff, 0xffff_ffff, 0xffff_ffff];
    expected.resize(square.len(), 0);
    assert_eq!(square, expected);
    assert!(less_than(&from_u128(u128::MAX), &square));
    assert!(less_than(&vec![5, 0, 0], &vec![0, 1]));
    assert!(!less_than(&vec![0, 1], &vec![5, 0, 0]));
    assert!(less_than(&vec![], &vec![0, 0, 1]));
}
