use vortex_369::scoring::{calculate_resonance_score, score_with_lowercase};

#[test]
fn main_test_high_resonance_keywords() {
    let (score, explanation) = calculate_resonance_score("Create harmony through 369 resonance");
    assert!(score > 66u8, "Should score high with resonance keywords");
    assert!(explanation.contains("+20"));
}

#[test]
fn main_test_medium_resonance() {
    let (score, _) = calculate_resonance_score("Moderate proposal with some keywords");
    assert!(score >= 33u8 && score <= 66u8, "Should score medium");
}

#[test]
fn test_432_hz_bonus() {
    let (score1, _) = calculate_resonance_score("Proposal with 432 hz");
    let (score2, _) = calculate_resonance_score("Proposal without");
    assert!(score1 > score2, "432 Hz should give bonus");
}

#[test]
fn test_detailed_proposal_bonus() {
    let (score1, _) = calculate_resonance_score("Short proposal");
    let (score2, _) = calculate_resonance_score("This is a very detailed proposal with many words explaining the harmony and resonance through 369 codes and 432 hz frequencies");
    assert!(score2 > score1, "Detailed proposal should score higher");
}

#[test]
fn resonance_test_test_high_resonance_keywords() {
    let proposal = "Create abundance through 369 resonance and 432 Hz harmony with vortex energy";
    let (score, _) = calculate_resonance_score(proposal);
    assert!(score > 66, "Score was {}, expected > 66", score);
}

#[test]
fn resonance_test_test_medium_resonance() {
    let proposal = "Improve our documentation and user experience";
    let (score, _) = calculate_resonance_score(proposal);
    assert!(score >= 33 && score <= 66, "Score was {}, expected 33-66", score);
}

#[test]
fn resonance_score_exact_values() {
    assert_eq!(
        calculate_resonance_score("Create harmony through 369 resonance"),
        (100, "+20 for 'harmony'; +20 for '369'; +15 for 'resonance'".to_string())
    );
    assert_eq!(
        calculate_resonance_score("Moderate proposal with some keywords"),
        (50, "Base resonance score".to_string())
    );
    assert_eq!(calculate_resonance_score(""), (30, "-20 for too brief".to_string()));
    assert_eq!(
        calculate_resonance_score("Proposal with 432 hz"),
        (50, "+15 for '432'; -20 for too brief; +5 for 432 Hz reference".to_string())
    );
    assert_eq!(
        calculate_resonance_score("LOVE the 369 Code of unity and light"),
        (
            105,
            "+20 for '369'; +15 for 'light'; +10 for 'unity'; +10 for 'love'; \
             +10 for multiple resonance keywords; +5 for 369 code reference"
                .to_string()
        )
    );
}

#[test]
fn resonance_score_with_every_keyword() {
    let text = "vortex harmony arcturian abundance 369 code resonance 432 hz manifest light \
                healing frequency energy consciousness unity love and a few more words here";
    let (score, explanation) = calculate_resonance_score(text);
    assert_eq!(score, 110);
    assert_eq!(explanation.matches("; ").count(), 18);
    assert!(explanation.ends_with("+5 for 432 Hz reference; +5 for 369 code reference"));
    assert!(explanation.contains("+5 for detailed proposal"));
}

#[test]
fn resonance_score_counts_words_by_white_space() {
    // five words separated by tabs, newlines and runs of blanks
    let (score, explanation) = calculate_resonance_score("  one\ttwo\n\nthree   four\u{2003}five ");
    assert_eq!(score, 50);
    assert_eq!(explanation, "Base resonance score");
    let (score, _) = calculate_resonance_score("one two three four");
    assert_eq!(score, 30);
}

#[test]
fn keywords_are_sought_in_the_lowercase_form() {
    // The words are counted in the text, the keywords in what is given as
    // its lowercase form.
    assert_eq!(
        score_with_lowercase("one two three four five", "vortex"),
        (70, "+20 for 'vortex'".to_string())
    );
    assert_eq!(
        score_with_lowercase("VORTEX", "VORTEX"),
        (30, "-20 for too brief".to_string())
    );
    assert_eq!(
        score_with_lowercase("VORTEX", "vortex"),
        (50, "+20 for 'vortex'; -20 for too brief".to_string())
    );
    assert_eq!(calculate_resonance_score("VORTEX"), score_with_lowercase("VORTEX", "vortex"));
}
