//! Scores of proposal texts.

use vstd::prelude::*;
use crate::text::{
    chars_of, concat, contains, join, joined, lowercase, occurs_in, spec_word_count, texts_of,
    to_lowercase, word_count,
};

verus! {

/// The keywords among `keywords` that stand in `text`, in their order.
pub open spec fn present(keywords: Seq<Seq<char>>, text: Seq<char>) -> Seq<Seq<char>>
    decreases keywords.len(),
{
    if keywords.len() == 0 {
        Seq::empty()
    } else {
        let earlier = present(keywords.drop_last(), text);
        if occurs_in(keywords.last(), text) {
            earlier.push(keywords.last())
        } else {
            earlier
        }
    }
}

/// One note per keyword: the prefix, the keyword and a closing quote.
pub open spec fn keyword_notes(prefix: Seq<char>, found: Seq<Seq<char>>) -> Seq<Seq<char>> {
    found.map_values(|keyword: Seq<char>| prefix + keyword + "'"@)
}

/// Keywords worth 20 points each.
pub open spec fn high_keywords() -> Seq<Seq<char>> {
    seq!["vortex"@, "harmony"@, "arcturian"@, "abundance"@, "369"@]
}

/// Keywords worth 15 points each.
pub open spec fn medium_keywords() -> Seq<Seq<char>> {
    seq!["resonance"@, "432"@, "manifest"@, "light"@, "healing"@]
}

/// Keywords worth 10 points each.
pub open spec fn low_keywords() -> Seq<Seq<char>> {
    seq!["frequency"@, "energy"@, "consciousness"@, "unity"@, "love"@]
}

/// How many keywords of the three lists stand in the lowercase text.
pub open spec fn keyword_hits(lower: Seq<char>) -> nat {
    present(high_keywords(), lower).len() + present(medium_keywords(), lower).len() + present(
        low_keywords(),
        lower,
    ).len()
}

/// The resonance score of a text with the given lowercase form.
///
/// From a base of 50, each keyword that stands in the lowercase text adds
/// 20, 15 or 10 points by its list; more than three keywords add 10; more
/// than 20 words add 5; fewer than 5 words take 20 away. The result is cut
/// at 100, and then a mention of "432 hz" and one of "369 code" add 5 each.
pub open spec fn resonance_score_of(text: Seq<char>, lower: Seq<char>) -> nat {
    let words = spec_word_count(text);
    let keywords = 50 + 20 * present(high_keywords(), lower).len() + 15 * present(
        medium_keywords(),
        lower,
    ).len() + 10 * present(low_keywords(), lower).len();
    let many: nat = if keyword_hits(lower) > 3 {
        10
    } else {
        0
    };
    let detailed: nat = if words > 20 {
        5
    } else {
        0
    };
    let raw = keywords + many + detailed;
    let brief = if words < 5 {
        (raw - 20) as nat
    } else {
        raw
    };
    let capped = if brief > 100 {
        100
    } else {
        brief
    };
    let hz: nat = if occurs_in("432 hz"@, lower) {
        5
    } else {
        0
    };
    let code: nat = if occurs_in("369 code"@, lower) {
        5
    } else {
        0
    };
    capped + hz + code
}

/// The notes that explain a resonance score, in the order in which the
/// points are given.
pub open spec fn resonance_notes_of(text: Seq<char>, lower: Seq<char>) -> Seq<Seq<char>> {
    let words = spec_word_count(text);
    keyword_notes("+20 for '"@, present(high_keywords(), lower)) + keyword_notes(
        "+15 for '"@,
        present(medium_keywords(), lower),
    ) + keyword_notes("+10 for '"@, present(low_keywords(), lower)) + (if keyword_hits(lower) > 3 {
        seq!["+10 for multiple resonance keywords"@]
    } else {
        Seq::empty()
    }) + (if words > 20 {
        seq!["+5 for detailed proposal"@]
    } else {
        Seq::empty()
    }) + (if words < 5 {
        seq!["-20 for too brief"@]
    } else {
        Seq::empty()
    }) + (if occurs_in("432 hz"@, lower) {
        seq!["+5 for 432 Hz reference"@]
    } else {
        Seq::empty()
    }) + (if occurs_in("369 code"@, lower) {
        seq!["+5 for 369 code reference"@]
    } else {
        Seq::empty()
    })
}

/// The explanation of a resonance score: its notes joined by `"; "`, or a
/// fixed sentence where there is none.
pub open spec fn resonance_explanation_of(text: Seq<char>, lower: Seq<char>) -> Seq<char> {
    let notes = resonance_notes_of(text, lower);
    if notes.len() == 0 {
        "Base resonance score"@
    } else {
        joined(notes, "; "@)
    }
}

/// The resonance score of a text.
pub open spec fn spec_resonance_score(text: Seq<char>) -> nat {
    resonance_score_of(text, lowercase(text))
}

/// The explanation of the resonance score of a text.
pub open spec fn spec_resonance_explanation(text: Seq<char>) -> Seq<char> {
    resonance_explanation_of(text, lowercase(text))
}

/// The keywords as plain values.
pub open spec fn keyword_texts(keywords: Seq<&'static str>) -> Seq<Seq<char>> {
    keywords.map_values(|keyword: &'static str| keyword@)
}

/// Looks for each keyword in the lowercase text and notes those found.
fn note_keywords(
    lower: &Vec<char>,
    keywords: &[&'static str; 5],
    prefix: &str,
    notes: &mut Vec<String>,
) -> (hits: u8)
    ensures
        hits == present(keyword_texts(keywords@), lower@).len(),
        hits <= 5,
        texts_of(final(notes)@) == texts_of(old(notes)@) + keyword_notes(
            prefix@,
            present(keyword_texts(keywords@), lower@),
        ),
{
    let ghost all = keyword_texts(keywords@);
    let mut hits: u8 = 0;
    let mut i: usize = 0;
    proof {
        assert(all.take(0) =~= Seq::<Seq<char>>::empty());
        assert(texts_of(notes@) =~= texts_of(old(notes)@) + keyword_notes(
            prefix@,
            present(all.take(0), lower@),
        ));
    }
    while i < 5
        invariant
            i <= 5,
            all == keyword_texts(keywords@),
            hits == present(all.take(i as int), lower@).len(),
            hits <= i,
            texts_of(notes@) == texts_of(old(notes)@) + keyword_notes(
                prefix@,
                present(all.take(i as int), lower@),
            ),
        decreases 5 - i,
    {
        let keyword: &'static str = keywords[i];
        proof {
            let upto = all.take(i + 1);
            assert(upto.drop_last() =~= all.take(i as int));
            assert(upto.last() == keyword@);
        }
        if contains(lower, keyword) {
            let mut note = concat(prefix, keyword);
            note.append("'");
            let ghost before = texts_of(notes@);
            notes.push(note);
            proof {
                let found = present(all.take(i as int), lower@);
                assert(texts_of(notes@) =~= before.push(prefix@ + keyword@ + "'"@));
                assert(keyword_notes(prefix@, found.push(keyword@)) =~= keyword_notes(
                    prefix@,
                    found,
                ).push(prefix@ + keyword@ + "'"@));
                assert(texts_of(notes@) =~= texts_of(old(notes)@) + keyword_notes(
                    prefix@,
                    found.push(keyword@),
                ));
            }
            hits = hits + 1;
        }
        i = i + 1;
    }
    assert(all.take(5) =~= all);
    hits
}

/// Adds a fixed note.
fn push_note(notes: &mut Vec<String>, note: &str)
    ensures
        texts_of(final(notes)@) == texts_of(old(notes)@) + seq![note@],
{
    let ghost before = texts_of(notes@);
    notes.push(note.to_owned());
    assert(texts_of(notes@) =~= before + seq![note@]);
}

/// The resonance score of a proposal text with its explanation.
pub fn calculate_resonance_score(text: &str) -> (scored: (u8, String))
    ensures
        scored.0 == spec_resonance_score(text@),
        scored.1@ == spec_resonance_explanation(text@),
        scored.0 <= 110,
{
    let lower_text = to_lowercase(text);
    score_with_lowercase(text, lower_text.as_str())
}

/// The resonance score of a proposal text whose lowercase form is
/// `lower_text`, with its explanation.
pub fn score_with_lowercase(text: &str, lower_text: &str) -> (scored: (u8, String))
    ensures
        scored.0 == resonance_score_of(text@, lower_text@),
        scored.1@ == resonance_explanation_of(text@, lower_text@),
        scored.0 <= 110,
{
    let mut explanations: Vec<String> = Vec::new();
    let lower = chars_of(lower_text);
    let plain = chars_of(text);
    let ghost empty = Seq::<Seq<char>>::empty();
    assert(texts_of(explanations@) =~= empty);

    let high_keywords: [&'static str; 5] = ["vortex", "harmony", "arcturian", "abundance", "369"];
    let medium_keywords: [&'static str; 5] = ["resonance", "432", "manifest", "light", "healing"];
    let low_keywords: [&'static str; 5] = ["frequency", "energy", "consciousness", "unity", "love"];
    proof {
        assert(keyword_texts(high_keywords@) =~= self::high_keywords());
        assert(keyword_texts(medium_keywords@) =~= self::medium_keywords());
        assert(keyword_texts(low_keywords@) =~= self::low_keywords());
    }

    let high = note_keywords(&lower, &high_keywords, "+20 for '", &mut explanations);
    let medium = note_keywords(&lower, &medium_keywords, "+15 for '", &mut explanations);
    let low = note_keywords(&lower, &low_keywords, "+10 for '", &mut explanations);
    let mut score: u16 = 50 + 20 * (high as u16) + 15 * (medium as u16) + 10 * (low as u16);

    let total_keywords: u8 = high + medium + low;
    if total_keywords > 3 {
        score = score + 10;
        push_note(&mut explanations, "+10 for multiple resonance keywords");
    }
    let words = word_count(&plain);
    if words > 20 {
        score = score + 5;
        push_note(&mut explanations, "+5 for detailed proposal");
    }
    if words < 5 {
        score = score - 20;
        push_note(&mut explanations, "-20 for too brief");
    }
    if score > 100 {
        score = 100;
    }
    if contains(&lower, "432 hz") {
        score = score + 5;
        push_note(&mut explanations, "+5 for 432 Hz reference");
    }
    if contains(&lower, "369 code") {
        score = score + 5;
        push_note(&mut explanations, "+5 for 369 code reference");
    }
    assert(texts_of(explanations@) =~= resonance_notes_of(text@, lower_text@));
    let explanation = if explanations.len() == 0 {
        "Base resonance score".to_owned()
    } else {
        join(&explanations, "; ")
    };
    (score as u8, explanation)
}

} // verus!
