//! The vortex score of a proposal text.

use vstd::prelude::*;
use vstd::utf8::encode_utf8;
use crate::constants::spec_digital_root;
use crate::text::{
    chars_of, contains, decimal, join, joined, lowercase, occurs_in, push_decimal,
    spec_word_count, texts_of, to_lowercase, word_count,
};

verus! {

/// The value of a character: 1 to 26 for the letters A to Z in either case,
/// 0 for anything else.
pub open spec fn spec_char_value(c: char) -> nat {
    if 'a' <= c && c <= 'z' {
        (c as u32 - 'a' as u32 + 1) as nat
    } else if 'A' <= c && c <= 'Z' {
        (c as u32 - 'A' as u32 + 1) as nat
    } else {
        0
    }
}

/// The value of a character.
pub fn char_to_value(c: char) -> (value: u32)
    ensures
        value == spec_char_value(c),
        value <= 26,
{
    if 'a' <= c && c <= 'z' {
        c as u32 - 'a' as u32 + 1
    } else if 'A' <= c && c <= 'Z' {
        c as u32 - 'A' as u32 + 1
    } else {
        0
    }
}

/// The digital root of `num`.
pub fn digital_root(num: u32) -> (root: u32)
    ensures
        root == spec_digital_root(num as nat),
{
    crate::constants::digital_root(num as u64) as u32
}

/// Sum of the values of the characters.
pub open spec fn letter_sum(text: Seq<char>) -> nat
    decreases text.len(),
{
    if text.len() == 0 {
        0
    } else {
        letter_sum(text.drop_last()) + spec_char_value(text.last())
    }
}

/// The vortex value of a text: its letter sum modulo 9, and 1 for a text
/// without letters.
pub open spec fn vortex_value(text: Seq<char>) -> nat {
    if letter_sum(text) == 0 {
        1
    } else {
        letter_sum(text) % 9
    }
}

/// The keywords with their points, highest first.
pub open spec fn keyword_table() -> Seq<(Seq<char>, nat)> {
    seq![
        ("ananda"@, 99nat),
        ("sovereign"@, 50nat),
        ("love"@, 50nat),
        ("joy"@, 50nat),
        ("369"@, 50nat),
        ("abundance"@, 40nat),
        ("merkaba"@, 35nat),
        ("vortex"@, 30nat),
        ("crystalline"@, 30nat),
        ("arcturian"@, 25nat),
        ("infinity"@, 25nat),
        ("harmony"@, 20nat),
        ("coherence"@, 20nat),
        ("awakening"@, 20nat),
        ("migration"@, 15nat),
        ("eternal"@, 15nat),
        ("xrp"@, 10nat),
    ]
}

/// The points of the keywords of `table` that stand in `text`, in the order
/// of the table.
pub open spec fn found_points(table: Seq<(Seq<char>, nat)>, text: Seq<char>) -> Seq<nat>
    decreases table.len(),
{
    if table.len() == 0 {
        Seq::empty()
    } else {
        let earlier = found_points(table.drop_last(), text);
        if occurs_in(table.last().0, text) {
            earlier.push(table.last().1)
        } else {
            earlier
        }
    }
}

/// Sum of the numbers.
pub open spec fn sum_of(numbers: Seq<nat>) -> nat
    decreases numbers.len(),
{
    if numbers.len() == 0 {
        0
    } else {
        sum_of(numbers.drop_last()) + numbers.last()
    }
}

/// The first three of the numbers, or all where there are fewer.
pub open spec fn first_three(numbers: Seq<nat>) -> Seq<nat> {
    if numbers.len() <= 3 {
        numbers
    } else {
        numbers.take(3)
    }
}

/// The keyword bonus of a lowercase text: the three highest points among
/// the keywords that stand in it. The table is ordered by points, so these
/// are the first three found.
pub open spec fn keyword_bonus(lower: Seq<char>) -> nat {
    sum_of(first_three(found_points(keyword_table(), lower)))
}

/// How many of the words stand in `text`.
pub open spec fn count_present(words: Seq<Seq<char>>, text: Seq<char>) -> nat
    decreases words.len(),
{
    if words.len() == 0 {
        0
    } else {
        count_present(words.drop_last(), text) + if occurs_in(words.last(), text) {
            1nat
        } else {
            0
        }
    }
}

/// Words worth 10 mantra points each.
pub open spec fn love_words() -> Seq<Seq<char>> {
    seq!["love"@, "joy"@, "bliss"@, "gratitude"@, "peace"@, "harmony"@]
}

/// Words worth 5 mantra points each.
pub open spec fn rise_words() -> Seq<Seq<char>> {
    seq!["rise"@, "ascend"@, "awaken"@, "sovereign"@, "abundance"@]
}

/// The mantra bonus of a lowercase text, at most 30.
pub open spec fn mantra_bonus(lower: Seq<char>) -> nat {
    let raw = 10 * count_present(love_words(), lower) + 5 * count_present(rise_words(), lower);
    if raw > 30 {
        30
    } else {
        raw
    }
}

/// Whether a text shows a pattern: one of 369, 963, 693, 333, 666, 999
/// stands in it, or it ends with 3, 6 or 9.
pub open spec fn has_pattern(text: Seq<char>) -> bool {
    ||| occurs_in("369"@, text)
    ||| occurs_in("963"@, text)
    ||| occurs_in("693"@, text)
    ||| occurs_in("333"@, text)
    ||| occurs_in("666"@, text)
    ||| occurs_in("999"@, text)
    ||| (text.len() > 0 && (text.last() == '3' || text.last() == '6' || text.last() == '9'))
}

/// The bonus of a digital root: 30, 60 and 90 for the roots 3, 6 and 9.
pub open spec fn root_bonus(root: nat) -> nat {
    if root == 3 {
        30
    } else if root == 6 {
        60
    } else if root == 9 {
        90
    } else {
        0
    }
}

/// The vortex score of a text with the given lowercase form, before the
/// cut at 369.
pub open spec fn raw_vortex_score(text: Seq<char>, lower: Seq<char>) -> nat {
    let bytes = encode_utf8(text).len();
    let root = spec_digital_root(vortex_value(text));
    root * 10 + root_bonus(root) + (if has_pattern(text) {
        33nat
    } else {
        0
    }) + keyword_bonus(lower) + (if spec_word_count(text) == 3 {
        33nat
    } else {
        0
    }) + (if bytes % 9 == 0 && bytes > 0 {
        27nat
    } else {
        0
    }) + mantra_bonus(lower)
}

/// The vortex score of a text with the given lowercase form: ten times
/// the digital root of its vortex value, plus the bonuses for the root, for
/// a pattern, for keywords, for a text of three words, for a length in
/// UTF-8 bytes that is a positive multiple of 9, and for mantra words; at
/// most 369. Keywords and mantra words are looked for in the lowercase
/// form.
pub open spec fn vortex_score_of(text: Seq<char>, lower: Seq<char>) -> nat {
    let raw = raw_vortex_score(text, lower);
    if raw > 369 {
        369
    } else {
        raw
    }
}

/// The vortex score of a text.
pub open spec fn spec_vortex_score(text: Seq<char>) -> nat {
    vortex_score_of(text, lowercase(text))
}

/// The notes that explain the vortex score of a text.
pub open spec fn spec_vortex_notes(text: Seq<char>) -> Seq<Seq<char>> {
    vortex_notes_of(text, lowercase(text))
}

/// The notes that explain a vortex score.
pub open spec fn vortex_notes_of(text: Seq<char>, lower: Seq<char>) -> Seq<Seq<char>> {
    let bytes = encode_utf8(text).len();
    let root = spec_digital_root(vortex_value(text));
    seq!["Base score: "@ + decimal(root * 10) + " (Digital Root "@ + decimal(root) + ")"@] + (
    if root == 3 {
        seq!["Sacred Trinity Creation +30"@]
    } else if root == 6 {
        seq!["Sacred Harmony Flow +60"@]
    } else if root == 9 {
        seq!["Sacred Unity Completion +90"@]
    } else {
        Seq::empty()
    }) + (if has_pattern(text) {
        seq!["Sacred pattern detected +33"@]
    } else {
        Seq::empty()
    }) + (if keyword_bonus(lower) > 0 {
        seq!["Keyword bonuses: "@ + decimal(keyword_bonus(lower))]
    } else {
        Seq::empty()
    }) + (if spec_word_count(text) == 3 {
        seq!["Trinity structure +33"@]
    } else {
        Seq::empty()
    }) + (if bytes % 9 == 0 && bytes > 0 {
        seq!["Length divisible by 9 +27"@]
    } else {
        Seq::empty()
    }) + (if mantra_bonus(lower) > 0 {
        seq!["Mantra bonuses: "@ + decimal(mantra_bonus(lower))]
    } else {
        Seq::empty()
    })
}

/// A keyword and its points.
pub struct Keyword {
    pub word: &'static str,
    pub points: u32,
}

/// The table as plain values.
pub open spec fn table_of(keywords: Seq<Keyword>) -> Seq<(Seq<char>, nat)> {
    keywords.map_values(|keyword: Keyword| (keyword.word@, keyword.points as nat))
}

/// The keywords with their points, highest first.
pub fn get_keywords() -> (keywords: Vec<Keyword>)
    ensures
        table_of(keywords@) == keyword_table(),
{
    let mut keywords: Vec<Keyword> = Vec::new();
    keywords.push(Keyword { word: "ananda", points: 99 });
    keywords.push(Keyword { word: "sovereign", points: 50 });
    keywords.push(Keyword { word: "love", points: 50 });
    keywords.push(Keyword { word: "joy", points: 50 });
    keywords.push(Keyword { word: "369", points: 50 });
    keywords.push(Keyword { word: "abundance", points: 40 });
    keywords.push(Keyword { word: "merkaba", points: 35 });
    keywords.push(Keyword { word: "vortex", points: 30 });
    keywords.push(Keyword { word: "crystalline", points: 30 });
    keywords.push(Keyword { word: "arcturian", points: 25 });
    keywords.push(Keyword { word: "infinity", points: 25 });
    keywords.push(Keyword { word: "harmony", points: 20 });
    keywords.push(Keyword { word: "coherence", points: 20 });
    keywords.push(Keyword { word: "awakening", points: 20 });
    keywords.push(Keyword { word: "migration", points: 15 });
    keywords.push(Keyword { word: "eternal", points: 15 });
    keywords.push(Keyword { word: "xrp", points: 10 });
    assert(table_of(keywords@) =~= keyword_table());
    keywords
}

/// The points in the table never rise, so among the points found the first
/// three are the three highest.
pub proof fn lemma_first_found_are_highest(text: Seq<char>, i: int, j: int)
    requires
        0 <= i < j < found_points(keyword_table(), text).len(),
    ensures
        found_points(keyword_table(), text)[i] >= found_points(keyword_table(), text)[j],
{
    lemma_found_points_descend(keyword_table(), text, i, j);
}

/// In a table whose points never rise, the points found never rise.
proof fn lemma_found_points_descend(table: Seq<(Seq<char>, nat)>, text: Seq<char>, i: int, j: int)
    requires
        forall|a: int, b: int| 0 <= a < b < table.len() ==> table[a].1 >= table[b].1,
        0 <= i < j < found_points(table, text).len(),
    ensures
        found_points(table, text)[i] >= found_points(table, text)[j],
    decreases table.len(),
{
    if table.len() > 0 {
        let shorter = table.drop_last();
        let earlier = found_points(shorter, text);
        if j < earlier.len() {
            lemma_found_points_descend(shorter, text, i, j);
        } else {
            lemma_found_points_floor(shorter, text, i, table.last().1);
        }
    }
}

/// Each point found is a point of the table, so it is at least any bound
/// under all of them.
proof fn lemma_found_points_floor(table: Seq<(Seq<char>, nat)>, text: Seq<char>, i: int, floor: nat)
    requires
        forall|a: int| 0 <= a < table.len() ==> (#[trigger] table[a]).1 >= floor,
        0 <= i < found_points(table, text).len(),
    ensures
        found_points(table, text)[i] >= floor,
    decreases table.len(),
{
    if table.len() > 0 {
        let shorter = table.drop_last();
        let earlier = found_points(shorter, text);
        if i < earlier.len() {
            assert forall|a: int| 0 <= a < shorter.len() implies (#[trigger] shorter[a]).1
                >= floor by {
                assert(shorter[a] == table[a]);
            }
            lemma_found_points_floor(shorter, text, i, floor);
        } else {
            assert(table[table.len() - 1].1 >= floor);
        }
    }
}

/// The keyword bonus: looks for each keyword and adds up the first three
/// found.
fn score_keywords(lower: &Vec<char>) -> (bonus: u32)
    ensures
        bonus == keyword_bonus(lower@),
        bonus <= 297,
{
    let keywords = get_keywords();
    let ghost table = keyword_table();
    let mut bonus: u32 = 0;
    let mut found: usize = 0;
    let mut i: usize = 0;
    assert(table.take(0) =~= Seq::<(Seq<char>, nat)>::empty());
    assert(table_of(keywords@).len() == keywords@.len());
    assert(table.len() == 17);
    while i < keywords.len()
        invariant
            i <= keywords.len(),
            keywords.len() == 17,
            table == keyword_table(),
            table_of(keywords@) == table,
            found == found_points(table.take(i as int), lower@).len(),
            found <= i,
            bonus == sum_of(first_three(found_points(table.take(i as int), lower@))),
            bonus <= 99 * (if found <= 3 { found } else { 3 }),
        decreases keywords.len() - i,
    {
        let keyword = &keywords[i];
        proof {
            let upto = table.take(i + 1);
            assert(upto.drop_last() =~= table.take(i as int));
            assert(upto.last() == table[i as int]);
            assert(table[i as int] == (keyword.word@, keyword.points as nat));
            assert(keyword.points <= 99);
        }
        if contains(lower, keyword.word) {
            proof {
                let before = found_points(table.take(i as int), lower@);
                let after = before.push(keyword.points as nat);
                if before.len() < 3 {
                    assert(first_three(after) =~= first_three(before).push(keyword.points as nat));
                    assert(first_three(after).drop_last() =~= first_three(before));
                } else {
                    assert(first_three(after) =~= first_three(before));
                }
            }
            if found < 3 {
                bonus = bonus + keyword.points;
            }
            found = found + 1;
        }
        i = i + 1;
    }
    assert(table.take(17) =~= table);
    bonus
}

/// How many of the words stand in the lowercase text.
fn count_words_present(lower: &Vec<char>, words: &Vec<&'static str>) -> (count: usize)
    ensures
        count == count_present(words@.map_values(|word: &'static str| word@), lower@),
        count <= words.len(),
{
    let ghost all = words@.map_values(|word: &'static str| word@);
    let mut count: usize = 0;
    let mut i: usize = 0;
    assert(all.take(0) =~= Seq::<Seq<char>>::empty());
    while i < words.len()
        invariant
            i <= words.len(),
            all == words@.map_values(|word: &'static str| word@),
            count == count_present(all.take(i as int), lower@),
            count <= i,
        decreases words.len() - i,
    {
        proof {
            let upto = all.take(i + 1);
            assert(upto.drop_last() =~= all.take(i as int));
            assert(upto.last() == words@[i as int]@);
        }
        if contains(lower, words[i]) {
            count = count + 1;
        }
        i = i + 1;
    }
    assert(all.take(i as int) =~= all);
    count
}

/// The mantra bonus of the lowercase text.
fn score_mantra(lower: &Vec<char>) -> (bonus: u32)
    ensures
        bonus == mantra_bonus(lower@),
        bonus <= 30,
{
    let mut love: Vec<&'static str> = Vec::new();
    love.push("love");
    love.push("joy");
    love.push("bliss");
    love.push("gratitude");
    love.push("peace");
    love.push("harmony");
    let mut rise: Vec<&'static str> = Vec::new();
    rise.push("rise");
    rise.push("ascend");
    rise.push("awaken");
    rise.push("sovereign");
    rise.push("abundance");
    proof {
        assert(love@.map_values(|word: &'static str| word@) =~= love_words());
        assert(rise@.map_values(|word: &'static str| word@) =~= rise_words());
    }
    let raw: u32 = 10 * (count_words_present(lower, &love) as u32) + 5 * (count_words_present(
        lower,
        &rise,
    ) as u32);
    if raw > 30 {
        30
    } else {
        raw
    }
}

/// Whether the text shows a pattern.
fn detect_pattern(text: &Vec<char>) -> (found: bool)
    ensures
        found == has_pattern(text@),
{
    let ends = text.len() > 0 && (text[text.len() - 1] == '3' || text[text.len() - 1] == '6'
        || text[text.len() - 1] == '9');
    contains(text, "369") || contains(text, "963") || contains(text, "693") || contains(
        text,
        "333",
    ) || contains(text, "666") || contains(text, "999") || ends
}

/// The vortex value of the text.
fn compute_vortex_value(text: &Vec<char>) -> (value: u32)
    ensures
        value == vortex_value(text@),
        1 <= value <= 8 || (value == 0 && letter_sum(text@) > 0),
        value <= 8,
{
    let mut residue: u32 = 0;
    let mut any: bool = false;
    let mut i: usize = 0;
    assert(text@.take(0) =~= Seq::<char>::empty());
    while i < text.len()
        invariant
            i <= text.len(),
            residue < 9,
            residue == letter_sum(text@.take(i as int)) % 9,
            any == (letter_sum(text@.take(i as int)) > 0),
        decreases text.len() - i,
    {
        let value = char_to_value(text[i]);
        proof {
            let upto = text@.take(i + 1);
            assert(upto.drop_last() =~= text@.take(i as int));
            assert(upto.last() == text@[i as int]);
        }
        residue = (residue + value) % 9;
        any = any || value > 0;
        i = i + 1;
    }
    assert(text@.take(i as int) =~= text@);
    if any {
        residue
    } else {
        1
    }
}

/// Adds a note.
fn push_note(notes: &mut Vec<String>, note: String)
    ensures
        texts_of(final(notes)@) == texts_of(old(notes)@) + seq![note@],
{
    let ghost before = texts_of(notes@);
    notes.push(note);
    assert(texts_of(notes@) =~= before + seq![note@]);
}

/// A label followed by a number.
fn labelled(label: &str, number: u32) -> (note: String)
    ensures
        note@ == label@ + decimal(number as nat),
{
    let mut note = label.to_owned();
    push_decimal(&mut note, number as u64);
    note
}

/// The vortex score of a proposal text with its explanation, the notes
/// joined by `"; "`.
pub fn score_proposal(text: &str) -> (scored: (u32, String))
    ensures
        scored.0 == spec_vortex_score(text@),
        scored.1@ == joined(spec_vortex_notes(text@), "; "@),
        scored.0 <= 369,
{
    let lower_text = to_lowercase(text);
    score_with_lowercase(text, lower_text.as_str())
}

/// The vortex score of a proposal text whose lowercase form is
/// `lower_text`, with its explanation.
pub fn score_with_lowercase(text: &str, lower_text: &str) -> (scored: (u32, String))
    ensures
        scored.0 == vortex_score_of(text@, lower_text@),
        scored.1@ == joined(vortex_notes_of(text@, lower_text@), "; "@),
        scored.0 <= 369,
{
    let plain = chars_of(text);
    let lower = chars_of(lower_text);
    let mut explanation: Vec<String> = Vec::new();
    assert(texts_of(explanation@) =~= Seq::<Seq<char>>::empty());

    let value = compute_vortex_value(&plain);
    let digital_root_val = digital_root(value);
    proof {
        assert(spec_digital_root(value as nat) == value);
    }
    let base_score: u32 = digital_root_val * 10;
    let mut score: u32 = base_score;
    let mut first = labelled("Base score: ", base_score);
    first.append(" (Digital Root ");
    push_decimal(&mut first, digital_root_val as u64);
    first.append(")");
    push_note(&mut explanation, first);

    if digital_root_val == 3 {
        score = score + 30;
        push_note(&mut explanation, "Sacred Trinity Creation +30".to_owned());
    } else if digital_root_val == 6 {
        score = score + 60;
        push_note(&mut explanation, "Sacred Harmony Flow +60".to_owned());
    } else if digital_root_val == 9 {
        score = score + 90;
        push_note(&mut explanation, "Sacred Unity Completion +90".to_owned());
    }

    if detect_pattern(&plain) {
        score = score + 33;
        push_note(&mut explanation, "Sacred pattern detected +33".to_owned());
    }

    let top_keywords = score_keywords(&lower);
    score = score + top_keywords;
    if top_keywords > 0 {
        push_note(&mut explanation, labelled("Keyword bonuses: ", top_keywords));
    }

    if word_count(&plain) == 3 {
        score = score + 33;
        push_note(&mut explanation, "Trinity structure +33".to_owned());
    }
    let length = text.as_bytes().len();
    if length % 9 == 0 && length > 0 {
        score = score + 27;
        push_note(&mut explanation, "Length divisible by 9 +27".to_owned());
    }

    let mantra_score = score_mantra(&lower);
    score = score + mantra_score;
    if mantra_score > 0 {
        push_note(&mut explanation, labelled("Mantra bonuses: ", mantra_score));
    }

    assert(texts_of(explanation@) =~= vortex_notes_of(text@, lower_text@));
    if score > 369 {
        score = 369;
    }
    (score, join(&explanation, "; "))
}

} // verus!
