//! Text helpers shared by the codec, the generator and the scorers.

use vstd::prelude::*;

verus! {

/// `String::push` of std: the character is appended at the end and nothing
/// else changes.
pub assume_specification[ String::push ](s: &mut String, ch: char)
    ensures
        final(s)@ == old(s)@.push(ch),
;

/// The characters of `s`, in order.
pub fn chars_of(s: &str) -> (chars: Vec<char>)
    ensures
        chars@ == s@,
{
    let mut chars: Vec<char> = Vec::new();
    for c in it: s.chars()
        invariant
            chars@ == it.seq().take(it.index() as int),
            it.seq() == s@,
    {
        chars.push(c);
    }
    chars
}

/// Appends the characters `chars[from..]` to `out`.
pub fn push_chars(out: &mut String, chars: &Vec<char>, from: usize)
    requires
        from <= chars.len(),
    ensures
        final(out)@ == old(out)@ + chars@.skip(from as int),
{
    let mut i: usize = from;
    while i < chars.len()
        invariant
            from <= i <= chars.len(),
            out@ == old(out)@ + chars@.subrange(from as int, i as int),
        decreases chars.len() - i,
    {
        out.push(chars[i]);
        i = i + 1;
    }
    assert(chars@.subrange(from as int, i as int) == chars@.skip(from as int));
}

/// The character that writes the digit `d`, for `d` below 10.
pub open spec fn digit_char(d: nat) -> char {
    ((48 + d) as u8) as char
}

/// The digits of `n` in the given radix, most significant first; empty for 0.
pub open spec fn radix_digits(n: nat, radix: nat) -> Seq<char>
    decreases n,
    via radix_digits_decreases
{
    if n == 0 || radix < 2 {
        Seq::empty()
    } else {
        radix_digits(n / radix, radix).push(digit_char(n % radix))
    }
}

#[via_fn]
proof fn radix_digits_decreases(n: nat, radix: nat) {
    if n != 0 && radix >= 2 {
        vstd::arithmetic::div_mod::lemma_div_decreases(n as int, radix as int);
        vstd::arithmetic::div_mod::lemma_div_pos_is_pos(n as int, radix as int);
    }
}

/// The decimal numeral of `n`: `"0"` for 0, else its digits without leading
/// zeros.
pub open spec fn decimal(n: nat) -> Seq<char> {
    if n == 0 {
        seq!['0']
    } else {
        radix_digits(n, 10)
    }
}

/// The digits of `n` in the given radix, most significant first; empty for 0.
pub fn radix_digit_vec(n: u64, radix: u64) -> (digits: Vec<char>)
    requires
        2 <= radix <= 10,
    ensures
        digits@ == radix_digits(n as nat, radix as nat),
{
    let ghost all = radix_digits(n as nat, radix as nat);
    let mut low_first: Vec<char> = Vec::new();
    let mut rest: u64 = n;
    while rest > 0
        invariant
            2 <= radix <= 10,
            all == radix_digits(n as nat, radix as nat),
            radix_digits(rest as nat, radix as nat).len() + low_first.len() == all.len(),
            radix_digits(rest as nat, radix as nat) == all.take(
                radix_digits(rest as nat, radix as nat).len() as int,
            ),
            forall|i: int|
                0 <= i < low_first.len() ==> low_first[i] == all[all.len() - 1 - i],
        decreases rest,
    {
        let d: u8 = (rest % radix) as u8;
        let ghost before = radix_digits(rest as nat, radix as nat);
        assert(before == radix_digits((rest / radix) as nat, radix as nat).push(
            digit_char((rest % radix) as nat),
        ));
        assert(before.last() == all[before.len() - 1]);
        low_first.push((48u8 + d) as char);
        rest = rest / radix;
        assert(radix_digits(rest as nat, radix as nat) == before.drop_last());
        assert(before.drop_last() == all.take(before.len() - 1));
    }
    assert(radix_digits(0, radix as nat).len() == 0);
    let mut digits: Vec<char> = Vec::new();
    let mut k: usize = low_first.len();
    while k > 0
        invariant
            k <= low_first.len(),
            low_first.len() == all.len(),
            digits@ == all.take(low_first.len() - k),
            forall|i: int|
                0 <= i < low_first.len() ==> low_first[i] == all[all.len() - 1 - i],
        decreases k,
    {
        k = k - 1;
        digits.push(low_first[k]);
        assert(all.take(low_first.len() - k) == all.take(low_first.len() - k - 1).push(
            all[low_first.len() - k - 1],
        ));
    }
    assert(all.take(all.len() as int) == all);
    digits
}

/// Appends the digits of `n` in the given radix to `out`; nothing for 0.
pub fn push_radix_digits(out: &mut String, n: u64, radix: u64)
    requires
        2 <= radix <= 10,
    ensures
        final(out)@ == old(out)@ + radix_digits(n as nat, radix as nat),
{
    let digits = radix_digit_vec(n, radix);
    push_chars(out, &digits, 0);
}

/// Appends the decimal numeral of `n` to `out`.
pub fn push_decimal(out: &mut String, n: u64)
    ensures
        final(out)@ == old(out)@ + decimal(n as nat),
{
    if n == 0 {
        out.push('0');
        assert(old(out)@.push('0') == old(out)@ + seq!['0']);
    } else {
        push_radix_digits(out, n, 10);
    }
}

/// The lowercase form of a text, as Unicode defines it.
pub uninterp spec fn lowercase(text: Seq<char>) -> Seq<char>;

/// `str::to_lowercase` of std: the lowercase form of the text, a function
/// of its characters alone.
#[verifier::external_body]
pub(crate) fn to_lowercase(text: &str) -> (lower: String)
    ensures
        lower@ == lowercase(text@),
{
    text.to_lowercase()
}

/// Whether a character is white space, as Unicode defines it.
pub uninterp spec fn is_whitespace(c: char) -> bool;

/// `char::is_whitespace` of std: whether the character has the Unicode
/// property `White_Space`, a function of the character alone.
#[verifier::external_body]
pub(crate) fn char_is_whitespace(c: char) -> (white: bool)
    ensures
        white == is_whitespace(c),
{
    c.is_whitespace()
}

/// `needle` stands in `text` at position `at`.
pub open spec fn occurs_at(needle: Seq<char>, text: Seq<char>, at: int) -> bool {
    0 <= at && at + needle.len() <= text.len() && text.subrange(at, at + needle.len()) == needle
}

/// `needle` stands somewhere in `text`, as a run of consecutive
/// characters. The empty text stands everywhere.
pub open spec fn occurs_in(needle: Seq<char>, text: Seq<char>) -> bool {
    exists|at: int| occurs_at(needle, text, at)
}

/// Whether `needle` stands in `text` at position `at`.
fn matches_at(text: &Vec<char>, needle: &Vec<char>, at: usize) -> (found: bool)
    requires
        at + needle.len() <= text.len(),
    ensures
        found == occurs_at(needle@, text@, at as int),
{
    let mut k: usize = 0;
    while k < needle.len()
        invariant
            k <= needle.len(),
            at + needle.len() <= text.len(),
            forall|j: int| 0 <= j < k ==> text@[at + j] == needle@[j],
        decreases needle.len() - k,
    {
        if text[at + k] != needle[k] {
            assert(text@.subrange(at as int, at + needle.len())[k as int] != needle@[k as int]);
            return false;
        }
        k = k + 1;
    }
    assert(text@.subrange(at as int, at + needle.len()) =~= needle@);
    true
}

/// Whether `needle` stands somewhere in `text`.
pub fn contains_chars(text: &Vec<char>, needle: &Vec<char>) -> (found: bool)
    ensures
        found == occurs_in(needle@, text@),
{
    if needle.len() == 0 {
        assert(text@.subrange(0, 0) =~= needle@);
        assert(occurs_at(needle@, text@, 0));
        return true;
    }
    if needle.len() > text.len() {
        return false;
    }
    let last: usize = text.len() - needle.len();
    let mut at: usize = 0;
    while at <= last
        invariant
            at <= last + 1,
            needle.len() > 0,
            last == text.len() - needle.len(),
            forall|i: int| 0 <= i < at ==> !occurs_at(needle@, text@, i),
        decreases last + 1 - at,
    {
        if matches_at(text, needle, at) {
            return true;
        }
        at = at + 1;
    }
    false
}

/// Whether `needle` stands somewhere in `text`.
pub fn contains(text: &Vec<char>, needle: &str) -> (found: bool)
    ensures
        found == occurs_in(needle@, text@),
{
    let needle_chars = chars_of(needle);
    contains_chars(text, &needle_chars)
}

/// How many words a text has: the maximal runs of characters that are not
/// white space.
pub open spec fn spec_word_count(text: Seq<char>) -> nat
    decreases text.len(),
{
    if text.len() == 0 {
        0
    } else {
        let before = text.drop_last();
        let starts_word = !is_whitespace(text.last()) && (before.len() == 0 || is_whitespace(
            before.last(),
        ));
        spec_word_count(before) + if starts_word {
            1nat
        } else {
            0
        }
    }
}

/// How many words a text has.
pub fn word_count(text: &Vec<char>) -> (count: usize)
    ensures
        count == spec_word_count(text@),
{
    let mut count: usize = 0;
    let mut in_word: bool = false;
    let mut i: usize = 0;
    assert(text@.take(0) =~= Seq::<char>::empty());
    while i < text.len()
        invariant
            i <= text.len(),
            count <= i,
            count == spec_word_count(text@.take(i as int)),
            in_word == (i > 0 && !is_whitespace(text@[i - 1])),
        decreases text.len() - i,
    {
        let white = char_is_whitespace(text[i]);
        proof {
            let upto = text@.take(i + 1);
            assert(upto.drop_last() =~= text@.take(i as int));
            assert(upto.last() == text@[i as int]);
            if i > 0 {
                assert(text@.take(i as int).last() == text@[i - 1]);
            }
        }
        if !white && !in_word {
            count = count + 1;
        }
        in_word = !white;
        i = i + 1;
    }
    assert(text@.take(i as int) =~= text@);
    count
}

/// The texts joined with `separator` between each two.
pub open spec fn joined(parts: Seq<Seq<char>>, separator: Seq<char>) -> Seq<char>
    decreases parts.len(),
{
    if parts.len() == 0 {
        Seq::empty()
    } else if parts.len() == 1 {
        parts[0]
    } else {
        joined(parts.drop_last(), separator) + separator + parts.last()
    }
}

/// The texts as plain values.
pub open spec fn texts_of(parts: Seq<String>) -> Seq<Seq<char>> {
    parts.map_values(|part: String| part@)
}

/// Joins the texts with `separator` between each two.
pub fn join(parts: &Vec<String>, separator: &str) -> (text: String)
    ensures
        text@ == joined(texts_of(parts@), separator@),
{
    let mut text = String::new();
    let mut i: usize = 0;
    let ghost all = texts_of(parts@);
    assert(all.take(0) =~= Seq::<Seq<char>>::empty());
    while i < parts.len()
        invariant
            i <= parts.len(),
            all == texts_of(parts@),
            text@ == joined(all.take(i as int), separator@),
        decreases parts.len() - i,
    {
        proof {
            let upto = all.take(i + 1);
            assert(upto.drop_last() =~= all.take(i as int));
            assert(upto.last() == parts@[i as int]@);
        }
        if i > 0 {
            text.append(separator);
        }
        text.append(parts[i].as_str());
        proof {
            if i == 0 {
                assert(all.take(1)[0] == parts@[0]@);
                assert(Seq::<char>::empty() + parts@[0]@ =~= parts@[0]@);
            }
        }
        i = i + 1;
    }
    assert(all.take(i as int) =~= all);
    text
}

/// The text `head` followed by `tail`.
pub fn concat(head: &str, tail: &str) -> (text: String)
    ensures
        text@ == head@ + tail@,
{
    let mut text = head.to_owned();
    text.append(tail);
    text
}

/// Whether two texts are the same.
pub fn text_eq(a: &str, b: &str) -> (same: bool)
    ensures
        same == (a@ == b@),
{
    let left = chars_of(a);
    let right = chars_of(b);
    if left.len() != right.len() {
        return false;
    }
    let mut i: usize = 0;
    while i < left.len()
        invariant
            i <= left.len(),
            left.len() == right.len(),
            left@ == a@,
            right@ == b@,
            forall|j: int| 0 <= j < i ==> left@[j] == right@[j],
        decreases left.len() - i,
    {
        if left[i] != right[i] {
            assert(a@[i as int] != b@[i as int]);
            return false;
        }
        i = i + 1;
    }
    assert(left@ =~= right@);
    true
}

/// `text` padded on the left with `'0'` up to `width` characters; a longer
/// text stays as it is.
pub open spec fn zero_padded(text: Seq<char>, width: nat) -> Seq<char> {
    if text.len() < width {
        Seq::new((width - text.len()) as nat, |i: int| '0') + text
    } else {
        text
    }
}

/// Appends `text`, padded on the left with `'0'` up to `width` characters.
pub fn push_zero_padded(out: &mut String, text: &str, width: usize)
    ensures
        final(out)@ == old(out)@ + zero_padded(text@, width as nat),
{
    let chars = chars_of(text);
    if chars.len() < width {
        let pad: usize = width - chars.len();
        let mut i: usize = 0;
        while i < pad
            invariant
                i <= pad,
                out@ == old(out)@ + Seq::new(i as nat, |j: int| '0'),
            decreases pad - i,
        {
            out.push('0');
            i = i + 1;
            assert(out@ =~= old(out)@ + Seq::new(i as nat, |j: int| '0'));
        }
    }
    let ghost before = out@;
    push_chars(out, &chars, 0);
    assert(chars@.skip(0) =~= chars@);
    assert(out@ =~= old(out)@ + zero_padded(text@, width as nat));
}

/// The padded hash of a label, which stands in for a transaction hash:
/// `0x` and the label padded with zeros to 64 characters.
pub open spec fn padded_hash(label: Seq<char>) -> Seq<char> {
    "0x"@ + zero_padded(label, 64)
}

/// The padded hash of a label.
pub fn make_padded_hash(label: &str) -> (hash: String)
    ensures
        hash@ == padded_hash(label@),
{
    let mut hash = "0x".to_owned();
    push_zero_padded(&mut hash, label, 64);
    hash
}

} // verus!
