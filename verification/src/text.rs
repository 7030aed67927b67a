//! Moving between strings and character buffers, and comparing text.

use vstd::prelude::*;
use vstd::string::StringExecFns;

verus! {

/// `String::from_iter` over the characters of a buffer: the string made of
/// those characters, in the same order.
#[verifier::external_body]
pub(crate) fn string_from_chars(chars: &Vec<char>) -> (text: String)
    ensures
        text@ == chars@,
{
    String::from_iter(chars)
}

/// Appends the characters of `text` to `buffer`, in order.
pub fn append_chars(buffer: &mut Vec<char>, text: &str)
    ensures
        final(buffer)@ == old(buffer)@ + text@,
{
    let ghost before = buffer@;
    for c in it: text.chars()
        invariant
            it.seq() == text@,
            buffer@ == before + text@.take(it.index() as int),
    {
        buffer.push(c);
    }
}

/// The characters of `text`, in order.
pub fn to_chars(text: &str) -> (chars: Vec<char>)
    ensures
        chars@ == text@,
{
    let mut chars: Vec<char> = Vec::new();
    append_chars(&mut chars, text);
    chars
}

/// The lowercase form of an ASCII uppercase letter; any other character
/// unchanged.
pub open spec fn lower(c: char) -> char {
    if 'A' <= c <= 'Z' {
        ((c as u8) + 32) as char
    } else {
        c
    }
}

/// `s` with every ASCII uppercase letter replaced by its lowercase form.
pub open spec fn lowercased(s: Seq<char>) -> Seq<char> {
    Seq::new(s.len(), |i: int| lower(s[i]))
}

/// The lowercase form of an ASCII uppercase letter; any other character
/// unchanged.
pub fn to_lower(c: char) -> (l: char)
    ensures
        l == lower(c),
{
    if 'A' <= c && c <= 'Z' {
        let code: u8 = c as u8;
        (code + 32) as char
    } else {
        c
    }
}

/// Whether `chars`, with letter case ignored, read as the lowercase word
/// `word`.
pub fn same_ignoring_case(chars: &Vec<char>, word: &str) -> (same: bool)
    ensures
        same == (lowercased(chars@) == word@),
{
    let expected = to_chars(word);
    if chars.len() != expected.len() {
        return false;
    }
    let mut i: usize = 0;
    while i < chars.len()
        invariant
            expected@ == word@,
            chars.len() == expected.len(),
            i <= chars.len(),
            forall|k: int| 0 <= k < i ==> lower(chars@[k]) == expected@[k],
        decreases chars.len() - i,
    {
        if to_lower(chars[i]) != expected[i] {
            assert(lowercased(chars@)[i as int] != word@[i as int]);
            return false;
        }
        i += 1;
    }
    assert(lowercased(chars@) =~= word@);
    true
}

/// Whether the characters of `chars` are exactly those of `word`.
pub fn reads_as(chars: &Vec<char>, word: &str) -> (same: bool)
    ensures
        same == (chars@ == word@),
{
    let expected = to_chars(word);
    if chars.len() != expected.len() {
        return false;
    }
    let mut i: usize = 0;
    while i < chars.len()
        invariant
            expected@ == word@,
            chars.len() == expected.len(),
            i <= chars.len(),
            forall|k: int| 0 <= k < i ==> chars@[k] == expected@[k],
        decreases chars.len() - i,
    {
        if chars[i] != expected[i] {
            assert(chars@[i as int] != word@[i as int]);
            return false;
        }
        i += 1;
    }
    assert(chars@ =~= word@);
    true
}

/// The characters of `chars` from position `from` up to, not including,
/// position `to`.
pub fn copy_range(chars: &Vec<char>, from: usize, to: usize) -> (part: Vec<char>)
    requires
        from <= to <= chars.len(),
    ensures
        part@ == chars@.subrange(from as int, to as int),
{
    let mut part: Vec<char> = Vec::new();
    let mut i: usize = from;
    while i < to
        invariant
            from <= i <= to <= chars.len(),
            part@ == chars@.subrange(from as int, i as int),
        decreases to - i,
    {
        part.push(chars[i]);
        assert(part@ =~= chars@.subrange(from as int, i + 1));
        i += 1;
    }
    part
}

/// `c` is a decimal digit.
pub open spec fn is_digit(c: char) -> bool {
    '0' <= c <= '9'
}

/// The number a decimal digit stands for.
pub open spec fn digit_value(c: char) -> nat {
    (c as int - '0' as int) as nat
}

/// The number a string of decimal digits stands for, most significant digit
/// first; the empty string stands for zero.
pub open spec fn decimal_value(digits: Seq<char>) -> nat
    decreases digits.len(),
{
    if digits.len() == 0 {
        0
    } else {
        decimal_value(digits.drop_last()) * 10 + digit_value(digits.last())
    }
}

/// The digits of a numeral: the numeral without its leading `+`, if it has
/// one.
pub open spec fn unsigned_part(numeral: Seq<char>) -> Seq<char> {
    if numeral.len() > 0 && numeral[0] == '+' {
        numeral.drop_first()
    } else {
        numeral
    }
}

/// The machine-sized number a numeral denotes: an optional `+`, then one or
/// more decimal digits whose value fits. Anything else denotes no number.
pub open spec fn numeral_value(numeral: Seq<char>) -> Option<usize> {
    let digits = unsigned_part(numeral);
    if digits.len() > 0 && (forall|i: int| 0 <= i < digits.len() ==> is_digit(#[trigger] digits[i]))
        && decimal_value(digits) <= usize::MAX {
        Some(decimal_value(digits) as usize)
    } else {
        None
    }
}

/// A string of digits stands for at least as much as any of its prefixes.
proof fn lemma_decimal_value_grows(digits: Seq<char>, k: int)
    requires
        0 <= k <= digits.len(),
    ensures
        decimal_value(digits.take(k)) <= decimal_value(digits),
    decreases digits.len() - k,
{
    if k == digits.len() {
        assert(digits.take(k) =~= digits);
    } else {
        lemma_decimal_value_grows(digits.drop_last(), k);
        assert(digits.drop_last().take(k) =~= digits.take(k));
    }
}

/// Reads a numeral as a machine-sized number.
pub fn parse_usize(numeral: &Vec<char>) -> (value: Option<usize>)
    ensures
        value == numeral_value(numeral@),
{
    let start: usize = if numeral.len() > 0 && numeral[0] == '+' { 1 } else { 0 };
    let ghost digits = unsigned_part(numeral@);
    assert(digits =~= numeral@.subrange(start as int, numeral.len() as int));
    if start == numeral.len() {
        return None;
    }
    let mut value: usize = 0;
    let mut i: usize = start;
    while i < numeral.len()
        invariant
            start <= i <= numeral.len(),
            digits == unsigned_part(numeral@),
            digits == numeral@.subrange(start as int, numeral.len() as int),
            forall|k: int| 0 <= k < i - start ==> is_digit(#[trigger] digits[k]),
            value == decimal_value(digits.take(i - start)),
        decreases numeral.len() - i,
    {
        let c = numeral[i];
        if c < '0' || c > '9' {
            assert(!is_digit(digits[i - start]));
            return None;
        }
        let digit: usize = (c as u8 - 48) as usize;
        let ghost prefix = digits.take(i - start + 1);
        proof {
            assert(prefix.drop_last() =~= digits.take(i - start));
            assert(prefix.last() == c);
            assert(decimal_value(prefix) == value * 10 + digit);
            lemma_decimal_value_grows(digits, i - start + 1);
        }
        if value > (usize::MAX - digit) / 10 {
            assert(decimal_value(prefix) > usize::MAX);
            return None;
        }
        value = value * 10 + digit;
        i += 1;
    }
    assert(digits.take(i - start) =~= digits);
    Some(value)
}

/// The characters of each line of a list.
pub open spec fn line_texts(lines: Seq<String>) -> Seq<Seq<char>> {
    Seq::new(lines.len(), |i: int| lines[i]@)
}

/// The lines of a list one after the other, with `separator` between each
/// two and none at either end.
pub open spec fn joined(lines: Seq<Seq<char>>, separator: Seq<char>) -> Seq<char>
    decreases lines.len(),
{
    if lines.len() == 0 {
        Seq::empty()
    } else if lines.len() == 1 {
        lines[0]
    } else {
        joined(lines.drop_last(), separator) + separator + lines.last()
    }
}

/// Joins the lines of a list into one text, with `separator` between each
/// two.
pub fn join_lines(lines: &Vec<String>, separator: &str) -> (text: String)
    ensures
        text@ == joined(line_texts(lines@), separator@),
{
    let ghost all = line_texts(lines@);
    let mut text = String::new();
    let mut i: usize = 0;
    while i < lines.len()
        invariant
            i <= lines.len(),
            all == line_texts(lines@),
            text@ == joined(all.take(i as int), separator@),
        decreases lines.len() - i,
    {
        if i > 0 {
            text.append(separator);
        }
        text.append(lines[i].as_str());
        proof {
            let upto = all.take(i + 1);
            assert(upto.drop_last() =~= all.take(i as int));
            assert(upto.last() == lines[i as int]@);
            if i == 0 {
                assert(text@ =~= upto[0]);
            }
        }
        i += 1;
    }
    assert(all.take(i as int) =~= all);
    text
}

} // verus!
