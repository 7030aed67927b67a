//! The four character classes and the alphabets composed from them.

use vstd::prelude::*;

use crate::complexity::ComplexityEnum;
use crate::text::append_chars;

verus! {

/// The lowercase letters.
pub const LOWERCASE: &'static str = "abcdefghijklmnopqrstuvwxyz";

/// The uppercase letters.
pub const UPPERCASE: &'static str = "ABCDEFGHIJKLMNOPQRSTUVWXYZ";

/// The decimal digits.
pub const NUMBERS: &'static str = "0123456789";

/// The special symbols.
pub const SPECIAL_CHARS: &'static str = "!@#$%^&*()_+-=[]{}|;:,.<>?";

/// `c` is one of the lowercase letters.
pub open spec fn is_lowercase(c: char) -> bool {
    LOWERCASE@.contains(c)
}

/// `c` is one of the uppercase letters.
pub open spec fn is_uppercase(c: char) -> bool {
    UPPERCASE@.contains(c)
}

/// `c` is one of the decimal digits.
pub open spec fn is_number(c: char) -> bool {
    NUMBERS@.contains(c)
}

/// `c` is one of the special symbols.
pub open spec fn is_special(c: char) -> bool {
    SPECIAL_CHARS@.contains(c)
}

/// There are 26 lowercase letters, 26 uppercase letters, 10 digits and 26
/// special symbols.
pub proof fn lemma_class_sizes()
    ensures
        LOWERCASE@.len() == 26,
        UPPERCASE@.len() == 26,
        NUMBERS@.len() == 10,
        SPECIAL_CHARS@.len() == 26,
{
    reveal_strlit("abcdefghijklmnopqrstuvwxyz");
    reveal_strlit("ABCDEFGHIJKLMNOPQRSTUVWXYZ");
    reveal_strlit("0123456789");
    reveal_strlit("!@#$%^&*()_+-=[]{}|;:,.<>?");
}

/// The letters and digits are exactly the usual ASCII ranges.
pub proof fn lemma_class_ranges(c: char)
    ensures
        is_lowercase(c) <==> 'a' <= c <= 'z',
        is_uppercase(c) <==> 'A' <= c <= 'Z',
        is_number(c) <==> '0' <= c <= '9',
{
    reveal_strlit("abcdefghijklmnopqrstuvwxyz");
    reveal_strlit("ABCDEFGHIJKLMNOPQRSTUVWXYZ");
    reveal_strlit("0123456789");
    if 'a' <= c <= 'z' {
        assert(LOWERCASE@[c as int - 'a' as int] == c);
    }
    if 'A' <= c <= 'Z' {
        assert(UPPERCASE@[c as int - 'A' as int] == c);
    }
    if '0' <= c <= '9' {
        assert(NUMBERS@[c as int - '0' as int] == c);
    }
}

/// No character belongs to two classes.
pub proof fn lemma_classes_disjoint(c: char)
    ensures
        !(is_lowercase(c) && is_uppercase(c)),
        !(is_lowercase(c) && is_number(c)),
        !(is_lowercase(c) && is_special(c)),
        !(is_uppercase(c) && is_number(c)),
        !(is_uppercase(c) && is_special(c)),
        !(is_number(c) && is_special(c)),
{
    lemma_class_ranges(c);
    reveal_strlit("!@#$%^&*()_+-=[]{}|;:,.<>?");
}

/// The alphabet a tier starts from: lowercase letters for `Simple`; letters
/// of both cases and digits for `Secure`; those and the special symbols for
/// `Complex`.
pub open spec fn base_alphabet(tier: ComplexityEnum) -> Seq<char> {
    match tier {
        ComplexityEnum::Simple => LOWERCASE@,
        ComplexityEnum::Secure => LOWERCASE@ + UPPERCASE@ + NUMBERS@,
        ComplexityEnum::Complex => LOWERCASE@ + UPPERCASE@ + NUMBERS@ + SPECIAL_CHARS@,
    }
}

/// The alphabet filler characters are drawn from: the tier's base alphabet,
/// followed by the special symbols when they are asked for.
///
/// For `Complex` with the flag set the special symbols occur twice, so a
/// draw that treats every position alike lands on them twice as often as on
/// a letter or digit. The second copy is kept on purpose, not merged into
/// the first: merging would change how often special symbols are drawn.
pub open spec fn working_alphabet(tier: ComplexityEnum, use_special_chars: bool) -> Seq<char> {
    if use_special_chars {
        base_alphabet(tier) + SPECIAL_CHARS@
    } else {
        base_alphabet(tier)
    }
}

/// Every character of a working alphabet belongs to one of the four classes,
/// and to a class that the tier or the flag admits.
pub proof fn lemma_working_alphabet_classes(
    tier: ComplexityEnum,
    use_special_chars: bool,
    c: char,
)
    requires
        working_alphabet(tier, use_special_chars).contains(c),
    ensures
        is_lowercase(c) || is_uppercase(c) || is_number(c) || is_special(c),
        tier == ComplexityEnum::Simple ==> is_lowercase(c) || is_special(c),
        !use_special_chars && tier != ComplexityEnum::Complex ==> !is_special(c),
{
    lemma_classes_disjoint(c);
    let lower = LOWERCASE@;
    let upper = UPPERCASE@;
    let digits = NUMBERS@;
    let special = SPECIAL_CHARS@;
    let alphabet = working_alphabet(tier, use_special_chars);
    let i = choose|i: int| 0 <= i < alphabet.len() && alphabet[i] == c;
    if i < lower.len() {
        assert(lower[i] == c);
    } else if tier != ComplexityEnum::Simple && i < lower.len() + upper.len() {
        assert(upper[i - lower.len()] == c);
    } else if tier != ComplexityEnum::Simple && i < lower.len() + upper.len() + digits.len() {
        assert(digits[i - lower.len() - upper.len()] == c);
    } else {
        let base = base_alphabet(tier);
        if i < base.len() {
            assert(special[i - lower.len() - upper.len() - digits.len()] == c);
        } else {
            assert(special[i - base.len()] == c);
        }
    }
}

/// Composes the working alphabet of a tier and flag from the class
/// constants.
pub fn charset_for(complexity: &ComplexityEnum, use_special_chars: bool) -> (charset: Vec<char>)
    ensures
        charset@ == working_alphabet(*complexity, use_special_chars),
{
    let mut charset: Vec<char> = Vec::new();
    append_chars(&mut charset, LOWERCASE);
    match complexity {
        ComplexityEnum::Simple => {},
        ComplexityEnum::Secure => {
            append_chars(&mut charset, UPPERCASE);
            append_chars(&mut charset, NUMBERS);
        },
        ComplexityEnum::Complex => {
            append_chars(&mut charset, UPPERCASE);
            append_chars(&mut charset, NUMBERS);
            append_chars(&mut charset, SPECIAL_CHARS);
        },
    }
    if use_special_chars {
        append_chars(&mut charset, SPECIAL_CHARS);
    }
    charset
}

} // verus!
