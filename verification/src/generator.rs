//! Password generation: one mandatory character per required class, filler
//! drawn from the working alphabet, and a final shuffle.

use rand::rngs::ThreadRng;
use vstd::prelude::*;

use crate::charset::{
    base_alphabet, charset_for, is_lowercase, is_number, is_special, is_uppercase,
    lemma_class_sizes, lemma_working_alphabet_classes, working_alphabet, LOWERCASE, NUMBERS,
    SPECIAL_CHARS, UPPERCASE,
};
use crate::complexity::ComplexityEnum;
use crate::error::PasswordError;
use crate::random::{choose_char, random_index, shuffle_chars};
use crate::text::string_from_chars;

verus! {

/// The shortest password the command line accepts.
pub const REQUIRED_LENGTH: usize = 8;

/// Some character of `s` is a lowercase letter.
pub open spec fn has_lowercase(s: Seq<char>) -> bool {
    exists|i: int| 0 <= i < s.len() && is_lowercase(#[trigger] s[i])
}

/// Some character of `s` is an uppercase letter.
pub open spec fn has_uppercase(s: Seq<char>) -> bool {
    exists|i: int| 0 <= i < s.len() && is_uppercase(#[trigger] s[i])
}

/// Some character of `s` is a digit.
pub open spec fn has_number(s: Seq<char>) -> bool {
    exists|i: int| 0 <= i < s.len() && is_number(#[trigger] s[i])
}

/// Some character of `s` is a special symbol.
pub open spec fn has_special(s: Seq<char>) -> bool {
    exists|i: int| 0 <= i < s.len() && is_special(#[trigger] s[i])
}

/// Every character of `s` occurs in `alphabet`.
pub open spec fn drawn_from(s: Seq<char>, alphabet: Seq<char>) -> bool {
    forall|i: int| 0 <= i < s.len() ==> alphabet.contains(#[trigger] s[i])
}

/// How many characters a tier and flag make mandatory: one lowercase letter,
/// one uppercase letter and one digit unless the tier is `Simple`, and one
/// special symbol when the flag is set.
pub open spec fn mandatory_count(tier: ComplexityEnum, use_special_chars: bool) -> nat {
    let classes: nat = if tier == ComplexityEnum::Simple { 0 } else { 3 };
    let special: nat = if use_special_chars { 1 } else { 0 };
    classes + special
}

/// The shortest length a request may ask for: room for every mandatory
/// character, and at least one character.
pub open spec fn min_length(tier: ComplexityEnum, use_special_chars: bool) -> nat {
    if mandatory_count(tier, use_special_chars) == 0 {
        1
    } else {
        mandatory_count(tier, use_special_chars)
    }
}

/// The mandatory characters of a tier and flag, in the order they are
/// drawn: a lowercase letter, an uppercase letter and a digit unless the
/// tier is `Simple`, then a special symbol when the flag is set.
pub open spec fn is_mandatory_prefix(
    prefix: Seq<char>,
    use_special_chars: bool,
    tier: ComplexityEnum,
) -> bool {
    &&& prefix.len() == mandatory_count(tier, use_special_chars)
    &&& tier != ComplexityEnum::Simple ==> is_lowercase(prefix[0]) && is_uppercase(prefix[1])
        && is_number(prefix[2])
    &&& use_special_chars ==> is_special(prefix[prefix.len() - 1])
}

/// The characters a list of draws selects from an alphabet: for each draw,
/// the character at the position drawn.
pub open spec fn selected(alphabet: Seq<char>, draws: Seq<usize>) -> Seq<char> {
    Seq::new(draws.len(), |i: int| alphabet[draws[i] as int])
}

/// What every generated password satisfies: it has the requested length, all
/// its characters come from the working alphabet, and each mandatory class
/// occurs in it.
pub open spec fn is_password_for(
    s: Seq<char>,
    length: nat,
    use_special_chars: bool,
    tier: ComplexityEnum,
) -> bool {
    &&& s.len() == length
    &&& drawn_from(s, working_alphabet(tier, use_special_chars))
    &&& tier != ComplexityEnum::Simple ==> has_lowercase(s) && has_uppercase(s) && has_number(s)
    &&& use_special_chars ==> has_special(s)
}

/// The letters, the digits and, where the tier or the flag admits them, the
/// special symbols all occur in the working alphabet.
proof fn lemma_class_in_alphabet(tier: ComplexityEnum, use_special_chars: bool, c: char)
    ensures
        is_lowercase(c) ==> working_alphabet(tier, use_special_chars).contains(c),
        tier != ComplexityEnum::Simple && (is_uppercase(c) || is_number(c)) ==> working_alphabet(
            tier,
            use_special_chars,
        ).contains(c),
        use_special_chars && is_special(c) ==> working_alphabet(tier, use_special_chars).contains(
            c,
        ),
{
    let lower = LOWERCASE@;
    let upper = UPPERCASE@;
    let digits = NUMBERS@;
    let special = SPECIAL_CHARS@;
    let alphabet = working_alphabet(tier, use_special_chars);
    if is_lowercase(c) {
        let i = choose|i: int| 0 <= i < lower.len() && lower[i] == c;
        assert(alphabet[i] == c);
    }
    if tier != ComplexityEnum::Simple && is_uppercase(c) {
        let i = choose|i: int| 0 <= i < upper.len() && upper[i] == c;
        assert(alphabet[lower.len() + i] == c);
    }
    if tier != ComplexityEnum::Simple && is_number(c) {
        let i = choose|i: int| 0 <= i < digits.len() && digits[i] == c;
        assert(alphabet[lower.len() + upper.len() + i] == c);
    }
    if use_special_chars && is_special(c) {
        let i = choose|i: int| 0 <= i < special.len() && special[i] == c;
        assert(alphabet[base_alphabet(tier).len() + i] == c);
    }
}

/// Mandatory characters followed by filler from the working alphabet make a
/// password.
proof fn lemma_composed_is_password(
    prefix: Seq<char>,
    draws: Seq<usize>,
    use_special_chars: bool,
    tier: ComplexityEnum,
)
    requires
        is_mandatory_prefix(prefix, use_special_chars, tier),
        forall|i: int|
            0 <= i < draws.len() ==> draws[i] < working_alphabet(tier, use_special_chars).len(),
    ensures
        is_password_for(
            prefix + selected(working_alphabet(tier, use_special_chars), draws),
            prefix.len() + draws.len(),
            use_special_chars,
            tier,
        ),
{
    let alphabet = working_alphabet(tier, use_special_chars);
    let buffer = prefix + selected(alphabet, draws);
    assert forall|i: int| 0 <= i < buffer.len() implies alphabet.contains(#[trigger] buffer[i]) by {
        if i < prefix.len() {
            assert(buffer[i] == prefix[i]);
            lemma_class_in_alphabet(tier, use_special_chars, prefix[i]);
        } else {
            let draw = draws[i - prefix.len()];
            assert(buffer[i] == alphabet[draw as int]);
        }
    }
    if tier != ComplexityEnum::Simple {
        assert(is_lowercase(buffer[0]));
        assert(is_uppercase(buffer[1]));
        assert(is_number(buffer[2]));
    }
    if use_special_chars {
        assert(is_special(buffer[prefix.len() - 1]));
    }
}

/// Reordering a password gives a password for the same request.
proof fn lemma_reordered_is_password(
    before: Seq<char>,
    after: Seq<char>,
    length: nat,
    use_special_chars: bool,
    tier: ComplexityEnum,
)
    requires
        is_password_for(before, length, use_special_chars, tier),
        before.to_multiset() == after.to_multiset(),
    ensures
        is_password_for(after, length, use_special_chars, tier),
{
    let alphabet = working_alphabet(tier, use_special_chars);
    before.to_multiset_ensures();
    after.to_multiset_ensures();
    assert forall|c: char| before.contains(c) <==> after.contains(c) by {
        assert(before.contains(c) <==> before.to_multiset().count(c) > 0);
        assert(after.contains(c) <==> after.to_multiset().count(c) > 0);
    }
    assert forall|i: int| 0 <= i < after.len() implies alphabet.contains(#[trigger] after[i]) by {
        assert(after.contains(after[i]));
        assert(before.contains(after[i]));
    }
    if tier != ComplexityEnum::Simple {
        let i = choose|i: int| 0 <= i < before.len() && is_lowercase(#[trigger] before[i]);
        assert(before.contains(before[i]));
        assert(after.contains(before[i]));
        let j = choose|j: int| 0 <= j < before.len() && is_uppercase(#[trigger] before[j]);
        assert(before.contains(before[j]));
        assert(after.contains(before[j]));
        let k = choose|k: int| 0 <= k < before.len() && is_number(#[trigger] before[k]);
        assert(before.contains(before[k]));
        assert(after.contains(before[k]));
    }
    if use_special_chars {
        let i = choose|i: int| 0 <= i < before.len() && is_special(#[trigger] before[i]);
        assert(before.contains(before[i]));
        assert(after.contains(before[i]));
    }
}

/// A password generated without the special-characters flag for a tier
/// other than `Complex` holds no special symbol, and one generated so for
/// `Simple` holds lowercase letters only.
pub proof fn lemma_password_classes(
    s: Seq<char>,
    length: nat,
    use_special_chars: bool,
    tier: ComplexityEnum,
)
    requires
        is_password_for(s, length, use_special_chars, tier),
    ensures
        !use_special_chars && tier != ComplexityEnum::Complex ==> !has_special(s),
        !use_special_chars && tier == ComplexityEnum::Simple ==> forall|i: int|
            0 <= i < s.len() ==> is_lowercase(#[trigger] s[i]),
{
    assert forall|i: int| 0 <= i < s.len() implies {
        &&& !use_special_chars && tier != ComplexityEnum::Complex ==> !is_special(#[trigger] s[i])
        &&& !use_special_chars && tier == ComplexityEnum::Simple ==> is_lowercase(s[i])
    } by {
        lemma_working_alphabet_classes(tier, use_special_chars, s[i]);
    }
}

/// The shortest length `generate_password` accepts for a tier and flag.
pub fn minimum_length(complexity: &ComplexityEnum, use_special_chars: bool) -> (floor: usize)
    ensures
        floor == min_length(*complexity, use_special_chars),
{
    let classes: usize = match complexity {
        ComplexityEnum::Simple => 0,
        ComplexityEnum::Secure => 3,
        ComplexityEnum::Complex => 3,
    };
    let mandatory: usize = if use_special_chars { classes + 1 } else { classes };
    if mandatory == 0 {
        1
    } else {
        mandatory
    }
}

/// Draws one character of a non-empty alphabet.
fn pick(rng: &mut ThreadRng, alphabet: &str) -> (c: char)
    requires
        alphabet@.len() > 0,
    ensures
        alphabet@.contains(c),
{
    choose_char(rng, alphabet).unwrap()
}

/// Draws the mandatory characters of a tier and flag.
fn draw_mandatory(rng: &mut ThreadRng, use_special_chars: bool, complexity: &ComplexityEnum) -> (prefix:
    Vec<char>)
    ensures
        is_mandatory_prefix(prefix@, use_special_chars, *complexity),
{
    proof {
        lemma_class_sizes();
    }
    let mut prefix: Vec<char> = Vec::new();
    match complexity {
        ComplexityEnum::Simple => {},
        _ => {
            // One character from each required class.
            prefix.push(pick(rng, LOWERCASE));
            prefix.push(pick(rng, UPPERCASE));
            prefix.push(pick(rng, NUMBERS));
        },
    }
    if use_special_chars {
        prefix.push(pick(rng, SPECIAL_CHARS));
    }
    prefix
}

/// Draws `count` positions below `bound`.
fn draw_positions(rng: &mut ThreadRng, bound: usize, count: usize) -> (draws: Vec<usize>)
    requires
        bound > 0,
    ensures
        draws.len() == count,
        forall|i: int| 0 <= i < draws.len() ==> draws[i] < bound,
{
    let mut draws: Vec<usize> = Vec::new();
    while draws.len() < count
        invariant
            bound > 0,
            draws.len() <= count,
            forall|i: int| 0 <= i < draws.len() ==> draws[i] < bound,
        decreases count - draws.len(),
    {
        let position = random_index(rng, bound);
        draws.push(position);
    }
    draws
}

/// Puts a buffer together from what was drawn: the mandatory characters,
/// then for each draw the character of `charset` at the position drawn.
pub fn compose(prefix: Vec<char>, charset: &Vec<char>, draws: &Vec<usize>) -> (buffer: Vec<char>)
    requires
        forall|i: int| 0 <= i < draws.len() ==> draws[i] < charset.len(),
    ensures
        buffer@ == prefix@ + selected(charset@, draws@),
{
    let ghost start = prefix@;
    let mut buffer = prefix;
    let mut i: usize = 0;
    while i < draws.len()
        invariant
            i <= draws.len(),
            forall|k: int| 0 <= k < draws.len() ==> draws[k] < charset.len(),
            buffer@ == start + selected(charset@, draws@.take(i as int)),
        decreases draws.len() - i,
    {
        buffer.push(charset[draws[i]]);
        assert(buffer@ =~= start + selected(charset@, draws@.take(i + 1)));
        i += 1;
    }
    assert(draws@.take(i as int) =~= draws@);
    buffer
}

/// Generates one password of `length` characters.
///
/// For `Secure` and `Complex` one lowercase letter, one uppercase letter and
/// one digit are drawn first; with `use_special_chars` one special symbol
/// follows. The rest is drawn from the working alphabet of the tier and
/// flag, and the whole buffer is shuffled.
///
/// The request is turned down with `InvalidLength`, before anything is
/// drawn, exactly when `length` is below `min_length`. Every password
/// handed out satisfies `is_password_for`. Which password comes out is up to
/// the random source: two calls with the same arguments may differ.
pub fn generate_password(
    length: usize,
    use_special_chars: bool,
    complexity: &ComplexityEnum,
) -> (res: Result<String, PasswordError>)
    ensures
        match res {
            Ok(password) => {
                &&& length >= min_length(*complexity, use_special_chars)
                &&& is_password_for(password@, length as nat, use_special_chars, *complexity)
            },
            Err(e) => {
                &&& e == PasswordError::InvalidLength
                &&& length < min_length(*complexity, use_special_chars)
            },
        },
        length >= REQUIRED_LENGTH ==> res is Ok,
        res matches Ok(password) ==> {
            &&& password@.len() == length
            &&& *complexity != ComplexityEnum::Simple ==> has_lowercase(password@)
                && has_uppercase(password@) && has_number(password@)
            &&& use_special_chars ==> has_special(password@)
            &&& !use_special_chars && *complexity != ComplexityEnum::Complex ==> !has_special(
                password@,
            )
            &&& !use_special_chars && *complexity == ComplexityEnum::Simple ==> forall|i: int|
                0 <= i < password@.len() ==> is_lowercase(#[trigger] password@[i])
        },
{
    if length < minimum_length(complexity, use_special_chars) {
        return Err(PasswordError::InvalidLength);
    }
    let mut rng = rand::thread_rng();
    let charset = charset_for(complexity, use_special_chars);
    proof {
        lemma_class_sizes();
    }

    let prefix = draw_mandatory(&mut rng, use_special_chars, complexity);
    // Fill the rest with characters of the working alphabet.
    let draws = draw_positions(&mut rng, charset.len(), length - prefix.len());
    let ghost composed = prefix@ + selected(charset@, draws@);
    let mut password = compose(prefix, &charset, &draws);
    proof {
        lemma_composed_is_password(prefix@, draws@, use_special_chars, *complexity);
    }

    // Shuffle so that the mandatory characters do not stay in front.
    shuffle_chars(&mut rng, &mut password);
    proof {
        lemma_reordered_is_password(
            composed,
            password@,
            length as nat,
            use_special_chars,
            *complexity,
        );
        lemma_password_classes(password@, length as nat, use_special_chars, *complexity);
    }
    Ok(string_from_chars(&password))
}

/// Generates `quantity` passwords, each as `generate_password` does.
///
/// The request is turned down with `InvalidLength`, before anything is
/// drawn, exactly when `length` is below `min_length`, whatever the
/// quantity.
pub fn generate_passwords(
    quantity: usize,
    length: usize,
    use_special_chars: bool,
    complexity: &ComplexityEnum,
) -> (res: Result<Vec<String>, PasswordError>)
    ensures
        match res {
            Ok(passwords) => {
                &&& length >= min_length(*complexity, use_special_chars)
                &&& passwords.len() == quantity
                &&& forall|i: int|
                    0 <= i < passwords.len() ==> is_password_for(
                        (#[trigger] passwords[i])@,
                        length as nat,
                        use_special_chars,
                        *complexity,
                    )
            },
            Err(e) => {
                &&& e == PasswordError::InvalidLength
                &&& length < min_length(*complexity, use_special_chars)
            },
        },
{
    if length < minimum_length(complexity, use_special_chars) {
        return Err(PasswordError::InvalidLength);
    }
    let mut passwords: Vec<String> = Vec::new();
    while passwords.len() < quantity
        invariant
            length >= min_length(*complexity, use_special_chars),
            passwords.len() <= quantity,
            forall|i: int|
                0 <= i < passwords.len() ==> is_password_for(
                    (#[trigger] passwords[i])@,
                    length as nat,
                    use_special_chars,
                    *complexity,
                ),
        decreases quantity - passwords.len(),
    {
        match generate_password(length, use_special_chars, complexity) {
            Ok(password) => {
                passwords.push(password);
            },
            Err(e) => {
                return Err(e);
            },
        }
    }
    Ok(passwords)
}

} // verus!
