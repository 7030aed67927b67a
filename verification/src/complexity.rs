//! The complexity tiers and the tokens they are exchanged as.

use vstd::prelude::*;

use crate::error::PasswordError;
use crate::text::{lowercased, same_ignoring_case, to_chars};

verus! {

/// Complexity levels for password generation, in order of increasing
/// character diversity.
#[derive(Debug, Clone, Copy, PartialEq, Eq, Structural)]
pub enum ComplexityEnum {
    Simple,
    Secure,
    Complex,
}

impl ComplexityEnum {
    /// The canonical lowercase token of a tier.
    pub open spec fn token(self) -> Seq<char> {
        match self {
            ComplexityEnum::Simple => "simple"@,
            ComplexityEnum::Secure => "secure"@,
            ComplexityEnum::Complex => "complex"@,
        }
    }

    /// The tier a token names, if any. Letter case is ignored: a token names
    /// a tier when its lowercase form is the tier's canonical token.
    pub open spec fn from_token(token: Seq<char>) -> Option<ComplexityEnum> {
        if lowercased(token) == ComplexityEnum::Simple.token() {
            Some(ComplexityEnum::Simple)
        } else if lowercased(token) == ComplexityEnum::Secure.token() {
            Some(ComplexityEnum::Secure)
        } else if lowercased(token) == ComplexityEnum::Complex.token() {
            Some(ComplexityEnum::Complex)
        } else {
            None
        }
    }

    /// The canonical token of this tier.
    pub fn as_str(&self) -> (token: &'static str)
        ensures
            token@ == self.token(),
    {
        match self {
            ComplexityEnum::Simple => "simple",
            ComplexityEnum::Secure => "secure",
            ComplexityEnum::Complex => "complex",
        }
    }

    /// The canonical token of this tier, as an owned string.
    pub fn to_string(&self) -> (token: String)
        ensures
            token@ == self.token(),
    {
        self.as_str().to_owned()
    }

    /// Reads a tier from its token, ignoring letter case. A token that names
    /// no tier is turned down with `UnsupportedComplexity`.
    pub fn parse(token: &str) -> (res: Result<ComplexityEnum, PasswordError>)
        ensures
            match ComplexityEnum::from_token(token@) {
                Some(tier) => res == Ok::<ComplexityEnum, PasswordError>(tier),
                None => res == Err::<ComplexityEnum, PasswordError>(
                    PasswordError::UnsupportedComplexity,
                ),
            },
    {
        ComplexityEnum::parse_chars(&to_chars(token))
    }

    /// Reads a tier from the characters of its token, as `parse` does.
    pub fn parse_chars(token: &Vec<char>) -> (res: Result<ComplexityEnum, PasswordError>)
        ensures
            match ComplexityEnum::from_token(token@) {
                Some(tier) => res == Ok::<ComplexityEnum, PasswordError>(tier),
                None => res == Err::<ComplexityEnum, PasswordError>(
                    PasswordError::UnsupportedComplexity,
                ),
            },
    {
        if same_ignoring_case(token, "simple") {
            Ok(ComplexityEnum::Simple)
        } else if same_ignoring_case(token, "secure") {
            Ok(ComplexityEnum::Secure)
        } else if same_ignoring_case(token, "complex") {
            Ok(ComplexityEnum::Complex)
        } else {
            Err(PasswordError::UnsupportedComplexity)
        }
    }
}

/// Every tier is read back from its own token, and the canonical tokens
/// are already lowercase.
pub proof fn lemma_token_round_trip(tier: ComplexityEnum)
    ensures
        ComplexityEnum::from_token(tier.token()) == Some(tier),
        lowercased(tier.token()) == tier.token(),
{
    reveal_strlit("simple");
    reveal_strlit("secure");
    reveal_strlit("complex");
    assert(lowercased(tier.token()) =~= tier.token());
    assert("simple"@ != "secure"@) by {
        assert("simple"@[1] != "secure"@[1]);
    }
    assert("simple"@ != "complex"@) by {
        assert("simple"@.len() != "complex"@.len());
    }
    assert("secure"@ != "complex"@) by {
        assert("secure"@.len() != "complex"@.len());
    }
}

} // verus!
