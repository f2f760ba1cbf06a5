use vstd::prelude::*;

use crate::token::Token;
use crate::token::TokenKind;
use crate::token::SpecTokenKind;
use crate::token::SpecTranslationToken;
use crate::token::punctuator::Punctuator;

verus! {

/// A preprocessing-token: a lexical unit at the phase-3 granularity of the C
/// translation process, with its half-open span `[start, end)` into the
/// source buffer.
#[derive(Clone, Debug, PartialEq)]
pub struct PreprocessorToken {
    pub kind: PreprocessorTokenKind,
    pub start: usize,
    pub end: usize,
}

/// The kind of a preprocessing-token. `NonWhiteSpaceCharacter` is the
/// catch-all for unrecognized input, so the scanner never aborts outright on
/// unknown characters.
#[derive(Clone, Debug, PartialEq)]
pub enum PreprocessorTokenKind {
    Whitespace(char),
    HeaderName,
    Identifier(String),
    PpNumber,
    CharacterConstant,
    StringLiteral(String),
    Punctuator(Punctuator),
    OtherUniversalCharacterName,
    NonWhiteSpaceCharacter(char),
}

/// Mathematical model of a preprocessing-token kind: payload text as a
/// sequence of characters.
pub enum SpecPreprocessorTokenKind {
    Whitespace(char),
    HeaderName,
    Identifier(Seq<char>),
    PpNumber,
    CharacterConstant,
    StringLiteral(Seq<char>),
    Punctuator(Punctuator),
    OtherUniversalCharacterName,
    NonWhiteSpaceCharacter(char),
}

/// Mathematical model of a preprocessing-token.
pub struct SpecPreprocessorToken {
    pub kind: SpecPreprocessorTokenKind,
    pub start: int,
    pub end: int,
}

impl View for PreprocessorTokenKind {
    type V = SpecPreprocessorTokenKind;

    open spec fn view(&self) -> SpecPreprocessorTokenKind {
        match self {
            PreprocessorTokenKind::Whitespace(c) => SpecPreprocessorTokenKind::Whitespace(*c),
            PreprocessorTokenKind::HeaderName => SpecPreprocessorTokenKind::HeaderName,
            PreprocessorTokenKind::Identifier(s) => SpecPreprocessorTokenKind::Identifier(s@),
            PreprocessorTokenKind::PpNumber => SpecPreprocessorTokenKind::PpNumber,
            PreprocessorTokenKind::CharacterConstant => SpecPreprocessorTokenKind::CharacterConstant,
            PreprocessorTokenKind::StringLiteral(s) => SpecPreprocessorTokenKind::StringLiteral(s@),
            PreprocessorTokenKind::Punctuator(p) => SpecPreprocessorTokenKind::Punctuator(*p),
            PreprocessorTokenKind::OtherUniversalCharacterName => SpecPreprocessorTokenKind::OtherUniversalCharacterName,
            PreprocessorTokenKind::NonWhiteSpaceCharacter(c) => SpecPreprocessorTokenKind::NonWhiteSpaceCharacter(*c),
        }
    }
}

impl View for PreprocessorToken {
    type V = SpecPreprocessorToken;

    open spec fn view(&self) -> SpecPreprocessorToken {
        SpecPreprocessorToken { kind: self.kind@, start: self.start as int, end: self.end as int }
    }
}

/// Why a preprocessing-token could not be mapped to a translation token:
/// either the kind has no translation-token form by design (whitespace is
/// discarded between the preprocessing and translation phases, as are header
/// names), or the mapping is not yet supported.
#[derive(Copy, Clone, Debug, PartialEq, Eq, PartialOrd, Ord, Structural)]
pub enum PreprocessorTokenNotMappedToTokenError {
    NoTokenRepresentation,
    NotYetSupported,
}

/// What the narrowing conversion yields for each preprocessing-token kind.
/// Whitespace and header names have no translation-token form; identifiers,
/// string literals and punctuators map directly; the remaining kinds are not
/// yet supported.
pub open spec fn spec_narrow_kind(k: SpecPreprocessorTokenKind) -> Result<
    SpecTokenKind,
    PreprocessorTokenNotMappedToTokenError,
> {
    match k {
        SpecPreprocessorTokenKind::Whitespace(_) => Err(
            PreprocessorTokenNotMappedToTokenError::NoTokenRepresentation,
        ),
        SpecPreprocessorTokenKind::HeaderName => Err(
            PreprocessorTokenNotMappedToTokenError::NoTokenRepresentation,
        ),
        SpecPreprocessorTokenKind::Identifier(s) => Ok(SpecTokenKind::Identifier(s)),
        SpecPreprocessorTokenKind::PpNumber => Err(
            PreprocessorTokenNotMappedToTokenError::NotYetSupported,
        ),
        SpecPreprocessorTokenKind::CharacterConstant => Err(
            PreprocessorTokenNotMappedToTokenError::NotYetSupported,
        ),
        SpecPreprocessorTokenKind::StringLiteral(s) => Ok(SpecTokenKind::StringLiteral(s)),
        SpecPreprocessorTokenKind::Punctuator(p) => Ok(SpecTokenKind::Punctuator(p)),
        SpecPreprocessorTokenKind::OtherUniversalCharacterName => Err(
            PreprocessorTokenNotMappedToTokenError::NotYetSupported,
        ),
        SpecPreprocessorTokenKind::NonWhiteSpaceCharacter(_) => Err(
            PreprocessorTokenNotMappedToTokenError::NotYetSupported,
        ),
    }
}

/// What the narrowing conversion yields for a whole preprocessing-token: the
/// kind is narrowed and the span carried over unchanged.
pub open spec fn spec_narrow_token(t: SpecPreprocessorToken) -> Result<
    SpecTranslationToken,
    PreprocessorTokenNotMappedToTokenError,
> {
    match spec_narrow_kind(t.kind) {
        Ok(kind) => Ok(SpecTranslationToken { kind, start: t.start, end: t.end }),
        Err(e) => Err(e),
    }
}

/// The model of a sequence of preprocessing-tokens.
pub open spec fn preprocessor_tokens_view(v: Seq<PreprocessorToken>) -> Seq<
    SpecPreprocessorToken,
> {
    v.map_values(|t: PreprocessorToken| t@)
}

/// The narrowing conversion over a whole preprocessing-token sequence:
/// tokens that map are kept in order, mapping failures are discarded.
pub open spec fn spec_narrow_all(ts: Seq<SpecPreprocessorToken>) -> Seq<SpecTranslationToken>
    decreases ts.len(),
{
    if ts.len() == 0 {
        seq![]
    } else {
        match spec_narrow_token(ts[0]) {
            Ok(t) => seq![t] + spec_narrow_all(ts.subrange(1, ts.len() as int)),
            Err(_) => spec_narrow_all(ts.subrange(1, ts.len() as int)),
        }
    }
}

impl TokenKind {
    /// Attempts to narrow a preprocessing-token kind to a translation-token
    /// kind, rejecting kinds that have no translation-token form and kinds
    /// whose mapping is not yet supported.
    pub fn try_from(value: PreprocessorTokenKind) -> (r: Result<
        TokenKind,
        PreprocessorTokenNotMappedToTokenError,
    >)
        ensures
            match r {
                Ok(kind) => spec_narrow_kind(value@) == Ok::<
                    SpecTokenKind,
                    PreprocessorTokenNotMappedToTokenError,
                >(kind@),
                Err(e) => spec_narrow_kind(value@) == Err::<
                    SpecTokenKind,
                    PreprocessorTokenNotMappedToTokenError,
                >(e),
            },
    {
        match value {
            PreprocessorTokenKind::Whitespace(_) => Err(
                PreprocessorTokenNotMappedToTokenError::NoTokenRepresentation,
            ),
            PreprocessorTokenKind::HeaderName => Err(
                PreprocessorTokenNotMappedToTokenError::NoTokenRepresentation,
            ),
            PreprocessorTokenKind::Identifier(ident) => Ok(TokenKind::Identifier(ident)),
            PreprocessorTokenKind::PpNumber => Err(
                PreprocessorTokenNotMappedToTokenError::NotYetSupported,
            ),
            PreprocessorTokenKind::CharacterConstant => Err(
                PreprocessorTokenNotMappedToTokenError::NotYetSupported,
            ),
            PreprocessorTokenKind::StringLiteral(string_literal) => Ok(
                TokenKind::StringLiteral(string_literal),
            ),
            PreprocessorTokenKind::Punctuator(punctuator) => Ok(
                TokenKind::Punctuator(punctuator),
            ),
            PreprocessorTokenKind::OtherUniversalCharacterName => Err(
                PreprocessorTokenNotMappedToTokenError::NotYetSupported,
            ),
            PreprocessorTokenKind::NonWhiteSpaceCharacter(_) => Err(
                PreprocessorTokenNotMappedToTokenError::NotYetSupported,
            ),
        }
    }
}

impl Token {
    /// Attempts to narrow a whole preprocessing-token to a translation token,
    /// carrying its span over unchanged.
    pub fn try_from(value: PreprocessorToken) -> (r: Result<
        Token,
        PreprocessorTokenNotMappedToTokenError,
    >)
        ensures
            match r {
                Ok(token) => spec_narrow_token(value@) == Ok::<
                    SpecTranslationToken,
                    PreprocessorTokenNotMappedToTokenError,
                >(token@),
                Err(e) => spec_narrow_token(value@) == Err::<
                    SpecTranslationToken,
                    PreprocessorTokenNotMappedToTokenError,
                >(e),
            },
    {
        match TokenKind::try_from(value.kind) {
            Ok(kind) => Ok(Token { kind, start: value.start, end: value.end }),
            Err(e) => Err(e),
        }
    }
}

} // verus!
