pub mod keyword;
pub mod preprocessor;
pub mod punctuator;

use vstd::prelude::*;

use crate::token::preprocessor::PreprocessorToken;
use crate::token::preprocessor::SpecPreprocessorToken;
use crate::token::preprocessor::preprocessor_tokens_view;
use crate::token::preprocessor::spec_narrow_all;
use crate::token::punctuator::Punctuator;

verus! {

/// A translation token: the narrowed lexical unit consumed by a parser, with
/// its half-open span `[start, end)` into the source buffer.
#[derive(Clone, Debug, PartialEq)]
pub struct Token {
    pub kind: TokenKind,
    pub start: usize,
    pub end: usize,
}

/// The kind of a translation token.
#[derive(Clone, Debug, PartialEq)]
pub enum TokenKind {
    Keyword(crate::token::keyword::Keyword),
    Identifier(String),
    Constant,
    StringLiteral(String),
    Punctuator(Punctuator),
}

/// Mathematical model of a translation token kind: payload text as a
/// sequence of characters.
pub enum SpecTokenKind {
    Keyword(crate::token::keyword::Keyword),
    Identifier(Seq<char>),
    Constant,
    StringLiteral(Seq<char>),
    Punctuator(Punctuator),
}

/// Mathematical model of a translation token.
pub struct SpecTranslationToken {
    pub kind: SpecTokenKind,
    pub start: int,
    pub end: int,
}

/// The model of a sequence of translation tokens.
pub open spec fn translation_tokens_view(v: Seq<Token>) -> Seq<SpecTranslationToken> {
    v.map_values(|t: Token| t@)
}

impl View for TokenKind {
    type V = SpecTokenKind;

    open spec fn view(&self) -> SpecTokenKind {
        match self {
            TokenKind::Keyword(k) => SpecTokenKind::Keyword(*k),
            TokenKind::Identifier(s) => SpecTokenKind::Identifier(s@),
            TokenKind::Constant => SpecTokenKind::Constant,
            TokenKind::StringLiteral(s) => SpecTokenKind::StringLiteral(s@),
            TokenKind::Punctuator(p) => SpecTokenKind::Punctuator(*p),
        }
    }
}

impl View for Token {
    type V = SpecTranslationToken;

    open spec fn view(&self) -> SpecTranslationToken {
        SpecTranslationToken { kind: self.kind@, start: self.start as int, end: self.end as int }
    }
}

/// Filters a preprocessing-token sequence through the narrowing conversion,
/// keeping the tokens that map (in order) and discarding mapping failures.
pub fn narrow(tokens: Vec<PreprocessorToken>) -> (r: Vec<Token>)
    ensures
        translation_tokens_view(r@) == spec_narrow_all(preprocessor_tokens_view(tokens@)),
{
    let ghost orig = preprocessor_tokens_view(tokens@);
    let mut remaining = tokens;
    let mut result: Vec<Token> = Vec::new();
    proof {
        assert(translation_tokens_view(result@) + spec_narrow_all(orig) =~= spec_narrow_all(orig));
    }
    while remaining.len() > 0
        invariant
            translation_tokens_view(result@) + spec_narrow_all(
                preprocessor_tokens_view(remaining@),
            ) == spec_narrow_all(orig),
        decreases remaining.len(),
    {
        let ghost rv = preprocessor_tokens_view(remaining@);
        let ghost prev = result@;
        let t = remaining.remove(0);
        let ghost tv = t@;
        proof {
            assert(rv[0] == tv);
            assert(preprocessor_tokens_view(remaining@) =~= rv.subrange(1, rv.len() as int));
        }
        match Token::try_from(t) {
            Ok(token) => {
                let ghost tokv = token@;
                result.push(token);
                proof {
                    assert(translation_tokens_view(result@) =~= translation_tokens_view(prev)
                        + seq![tokv]);
                    assert(spec_narrow_all(rv) == seq![tokv] + spec_narrow_all(
                        rv.subrange(1, rv.len() as int),
                    ));
                    assert(translation_tokens_view(result@) + spec_narrow_all(
                        preprocessor_tokens_view(remaining@),
                    ) =~= spec_narrow_all(orig));
                }
            },
            Err(_) => {
                proof {
                    assert(spec_narrow_all(rv) == spec_narrow_all(
                        rv.subrange(1, rv.len() as int),
                    ));
                }
            },
        }
    }
    proof {
        assert(preprocessor_tokens_view(remaining@) =~= Seq::<SpecPreprocessorToken>::empty());
        assert(translation_tokens_view(result@) =~= spec_narrow_all(orig));
    }
    result
}

} // verus!
