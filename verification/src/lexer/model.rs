use vstd::prelude::*;

use crate::token::preprocessor::SpecPreprocessorToken;
use crate::token::preprocessor::SpecPreprocessorTokenKind;
use crate::token::punctuator::Punctuator;

verus! {

/// The characters the scanner treats as whitespace. Each one becomes its own
/// token: there is no run-length coalescing.
pub open spec fn is_whitespace_char(c: char) -> bool {
    c == ' ' || c == '\n' || c == '\t' || c == '\r'
}

/// The characters that may begin an identifier: an underscore or a letter.
pub open spec fn is_identifier_start(c: char) -> bool {
    ||| c == '_'
    ||| 'a' as u32 <= c as u32 && c as u32 <= 'z' as u32
    ||| 'A' as u32 <= c as u32 && c as u32 <= 'Z' as u32
}

/// The characters that may continue an identifier: an identifier-start
/// character or a digit.
pub open spec fn is_identifier_continue(c: char) -> bool {
    ||| is_identifier_start(c)
    ||| '0' as u32 <= c as u32 && c as u32 <= '9' as u32
}

/// The end of the maximal run of identifier-continue characters beginning at
/// position `i`.
pub open spec fn identifier_end(s: Seq<char>, i: int) -> int
    decreases s.len() - i,
{
    if 0 <= i < s.len() && is_identifier_continue(s[i]) {
        identifier_end(s, i + 1)
    } else {
        i
    }
}

/// A punctuator token spanning `[start, end)`.
pub open spec fn spec_punctuator_token(p: Punctuator, start: int, end: int) -> SpecPreprocessorToken {
    SpecPreprocessorToken { kind: SpecPreprocessorTokenKind::Punctuator(p), start, end }
}

/// The two-way punctuator rule: the lead character is always committed; if
/// the character after it equals `pair`, both are consumed and the doubled
/// tag is produced, else the single-character tag.
pub open spec fn spec_two_way(
    s: Seq<char>,
    i: int,
    pair: char,
    single: Punctuator,
    double: Punctuator,
) -> SpecPreprocessorToken {
    if i + 1 < s.len() && s[i + 1] == pair {
        spec_punctuator_token(double, i, i + 2)
    } else {
        spec_punctuator_token(single, i, i + 1)
    }
}

/// The math-affix-or-assign rule: after the lead character, a repeat of the
/// lead yields the affix tag, otherwise `=` yields the compound-assign tag,
/// otherwise the bare math tag. The repeat check precedes the assign check.
pub open spec fn spec_math_affix_assign(
    s: Seq<char>,
    i: int,
    lead: char,
    math: Punctuator,
    affix: Punctuator,
    assignment: Punctuator,
) -> SpecPreprocessorToken {
    if i + 1 < s.len() && s[i + 1] == lead {
        spec_punctuator_token(affix, i, i + 2)
    } else if i + 1 < s.len() && s[i + 1] == '=' {
        spec_punctuator_token(assignment, i, i + 2)
    } else {
        spec_punctuator_token(math, i, i + 1)
    }
}

/// The three-way punctuator rule: after the lead character, a full
/// `second_char third_char` match yields the three-character tag
/// (longest-match-wins); a `second_char` alone yields `second_kind` where one
/// exists; on any fall-through the cursor backtracks past nothing but the
/// lead, and the one-character `default` is produced.
pub open spec fn spec_three_way(
    s: Seq<char>,
    i: int,
    default: Punctuator,
    second_char: char,
    second_kind: Option<Punctuator>,
    third_char: char,
    third_kind: Punctuator,
) -> SpecPreprocessorToken {
    if i + 1 < s.len() && s[i + 1] == second_char {
        if i + 2 < s.len() && s[i + 2] == third_char {
            spec_punctuator_token(third_kind, i, i + 3)
        } else {
            match second_kind {
                Some(k) => spec_punctuator_token(k, i, i + 2),
                None => spec_punctuator_token(default, i, i + 1),
            }
        }
    } else {
        spec_punctuator_token(default, i, i + 1)
    }
}

/// The preprocessing-token the scanner produces at position `i` of `s`: the
/// maximal-munch dispatch on the character at `i`, with its half-open span.
pub open spec fn spec_token_at(s: Seq<char>, i: int) -> SpecPreprocessorToken
    recommends
        0 <= i < s.len(),
{
    let c = s[i];
    if is_whitespace_char(c) {
        SpecPreprocessorToken {
            kind: SpecPreprocessorTokenKind::Whitespace(c),
            start: i,
            end: i + 1,
        }
    } else if c == '[' {
        spec_punctuator_token(Punctuator::LeftSquareBracket, i, i + 1)
    } else if c == ']' {
        spec_punctuator_token(Punctuator::RightSquareBracket, i, i + 1)
    } else if c == '(' {
        spec_punctuator_token(Punctuator::LeftParenthesis, i, i + 1)
    } else if c == ')' {
        spec_punctuator_token(Punctuator::RightParenthesis, i, i + 1)
    } else if c == '{' {
        spec_punctuator_token(Punctuator::LeftCurlyBracket, i, i + 1)
    } else if c == '}' {
        spec_punctuator_token(Punctuator::RightCurlyBracket, i, i + 1)
    } else if c == '.' {
        spec_three_way(s, i, Punctuator::FullStop, '.', None, '.', Punctuator::Ellipsis)
    } else if c == '-' {
        if i + 1 < s.len() && s[i + 1] == '>' {
            spec_punctuator_token(Punctuator::PointerMemberAccessOperator, i, i + 2)
        } else {
            spec_math_affix_assign(
                s,
                i,
                '-',
                Punctuator::Minus,
                Punctuator::DecrementOperator,
                Punctuator::SubtractAssign,
            )
        }
    } else if c == '+' {
        spec_math_affix_assign(
            s,
            i,
            '+',
            Punctuator::PlusSign,
            Punctuator::IncrementOperator,
            Punctuator::AddAssign,
        )
    } else if c == '~' {
        spec_punctuator_token(Punctuator::Tilde, i, i + 1)
    } else if c == '!' {
        spec_two_way(s, i, '=', Punctuator::ExclamationMark, Punctuator::NotEqualTo)
    } else if c == '/' {
        spec_two_way(s, i, '=', Punctuator::Solidus, Punctuator::DivideAssign)
    } else if c == '*' {
        spec_two_way(s, i, '=', Punctuator::Asterisk, Punctuator::MultiplyAssign)
    } else if c == '%' {
        spec_two_way(s, i, '=', Punctuator::Percentage, Punctuator::ModuloAssign)
    } else if c == '|' {
        spec_math_affix_assign(
            s,
            i,
            '|',
            Punctuator::BitwiseOr,
            Punctuator::LogicalOr,
            Punctuator::BitwiseOrAssign,
        )
    } else if c == '&' {
        spec_math_affix_assign(
            s,
            i,
            '&',
            Punctuator::ReferenceOperatorOrBitwiseAnd,
            Punctuator::LogicalAnd,
            Punctuator::BitwiseAndAssign,
        )
    } else if c == '?' {
        spec_punctuator_token(Punctuator::QuestionMark, i, i + 1)
    } else if c == ':' {
        spec_two_way(s, i, ':', Punctuator::Colon, Punctuator::DoubleColon)
    } else if c == ';' {
        spec_punctuator_token(Punctuator::Semicolon, i, i + 1)
    } else if c == '=' {
        spec_two_way(s, i, '=', Punctuator::EqualsSign, Punctuator::EqualTo)
    } else if c == '<' {
        if i + 1 < s.len() && s[i + 1] == '=' {
            spec_punctuator_token(Punctuator::LessThanOrEqualTo, i, i + 2)
        } else {
            spec_three_way(
                s,
                i,
                Punctuator::LessThan,
                '<',
                Some(Punctuator::LeftBitShift),
                '=',
                Punctuator::LeftBitShiftAssign,
            )
        }
    } else if c == '>' {
        if i + 1 < s.len() && s[i + 1] == '=' {
            spec_punctuator_token(Punctuator::GreaterThanOrEqualTo, i, i + 2)
        } else {
            spec_three_way(
                s,
                i,
                Punctuator::GreaterThan,
                '>',
                Some(Punctuator::RightBitShift),
                '=',
                Punctuator::RightBitShiftAssign,
            )
        }
    } else if c == '^' {
        spec_two_way(s, i, '=', Punctuator::BitwiseXor, Punctuator::BitwiseXorAssign)
    } else if c == '#' {
        spec_two_way(s, i, '#', Punctuator::Pound, Punctuator::DoublePound)
    } else if is_identifier_start(c) {
        SpecPreprocessorToken {
            kind: SpecPreprocessorTokenKind::Identifier(s.subrange(i, identifier_end(s, i))),
            start: i,
            end: identifier_end(s, i),
        }
    } else {
        SpecPreprocessorToken {
            kind: SpecPreprocessorTokenKind::NonWhiteSpaceCharacter(c),
            start: i,
            end: i + 1,
        }
    }
}

/// The end of the maximal identifier run lies between `i` and the end of the
/// text.
pub proof fn lemma_identifier_end_bounds(s: Seq<char>, i: int)
    requires
        0 <= i <= s.len(),
    ensures
        i <= identifier_end(s, i) <= s.len(),
    decreases s.len() - i,
{
    if i < s.len() && is_identifier_continue(s[i]) {
        lemma_identifier_end_bounds(s, i + 1);
    }
}

/// The run `[i, identifier_end(s, i))` consists of identifier-continue
/// characters, and is maximal: the character after it, if any, is not an
/// identifier-continue character.
pub proof fn lemma_identifier_end_maximal(s: Seq<char>, i: int)
    requires
        0 <= i <= s.len(),
    ensures
        i <= identifier_end(s, i) <= s.len(),
        forall|j: int| i <= j < identifier_end(s, i) ==> is_identifier_continue(s[j]),
        identifier_end(s, i) == s.len() || !is_identifier_continue(s[identifier_end(s, i)]),
    decreases s.len() - i,
{
    if i < s.len() && is_identifier_continue(s[i]) {
        lemma_identifier_end_maximal(s, i + 1);
    }
}

/// Every token the scanner produces starts where scanning started, consumes
/// at least one character, and never reads past the end of the text.
pub proof fn lemma_token_at_in_bounds(s: Seq<char>, i: int)
    requires
        0 <= i < s.len(),
    ensures
        spec_token_at(s, i).start == i,
        i < spec_token_at(s, i).end <= s.len(),
{
    if is_identifier_start(s[i]) {
        lemma_identifier_end_bounds(s, i + 1);
        assert(identifier_end(s, i) == identifier_end(s, i + 1));
    }
}

/// The full preprocessing-token sequence for the suffix of `s` beginning at
/// position `i`: scanning ends exactly when the cursor is exhausted.
pub open spec fn spec_tokenize_from(s: Seq<char>, i: int) -> Seq<SpecPreprocessorToken>
    decreases s.len() - i,
    when 0 <= i <= s.len()
    via spec_tokenize_from_decreases
{
    if i == s.len() {
        seq![]
    } else {
        seq![spec_token_at(s, i)] + spec_tokenize_from(s, spec_token_at(s, i).end)
    }
}

#[via_fn]
proof fn spec_tokenize_from_decreases(s: Seq<char>, i: int) {
    if 0 <= i < s.len() {
        lemma_token_at_in_bounds(s, i);
    }
}

/// The preprocessing-token sequence for the whole of `s`.
pub open spec fn spec_tokenize(s: Seq<char>) -> Seq<SpecPreprocessorToken> {
    spec_tokenize_from(s, 0)
}

} // verus!
