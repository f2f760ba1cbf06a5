pub mod lemmas;
pub mod model;
pub mod source_code;

use vstd::prelude::*;

use crate::lexer::model::identifier_end;
use crate::lexer::model::is_identifier_continue;
use crate::lexer::model::is_identifier_start;
use crate::lexer::model::is_whitespace_char;
use crate::lexer::model::spec_math_affix_assign;
use crate::lexer::model::spec_three_way;
use crate::lexer::model::spec_token_at;
use crate::lexer::model::spec_two_way;
use crate::lexer::model::lemma_token_at_in_bounds;
use crate::lexer::model::spec_tokenize;
use crate::lexer::model::spec_tokenize_from;
use crate::lexer::source_code::SourceCode;
use crate::token::preprocessor::preprocessor_tokens_view;
use crate::token::preprocessor::PreprocessorToken;
use crate::token::preprocessor::PreprocessorTokenKind;
use crate::token::preprocessor::SpecPreprocessorToken;
use crate::token::preprocessor::SpecPreprocessorTokenKind;
use crate::token::punctuator::Punctuator;

verus! {

/// True exactly when the scanner treats `c` as whitespace.
fn check_whitespace(c: char) -> (r: bool)
    ensures
        r == is_whitespace_char(c),
{
    c == ' ' || c == '\n' || c == '\t' || c == '\r'
}

/// True exactly when `c` may begin an identifier.
fn check_identifier_start(c: char) -> (r: bool)
    ensures
        r == is_identifier_start(c),
{
    c == '_' || ('a' as u32 <= c as u32 && c as u32 <= 'z' as u32) || ('A' as u32 <= c as u32
        && c as u32 <= 'Z' as u32)
}

/// True exactly when `c` may continue an identifier.
fn check_identifier_continue(c: char) -> (r: bool)
    ensures
        r == is_identifier_continue(c),
{
    check_identifier_start(c) || ('0' as u32 <= c as u32 && c as u32 <= '9' as u32)
}

/// The maximal-munch dispatch engine: a pull-based, single-pass scanner that
/// classifies one preprocessing-token per pull. Each pull performs bounded
/// work: a small constant number of character reads plus at most one cursor
/// snapshot and restore.
pub struct Lexer<'a> {
    source_code: SourceCode<'a>,
}

impl<'a> Lexer<'a> {
    /// The full source text as a sequence of characters.
    pub closed spec fn text_view(self) -> Seq<char> {
        self.source_code.text_view()
    }

    /// The offset (in characters) of the next character to be consumed.
    pub closed spec fn position(self) -> int {
        self.source_code.position()
    }

    /// Well-formedness: the position never exceeds the length of the text.
    pub closed spec fn wf(self) -> bool {
        self.source_code.wf()
    }

    /// A well-formed lexer's position lies within the text.
    pub proof fn lemma_position_in_bounds(self)
        requires
            self.wf(),
        ensures
            0 <= self.position() <= self.text_view().len(),
    {
        self.source_code.lemma_position_in_bounds();
    }

    /// Creates a lexer positioned at the start of the given source text.
    pub fn new(source_code: &'a str) -> (r: Self)
        ensures
            r.wf(),
            r.text_view() == source_code@,
            r.position() == 0,
    {
        Lexer { source_code: SourceCode::new(source_code) }
    }

    /// Consumes exactly one character and emits a token of the given kind
    /// spanning it; `None` on an exhausted cursor.
    fn consume_single_char_token(&mut self, kind: PreprocessorTokenKind) -> (r: Option<
        PreprocessorToken,
    >)
        requires
            old(self).wf(),
        ensures
            final(self).wf(),
            final(self).text_view() == old(self).text_view(),
            old(self).position() < old(self).text_view().len() ==> ({
                &&& final(self).position() == old(self).position() + 1
                &&& r matches Some(t) && t@ == (SpecPreprocessorToken {
                    kind: kind@,
                    start: old(self).position(),
                    end: old(self).position() + 1,
                })
            }),
            old(self).position() >= old(self).text_view().len() ==> ({
                &&& r is None
                &&& final(self).position() == old(self).position()
            }),
    {
        let start = self.source_code.index();
        match self.source_code.next() {
            Some(_) => {
                let end = self.source_code.index();
                Some(PreprocessorToken { kind, start, end })
            },
            None => None,
        }
    }

    /// Consumes exactly one character and emits the given punctuator tag
    /// spanning it; `None` on an exhausted cursor.
    fn consume_single_char_punctuator(&mut self, punctuator: Punctuator) -> (r: Option<
        PreprocessorToken,
    >)
        requires
            old(self).wf(),
        ensures
            final(self).wf(),
            final(self).text_view() == old(self).text_view(),
            old(self).position() < old(self).text_view().len() ==> ({
                &&& final(self).position() == old(self).position() + 1
                &&& r matches Some(t) && t@ == (SpecPreprocessorToken {
                    kind: SpecPreprocessorTokenKind::Punctuator(punctuator),
                    start: old(self).position(),
                    end: old(self).position() + 1,
                })
            }),
            old(self).position() >= old(self).text_view().len() ==> ({
                &&& r is None
                &&& final(self).position() == old(self).position()
            }),
    {
        let kind = PreprocessorTokenKind::Punctuator(punctuator);
        self.consume_single_char_token(kind)
    }

    /// The two-way punctuator rule: commits the lead character, then emits
    /// the doubled tag if the next character equals `pair`, else the single
    /// tag. No backtracking is needed: the lead is always committed.
    fn consume_two_possible_punctuators(
        &mut self,
        pair: char,
        single: Punctuator,
        double: Punctuator,
    ) -> (r: PreprocessorToken)
        requires
            old(self).wf(),
            old(self).position() < old(self).text_view().len(),
        ensures
            final(self).wf(),
            final(self).text_view() == old(self).text_view(),
            r@ == spec_two_way(old(self).text_view(), old(self).position(), pair, single, double),
            final(self).position() == r@.end,
    {
        let start = self.source_code.index();
        let _ = self.source_code.next();

        let matched = match self.source_code.peek() {
            Some(c) => c == pair,
            None => false,
        };
        if matched {
            let _ = self.source_code.next();
            return PreprocessorToken {
                kind: PreprocessorTokenKind::Punctuator(double),
                start,
                end: self.source_code.index(),
            };
        }

        PreprocessorToken {
            kind: PreprocessorTokenKind::Punctuator(single),
            start,
            end: self.source_code.index(),
        }
    }

    /// The three-way punctuator rule: after the committed lead, a full
    /// `second_char third_char` match emits the three-character tag; a
    /// `second_char` alone emits `second_kind` where one exists; on any
    /// fall-through the cursor reverts to the snapshot taken after the lead
    /// and the one-character `default` is emitted.
    fn consume_three_possible_punctuators(
        &mut self,
        default: Punctuator,
        second_char: char,
        second_kind: Option<Punctuator>,
        third_char: char,
        third_kind: Punctuator,
    ) -> (r: PreprocessorToken)
        requires
            old(self).wf(),
            old(self).position() < old(self).text_view().len(),
        ensures
            final(self).wf(),
            final(self).text_view() == old(self).text_view(),
            r@ == spec_three_way(
                old(self).text_view(),
                old(self).position(),
                default,
                second_char,
                second_kind,
                third_char,
                third_kind,
            ),
            final(self).position() == r@.end,
    {
        let start = self.source_code.index();

        let _ = self.source_code.next();
        let source_code_reset = self.source_code;

        let second_matched = match self.source_code.peek() {
            Some(c) => c == second_char,
            None => false,
        };
        if second_matched {
            let _ = self.source_code.next();

            let third_matched = match self.source_code.peek() {
                Some(c) => c == third_char,
                None => false,
            };
            if third_matched {
                let _ = self.source_code.next();
                let kind = PreprocessorTokenKind::Punctuator(third_kind);
                let end = self.source_code.index();

                return PreprocessorToken { kind, start, end };
            }

            if let Some(second_kind) = second_kind {
                let kind = PreprocessorTokenKind::Punctuator(second_kind);
                let end = self.source_code.index();

                return PreprocessorToken { kind, start, end };
            }
        }

        self.source_code = source_code_reset;

        let kind = PreprocessorTokenKind::Punctuator(default);
        let end = self.source_code.index();
        PreprocessorToken { kind, start, end }
    }

    /// The math-affix-or-assign rule: after the committed lead, a repeat of
    /// the lead emits the affix tag, otherwise `=` emits the compound-assign
    /// tag, otherwise the bare math tag. The repeat check precedes the
    /// assign check.
    fn consume_math_or_affix_or_assignment(
        &mut self,
        lead: char,
        math: Punctuator,
        affix: Punctuator,
        assignment: Punctuator,
    ) -> (r: PreprocessorToken)
        requires
            old(self).wf(),
            old(self).position() < old(self).text_view().len(),
        ensures
            final(self).wf(),
            final(self).text_view() == old(self).text_view(),
            r@ == spec_math_affix_assign(
                old(self).text_view(),
                old(self).position(),
                lead,
                math,
                affix,
                assignment,
            ),
            final(self).position() == r@.end,
    {
        let start = self.source_code.index();
        let _ = self.source_code.next();

        let repeat_matched = match self.source_code.peek() {
            Some(c) => c == lead,
            None => false,
        };
        if repeat_matched {
            let _ = self.source_code.next();
            let end = self.source_code.index();
            let kind = PreprocessorTokenKind::Punctuator(affix);
            return PreprocessorToken { kind, start, end };
        }

        let assign_matched = match self.source_code.peek() {
            Some(c) => c == '=',
            None => false,
        };
        if assign_matched {
            let _ = self.source_code.next();
            let end = self.source_code.index();
            let kind = PreprocessorTokenKind::Punctuator(assignment);
            return PreprocessorToken { kind, start, end };
        }

        let end = self.source_code.index();
        let kind = PreprocessorTokenKind::Punctuator(math);
        PreprocessorToken { kind, start, end }
    }

    /// Consumes the maximal run of identifier-continue characters and emits
    /// an identifier token whose text is exactly the consumed span.
    fn consume_identifier_or_keyword(&mut self) -> (r: PreprocessorToken)
        requires
            old(self).wf(),
            old(self).position() < old(self).text_view().len(),
            is_identifier_start(old(self).text_view()[old(self).position()]),
        ensures
            final(self).wf(),
            final(self).text_view() == old(self).text_view(),
            final(self).position() == identifier_end(
                old(self).text_view(),
                old(self).position(),
            ),
            r@ == (SpecPreprocessorToken {
                kind: SpecPreprocessorTokenKind::Identifier(
                    old(self).text_view().subrange(
                        old(self).position(),
                        identifier_end(old(self).text_view(), old(self).position()),
                    ),
                ),
                start: old(self).position(),
                end: identifier_end(old(self).text_view(), old(self).position()),
            }),
    {
        let ghost s = self.text_view();
        let ghost p0 = self.position();
        let start = self.source_code.index();

        loop
            invariant
                self.wf(),
                self.text_view() == s,
                0 <= p0 <= self.position() <= s.len(),
                start == p0,
                identifier_end(s, p0) == identifier_end(s, self.position()),
            ensures
                self.wf(),
                self.text_view() == s,
                p0 <= self.position() <= s.len(),
                self.position() == identifier_end(s, p0),
            decreases s.len() - self.position(),
        {
            match self.source_code.peek() {
                Some(c) => {
                    if check_identifier_continue(c) {
                        let _ = self.source_code.next();
                    } else {
                        break;
                    }
                },
                None => {
                    break;
                },
            }
        }

        let end = self.source_code.index();
        let text = self.source_code.as_str().substring_char(start, end);
        let ident = text.to_owned();

        PreprocessorToken { kind: PreprocessorTokenKind::Identifier(ident), start, end }
    }

    /// Produces the next preprocessing-token, or `None` exactly when the
    /// cursor is exhausted (the only terminal condition). The token produced
    /// and the characters consumed are exactly what the maximal-munch model
    /// [`spec_token_at`] prescribes at the current position.
    pub fn next(&mut self) -> (r: Option<PreprocessorToken>)
        requires
            old(self).wf(),
        ensures
            final(self).wf(),
            final(self).text_view() == old(self).text_view(),
            old(self).position() >= old(self).text_view().len() ==> ({
                &&& r is None
                &&& final(self).position() == old(self).position()
            }),
            old(self).position() < old(self).text_view().len() ==> ({
                let t = spec_token_at(old(self).text_view(), old(self).position());
                &&& r matches Some(token) && token@ == t
                &&& final(self).position() == t.end
            }),
    {
        let start = self.source_code.index();
        let first_char = match self.source_code.peek() {
            Some(c) => c,
            None => {
                return None;
            },
        };

        if check_whitespace(first_char) {
            self.consume_single_char_token(PreprocessorTokenKind::Whitespace(first_char))
        } else if first_char == '[' {
            self.consume_single_char_punctuator(Punctuator::LeftSquareBracket)
        } else if first_char == ']' {
            self.consume_single_char_punctuator(Punctuator::RightSquareBracket)
        } else if first_char == '(' {
            self.consume_single_char_punctuator(Punctuator::LeftParenthesis)
        } else if first_char == ')' {
            self.consume_single_char_punctuator(Punctuator::RightParenthesis)
        } else if first_char == '{' {
            self.consume_single_char_punctuator(Punctuator::LeftCurlyBracket)
        } else if first_char == '}' {
            self.consume_single_char_punctuator(Punctuator::RightCurlyBracket)
        } else if first_char == '.' {
            Some(
                self.consume_three_possible_punctuators(
                    Punctuator::FullStop,
                    '.',
                    None,
                    '.',
                    Punctuator::Ellipsis,
                ),
            )
        } else if first_char == '-' {
            let reset_source_code = self.source_code;
            let _ = self.source_code.next();

            let arrow_matched = match self.source_code.peek() {
                Some(c) => c == '>',
                None => false,
            };
            if arrow_matched {
                let _ = self.source_code.next();
                let kind = PreprocessorTokenKind::Punctuator(
                    Punctuator::PointerMemberAccessOperator,
                );
                let end = self.source_code.index();
                return Some(PreprocessorToken { kind, start, end });
            }

            self.source_code = reset_source_code;

            Some(
                self.consume_math_or_affix_or_assignment(
                    '-',
                    Punctuator::Minus,
                    Punctuator::DecrementOperator,
                    Punctuator::SubtractAssign,
                ),
            )
        } else if first_char == '+' {
            Some(
                self.consume_math_or_affix_or_assignment(
                    '+',
                    Punctuator::PlusSign,
                    Punctuator::IncrementOperator,
                    Punctuator::AddAssign,
                ),
            )
        } else if first_char == '~' {
            self.consume_single_char_punctuator(Punctuator::Tilde)
        } else if first_char == '!' {
            Some(
                self.consume_two_possible_punctuators(
                    '=',
                    Punctuator::ExclamationMark,
                    Punctuator::NotEqualTo,
                ),
            )
        } else if first_char == '/' {
            Some(
                self.consume_two_possible_punctuators(
                    '=',
                    Punctuator::Solidus,
                    Punctuator::DivideAssign,
                ),
            )
        } else if first_char == '*' {
            Some(
                self.consume_two_possible_punctuators(
                    '=',
                    Punctuator::Asterisk,
                    Punctuator::MultiplyAssign,
                ),
            )
        } else if first_char == '%' {
            Some(
                self.consume_two_possible_punctuators(
                    '=',
                    Punctuator::Percentage,
                    Punctuator::ModuloAssign,
                ),
            )
        } else if first_char == '|' {
            Some(
                self.consume_math_or_affix_or_assignment(
                    '|',
                    Punctuator::BitwiseOr,
                    Punctuator::LogicalOr,
                    Punctuator::BitwiseOrAssign,
                ),
            )
        } else if first_char == '&' {
            Some(
                self.consume_math_or_affix_or_assignment(
                    '&',
                    Punctuator::ReferenceOperatorOrBitwiseAnd,
                    Punctuator::LogicalAnd,
                    Punctuator::BitwiseAndAssign,
                ),
            )
        } else if first_char == '?' {
            self.consume_single_char_punctuator(Punctuator::QuestionMark)
        } else if first_char == ':' {
            Some(
                self.consume_two_possible_punctuators(
                    ':',
                    Punctuator::Colon,
                    Punctuator::DoubleColon,
                ),
            )
        } else if first_char == ';' {
            self.consume_single_char_punctuator(Punctuator::Semicolon)
        } else if first_char == '=' {
            Some(
                self.consume_two_possible_punctuators(
                    '=',
                    Punctuator::EqualsSign,
                    Punctuator::EqualTo,
                ),
            )
        } else if first_char == '<' {
            let reset_source_code = self.source_code;
            let _ = self.source_code.next();

            let le_matched = match self.source_code.peek() {
                Some(c) => c == '=',
                None => false,
            };
            if le_matched {
                let _ = self.source_code.next();
                return Some(
                    PreprocessorToken {
                        kind: PreprocessorTokenKind::Punctuator(Punctuator::LessThanOrEqualTo),
                        start,
                        end: self.source_code.index(),
                    },
                );
            }

            self.source_code = reset_source_code;

            Some(
                self.consume_three_possible_punctuators(
                    Punctuator::LessThan,
                    '<',
                    Some(Punctuator::LeftBitShift),
                    '=',
                    Punctuator::LeftBitShiftAssign,
                ),
            )
        } else if first_char == '>' {
            let reset_source_code = self.source_code;
            let _ = self.source_code.next();

            let ge_matched = match self.source_code.peek() {
                Some(c) => c == '=',
                None => false,
            };
            if ge_matched {
                let _ = self.source_code.next();
                return Some(
                    PreprocessorToken {
                        kind: PreprocessorTokenKind::Punctuator(Punctuator::GreaterThanOrEqualTo),
                        start,
                        end: self.source_code.index(),
                    },
                );
            }

            self.source_code = reset_source_code;

            Some(
                self.consume_three_possible_punctuators(
                    Punctuator::GreaterThan,
                    '>',
                    Some(Punctuator::RightBitShift),
                    '=',
                    Punctuator::RightBitShiftAssign,
                ),
            )
        } else if first_char == '^' {
            Some(
                self.consume_two_possible_punctuators(
                    '=',
                    Punctuator::BitwiseXor,
                    Punctuator::BitwiseXorAssign,
                ),
            )
        } else if first_char == '#' {
            Some(
                self.consume_two_possible_punctuators(
                    '#',
                    Punctuator::Pound,
                    Punctuator::DoublePound,
                ),
            )
        } else if check_identifier_start(first_char) {
            Some(self.consume_identifier_or_keyword())
        } else {
            self.consume_single_char_token(
                PreprocessorTokenKind::NonWhiteSpaceCharacter(first_char),
            )
        }
    }
}

/// Scans the whole source text into its preprocessing-token sequence, as the
/// maximal-munch model [`spec_tokenize`] prescribes.
pub fn tokenize(source: &str) -> (r: Vec<PreprocessorToken>)
    ensures
        preprocessor_tokens_view(r@) == spec_tokenize(source@),
{
    let ghost s = source@;
    let mut lexer = Lexer::new(source);
    let mut tokens: Vec<PreprocessorToken> = Vec::new();
    proof {
        assert(preprocessor_tokens_view(tokens@) + spec_tokenize_from(s, 0) =~= spec_tokenize(s));
    }
    loop
        invariant
            lexer.wf(),
            lexer.text_view() == s,
            0 <= lexer.position() <= s.len(),
            preprocessor_tokens_view(tokens@) + spec_tokenize_from(s, lexer.position())
                == spec_tokenize(s),
        ensures
            preprocessor_tokens_view(tokens@) == spec_tokenize(s),
        decreases s.len() - lexer.position(),
    {
        let ghost p = lexer.position();
        let ghost prev = tokens@;
        match lexer.next() {
            Some(token) => {
                let ghost tv = token@;
                tokens.push(token);
                proof {
                    lemma_token_at_in_bounds(s, p);
                    assert(spec_tokenize_from(s, p) == seq![spec_token_at(s, p)]
                        + spec_tokenize_from(s, spec_token_at(s, p).end));
                    assert(preprocessor_tokens_view(tokens@) =~= preprocessor_tokens_view(prev)
                        + seq![tv]);
                    assert(preprocessor_tokens_view(tokens@) + spec_tokenize_from(
                        s,
                        lexer.position(),
                    ) =~= spec_tokenize(s));
                    lexer.lemma_position_in_bounds();
                }
            },
            None => {
                proof {
                    assert(spec_tokenize_from(s, lexer.position()) =~= Seq::<
                        SpecPreprocessorToken,
                    >::empty());
                    assert(preprocessor_tokens_view(tokens@) =~= spec_tokenize(s));
                }
                break;
            },
        }
    }
    tokens
}

} // verus!
