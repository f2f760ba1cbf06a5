use vstd::prelude::*;

use crate::lexer::model::identifier_end;
use crate::lexer::model::is_identifier_continue;
use crate::lexer::model::is_identifier_start;
use crate::lexer::model::is_whitespace_char;
use crate::lexer::model::lemma_identifier_end_bounds;
use crate::lexer::model::lemma_identifier_end_maximal;
use crate::lexer::model::lemma_token_at_in_bounds;
use crate::lexer::model::spec_token_at;
use crate::lexer::model::spec_tokenize;
use crate::lexer::model::spec_tokenize_from;
use crate::token::SpecTranslationToken;
use crate::token::preprocessor::SpecPreprocessorToken;
use crate::token::preprocessor::SpecPreprocessorTokenKind;
use crate::token::preprocessor::spec_narrow_all;
use crate::token::punctuator::Punctuator;
use crate::token::punctuator::punctuator_spelling;

verus! {

/// The token sequence partitions the scanned suffix: the first token starts
/// where scanning started, each token consumes at least one character, each
/// one starts exactly where its predecessor ended, and the last one ends at
/// the end of the text. No character is skipped or double-counted, even on
/// backtracking paths.
pub proof fn lemma_tokens_contiguous(s: Seq<char>, i: int)
    requires
        0 <= i <= s.len(),
    ensures
        ({
            let ts = spec_tokenize_from(s, i);
            &&& ts.len() == 0 <==> i == s.len()
            &&& ts.len() > 0 ==> ts[0].start == i && ts[ts.len() - 1].end == s.len()
            &&& forall|j: int| 0 <= j < ts.len() ==> #[trigger] ts[j].start < ts[j].end <= s.len()
            &&& forall|j: int| 0 < j < ts.len() ==> #[trigger] ts[j].start == ts[j - 1].end
            &&& forall|j: int| 0 <= j < ts.len() ==> #[trigger] ts[j] == spec_token_at(s, ts[j].start)
        }),
    decreases s.len() - i,
{
    if i < s.len() {
        let t = spec_token_at(s, i);
        lemma_token_at_in_bounds(s, i);
        lemma_tokens_contiguous(s, t.end);
        let ts = spec_tokenize_from(s, i);
        let rest = spec_tokenize_from(s, t.end);
        assert forall|j: int| 0 <= j < ts.len() implies #[trigger] ts[j].start < ts[j].end
            <= s.len() by {
            if j > 0 {
                assert(ts[j] == rest[j - 1]);
            }
        }
        assert forall|j: int| 0 <= j < ts.len() implies #[trigger] ts[j] == spec_token_at(
            s,
            ts[j].start,
        ) by {
            if j > 0 {
                assert(ts[j] == rest[j - 1]);
            }
        }
        assert forall|j: int| 0 < j < ts.len() implies #[trigger] ts[j].start == ts[j - 1].end by {
            if j == 1 {
                assert(ts[1] == rest[0]);
            } else {
                assert(ts[j] == rest[j - 1]);
                assert(ts[j - 1] == rest[j - 2]);
            }
        }
        if ts.len() > 0 {
            assert(ts[ts.len() - 1] == if rest.len() > 0 {
                rest[rest.len() - 1]
            } else {
                ts[0]
            });
        }
    }
}

/// Scanning input that consists solely of whitespace characters yields one
/// token per character, each a `Whitespace` token of that character with a
/// span of exactly one character.
pub proof fn lemma_whitespace_scan_from(s: Seq<char>, i: int)
    requires
        0 <= i <= s.len(),
        forall|j: int| 0 <= j < s.len() ==> is_whitespace_char(s[j]),
    ensures
        spec_tokenize_from(s, i).len() == s.len() - i,
        forall|j: int|
            0 <= j < s.len() - i ==> #[trigger] spec_tokenize_from(s, i)[j]
                == (SpecPreprocessorToken {
                kind: SpecPreprocessorTokenKind::Whitespace(s[i + j]),
                start: i + j,
                end: i + j + 1,
            }),
    decreases s.len() - i,
{
    if i < s.len() {
        lemma_whitespace_scan_from(s, i + 1);
        let ts = spec_tokenize_from(s, i);
        assert forall|j: int| 0 <= j < s.len() - i implies #[trigger] ts[j]
            == (SpecPreprocessorToken {
            kind: SpecPreprocessorTokenKind::Whitespace(s[i + j]),
            start: i + j,
            end: i + j + 1,
        }) by {
            if j > 0 {
                assert(ts[j] == spec_tokenize_from(s, i + 1)[j - 1]);
            }
        }
    }
}

/// Every preprocessing-token in a whitespace-kind-only sequence is dropped
/// by the narrowing conversion.
pub proof fn lemma_narrow_all_whitespace(ts: Seq<SpecPreprocessorToken>)
    requires
        forall|j: int| 0 <= j < ts.len() ==> (#[trigger] ts[j].kind) is Whitespace,
    ensures
        spec_narrow_all(ts) == Seq::<SpecTranslationToken>::empty(),
    decreases ts.len(),
{
    if ts.len() > 0 {
        lemma_narrow_all_whitespace(ts.subrange(1, ts.len() as int));
    }
}

/// For input consisting solely of whitespace characters, the emitted
/// preprocessing-token sequence has one `Whitespace(c)` token per character,
/// each with `end - start == 1`, and converting to translation tokens yields
/// the empty sequence.
pub proof fn lemma_whitespace_only(s: Seq<char>)
    requires
        forall|j: int| 0 <= j < s.len() ==> is_whitespace_char(s[j]),
    ensures
        spec_tokenize(s).len() == s.len(),
        forall|j: int|
            0 <= j < s.len() ==> #[trigger] spec_tokenize(s)[j] == (SpecPreprocessorToken {
                kind: SpecPreprocessorTokenKind::Whitespace(s[j]),
                start: j,
                end: j + 1,
            }),
        spec_narrow_all(spec_tokenize(s)) == Seq::<SpecTranslationToken>::empty(),
{
    lemma_whitespace_scan_from(s, 0);
    let ts = spec_tokenize(s);
    assert forall|j: int| 0 <= j < ts.len() implies (#[trigger] ts[j].kind) is Whitespace by {
        assert(ts[j] == (SpecPreprocessorToken {
            kind: SpecPreprocessorTokenKind::Whitespace(s[j]),
            start: j,
            end: j + 1,
        }));
    }
    lemma_narrow_all_whitespace(ts);
}

/// At any identifier-start character, the scanner produces exactly one
/// identifier token spanning the whole maximal alphanumeric/underscore run,
/// whose text is exactly the spanned slice of the source.
pub proof fn lemma_identifier_token_maximal(s: Seq<char>, i: int)
    requires
        0 <= i < s.len(),
        is_identifier_start(s[i]),
    ensures
        ({
            let t = spec_token_at(s, i);
            let e = identifier_end(s, i);
            &&& t == (SpecPreprocessorToken {
                kind: SpecPreprocessorTokenKind::Identifier(s.subrange(i, e)),
                start: i,
                end: e,
            })
            &&& i < e <= s.len()
            &&& forall|j: int| i <= j < e ==> is_identifier_continue(s[j])
            &&& e == s.len() || !is_identifier_continue(s[e])
        }),
{
    lemma_identifier_end_maximal(s, i);
    lemma_identifier_end_bounds(s, i + 1);
    assert(identifier_end(s, i) == identifier_end(s, i + 1));
}

/// A token started strictly before the start of a maximal identifier run
/// never consumes into the run: whitespace and unrecognized characters span
/// one character, punctuator spellings hold no identifier character, and an
/// identifier token ends where its own maximal run ends.
#[verifier::rlimit(100)]
#[verifier::spinoff_prover]
proof fn lemma_token_stops_before_run(s: Seq<char>, a: int, i: int)
    requires
        0 <= i < a < s.len(),
        is_identifier_start(s[a]),
        !is_identifier_continue(s[a - 1]),
    ensures
        spec_token_at(s, i).end <= a,
{
    let t = spec_token_at(s, i);
    if is_identifier_start(s[i]) {
        lemma_identifier_end_maximal(s, i);
        if t.end > a {
            assert(is_identifier_continue(s[a - 1]));
        }
    } else {
        if t.end > a {
            assert(a == i + 1 || a == i + 2);
            assert(!is_identifier_start(s[a]));
        }
    }
}

/// Scanning from any position at or before the start of a maximal
/// identifier run produces a token that starts exactly at the run's start.
proof fn lemma_scan_reaches_run(s: Seq<char>, a: int, i: int)
    requires
        0 <= i <= a < s.len(),
        is_identifier_start(s[a]),
        a == 0 || !is_identifier_continue(s[a - 1]),
    ensures
        exists|k: int|
            0 <= k < spec_tokenize_from(s, i).len() && (#[trigger] spec_tokenize_from(s, i)[k]).start
                == a,
    decreases a - i,
{
    let ts = spec_tokenize_from(s, i);
    lemma_token_at_in_bounds(s, i);
    if i == a {
        assert(ts[0].start == a);
    } else {
        lemma_token_stops_before_run(s, a, i);
        let e = spec_token_at(s, i).end;
        lemma_scan_reaches_run(s, a, e);
        let rest = spec_tokenize_from(s, e);
        let k = choose|k: int| 0 <= k < rest.len() && (#[trigger] rest[k]).start == a;
        assert(ts[k + 1] == rest[k]);
        assert(ts[k + 1].start == a);
    }
}

/// For every maximal alphanumeric/underscore run not starting with a digit,
/// the scanner emits an identifier token spanning exactly the whole run,
/// whose text is exactly that slice of the source; and it emits no other
/// token at the run's start.
#[verifier::rlimit(100)]
#[verifier::spinoff_prover]
pub proof fn lemma_identifier_run(s: Seq<char>, a: int, b: int)
    requires
        0 <= a < b <= s.len(),
        is_identifier_start(s[a]),
        forall|j: int| a <= j < b ==> is_identifier_continue(s[j]),
        b == s.len() || !is_identifier_continue(s[b]),
        a == 0 || !is_identifier_continue(s[a - 1]),
    ensures
        exists|k: int|
            0 <= k < spec_tokenize(s).len() && #[trigger] spec_tokenize(s)[k]
                == (SpecPreprocessorToken {
                kind: SpecPreprocessorTokenKind::Identifier(s.subrange(a, b)),
                start: a,
                end: b,
            }),
        forall|k: int|
            0 <= k < spec_tokenize(s).len() && (#[trigger] spec_tokenize(s)[k]).start == a
                ==> spec_tokenize(s)[k] == (SpecPreprocessorToken {
                kind: SpecPreprocessorTokenKind::Identifier(s.subrange(a, b)),
                start: a,
                end: b,
            }),
{
    lemma_identifier_token_maximal(s, a);
    let e = identifier_end(s, a);
    if e < b {
        assert(is_identifier_continue(s[e]));
        assert(false);
    }
    if e > b {
        assert(is_identifier_continue(s[b]));
        assert(false);
    }
    lemma_scan_reaches_run(s, a, 0);
    lemma_tokens_contiguous(s, 0);
    let ts = spec_tokenize(s);
    let k = choose|k: int| 0 <= k < ts.len() && (#[trigger] ts[k]).start == a;
    assert(ts[k] == spec_token_at(s, a));
}

/// Backtracking correctness around the ellipsis rule: a full stop followed
/// by a single full stop and then a character other than a full stop yields
/// one `FullStop` token, then the second full stop re-scanned as its own
/// `FullStop` token (not silently swallowed), and scanning continues with
/// the character after the pair.
pub proof fn lemma_full_stop_backtracking(s: Seq<char>, i: int)
    requires
        0 <= i,
        i + 2 < s.len(),
        s[i] == '.',
        s[i + 1] == '.',
        s[i + 2] != '.',
    ensures
        spec_token_at(s, i) == (SpecPreprocessorToken {
            kind: SpecPreprocessorTokenKind::Punctuator(Punctuator::FullStop),
            start: i,
            end: i + 1,
        }),
        spec_token_at(s, i + 1) == (SpecPreprocessorToken {
            kind: SpecPreprocessorTokenKind::Punctuator(Punctuator::FullStop),
            start: i + 1,
            end: i + 2,
        }),
        spec_tokenize_from(s, i) == seq![
            spec_token_at(s, i),
            spec_token_at(s, i + 1),
        ] + spec_tokenize_from(s, i + 2),
{
    assert(spec_tokenize_from(s, i) == seq![spec_token_at(s, i)] + spec_tokenize_from(s, i + 1));
    assert(spec_tokenize_from(s, i + 1) == seq![spec_token_at(s, i + 1)] + spec_tokenize_from(
        s,
        i + 2,
    ));
    assert(spec_tokenize_from(s, i) =~= seq![spec_token_at(s, i), spec_token_at(s, i + 1)]
        + spec_tokenize_from(s, i + 2));
}

/// Every punctuator token the scanner emits is exact: the consumed span
/// spells precisely the emitted tag.
#[verifier::rlimit(100)]
#[verifier::spinoff_prover]
pub proof fn lemma_punctuator_token_exact(s: Seq<char>, i: int)
    requires
        0 <= i < s.len(),
    ensures
        ({
            let t = spec_token_at(s, i);
            &&& t.start == i
            &&& (t.kind matches SpecPreprocessorTokenKind::Punctuator(q) ==> s.subrange(i, t.end)
                == punctuator_spelling(q))
        }),
{
    assert(s.subrange(i, i + 1) =~= seq![s[i]]);
    if i + 2 <= s.len() {
        assert(s.subrange(i, i + 2) =~= seq![s[i], s[i + 1]]);
    }
    if i + 3 <= s.len() {
        assert(s.subrange(i, i + 3) =~= seq![s[i], s[i + 1], s[i + 2]]);
    }
}

/// Longest-match invariant over the punctuator catalog: wherever the
/// spelling of a punctuator occurs in the text, the scanner emits a
/// punctuator tag there whose own spelling is exactly the consumed span and
/// is at least as long as the occurring spelling — scanning the longest
/// valid member never produces a prefix member instead. The comma is
/// excluded: the dispatch engine has no rule for it yet, so a comma scans as
/// an unrecognized character.
#[verifier::rlimit(100)]
#[verifier::spinoff_prover]
pub proof fn lemma_punctuator_longest_match(s: Seq<char>, i: int, p: Punctuator)
    requires
        0 <= i,
        i + punctuator_spelling(p).len() <= s.len(),
        s.subrange(i, i + punctuator_spelling(p).len() as int) == punctuator_spelling(p),
        p != Punctuator::Comma,
    ensures
        ({
            let t = spec_token_at(s, i);
            &&& t.start == i
            &&& t.kind matches SpecPreprocessorTokenKind::Punctuator(q)
                && s.subrange(i, t.end) == punctuator_spelling(q)
                && punctuator_spelling(p).len() <= t.end - i
        }),
{
    let n = punctuator_spelling(p).len() as int;
    assert(s.subrange(i, i + n)[0] == s[i]);
    if n >= 2 {
        assert(s.subrange(i, i + n)[1] == s[i + 1]);
    }
    if n >= 3 {
        assert(s.subrange(i, i + n)[2] == s[i + 2]);
    }
    lemma_punctuator_token_exact(s, i);
    let t = spec_token_at(s, i);
    match p {
        Punctuator::LeftSquareBracket => assert(t.kind is Punctuator && t.end - i >= 1),
        Punctuator::RightSquareBracket => assert(t.kind is Punctuator && t.end - i >= 1),
        Punctuator::LeftParenthesis => assert(t.kind is Punctuator && t.end - i >= 1),
        Punctuator::RightParenthesis => assert(t.kind is Punctuator && t.end - i >= 1),
        Punctuator::LeftCurlyBracket => assert(t.kind is Punctuator && t.end - i >= 1),
        Punctuator::RightCurlyBracket => assert(t.kind is Punctuator && t.end - i >= 1),
        Punctuator::FullStop => assert(t.kind is Punctuator && t.end - i >= 1),
        Punctuator::PointerMemberAccessOperator => assert(t.kind is Punctuator && t.end - i >= 2),
        Punctuator::IncrementOperator => assert(t.kind is Punctuator && t.end - i >= 2),
        Punctuator::DecrementOperator => assert(t.kind is Punctuator && t.end - i >= 2),
        Punctuator::ReferenceOperatorOrBitwiseAnd => assert(t.kind is Punctuator && t.end - i
            >= 1),
        Punctuator::Asterisk => assert(t.kind is Punctuator && t.end - i >= 1),
        Punctuator::PlusSign => assert(t.kind is Punctuator && t.end - i >= 1),
        Punctuator::Minus => assert(t.kind is Punctuator && t.end - i >= 1),
        Punctuator::Tilde => assert(t.kind is Punctuator && t.end - i >= 1),
        Punctuator::ExclamationMark => assert(t.kind is Punctuator && t.end - i >= 1),
        Punctuator::Solidus => assert(t.kind is Punctuator && t.end - i >= 1),
        Punctuator::Percentage => assert(t.kind is Punctuator && t.end - i >= 1),
        Punctuator::LeftBitShift => assert(t.kind is Punctuator && t.end - i >= 2),
        Punctuator::RightBitShift => assert(t.kind is Punctuator && t.end - i >= 2),
        Punctuator::LessThan => assert(t.kind is Punctuator && t.end - i >= 1),
        Punctuator::GreaterThan => assert(t.kind is Punctuator && t.end - i >= 1),
        Punctuator::LessThanOrEqualTo => assert(t.kind is Punctuator && t.end - i >= 2),
        Punctuator::GreaterThanOrEqualTo => assert(t.kind is Punctuator && t.end - i >= 2),
        Punctuator::EqualTo => assert(t.kind is Punctuator && t.end - i >= 2),
        Punctuator::NotEqualTo => assert(t.kind is Punctuator && t.end - i >= 2),
        Punctuator::BitwiseXor => assert(t.kind is Punctuator && t.end - i >= 1),
        Punctuator::BitwiseOr => assert(t.kind is Punctuator && t.end - i >= 1),
        Punctuator::LogicalAnd => assert(t.kind is Punctuator && t.end - i >= 2),
        Punctuator::LogicalOr => assert(t.kind is Punctuator && t.end - i >= 2),
        Punctuator::QuestionMark => assert(t.kind is Punctuator && t.end - i >= 1),
        Punctuator::Colon => assert(t.kind is Punctuator && t.end - i >= 1),
        Punctuator::DoubleColon => assert(t.kind is Punctuator && t.end - i >= 2),
        Punctuator::Semicolon => assert(t.kind is Punctuator && t.end - i >= 1),
        Punctuator::Ellipsis => assert(t.kind is Punctuator && t.end - i >= 3),
        Punctuator::EqualsSign => assert(t.kind is Punctuator && t.end - i >= 1),
        Punctuator::MultiplyAssign => assert(t.kind is Punctuator && t.end - i >= 2),
        Punctuator::DivideAssign => assert(t.kind is Punctuator && t.end - i >= 2),
        Punctuator::ModuloAssign => assert(t.kind is Punctuator && t.end - i >= 2),
        Punctuator::AddAssign => assert(t.kind is Punctuator && t.end - i >= 2),
        Punctuator::SubtractAssign => assert(t.kind is Punctuator && t.end - i >= 2),
        Punctuator::LeftBitShiftAssign => assert(t.kind is Punctuator && t.end - i >= 3),
        Punctuator::RightBitShiftAssign => assert(t.kind is Punctuator && t.end - i >= 3),
        Punctuator::BitwiseAndAssign => assert(t.kind is Punctuator && t.end - i >= 2),
        Punctuator::BitwiseXorAssign => assert(t.kind is Punctuator && t.end - i >= 2),
        Punctuator::BitwiseOrAssign => assert(t.kind is Punctuator && t.end - i >= 2),
        Punctuator::Comma => {},
        Punctuator::Pound => assert(t.kind is Punctuator && t.end - i >= 1),
        Punctuator::DoublePound => assert(t.kind is Punctuator && t.end - i >= 2),
    }
}

/// Scanning is deterministic: the token sequence is a function of the source
/// text alone, with no hidden mutable state, so re-tokenizing the same
/// buffer yields the identical sequence.
pub proof fn lemma_tokenize_deterministic(
    s: Seq<char>,
    first: Seq<SpecPreprocessorToken>,
    second: Seq<SpecPreprocessorToken>,
)
    requires
        first == spec_tokenize(s),
        second == spec_tokenize(s),
    ensures
        first == second,
{
}

} // verus!
