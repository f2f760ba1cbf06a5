use c_lexer::Lexer;
use c_lexer::PreprocessorTokenKind;
use c_lexer::Punctuator;
use c_lexer::tokenize;

fn kinds(input: &str) -> Vec<PreprocessorTokenKind> {
    tokenize(input).into_iter().map(|token| token.kind).collect()
}

fn spans(input: &str) -> Vec<(PreprocessorTokenKind, usize, usize)> {
    tokenize(input).into_iter().map(|token| (token.kind, token.start, token.end)).collect()
}

#[test]
fn single_space() {
    let mut lexer = Lexer::new(" ");
    let token = lexer.next();
    let token_kind = token.as_ref().map(|token| &token.kind);
    assert_eq!(token_kind, Some(&PreprocessorTokenKind::Whitespace(' ')));
    assert_eq!(lexer.next(), None);
}

#[test]
fn single_carriage_return() {
    let mut lexer = Lexer::new("\r");
    let token = lexer.next();
    let token_kind = token.as_ref().map(|token| &token.kind);
    assert_eq!(token_kind, Some(&PreprocessorTokenKind::Whitespace('\r')));
    assert_eq!(lexer.next(), None);
}

#[test]
fn single_newline() {
    let mut lexer = Lexer::new("\n");
    let token = lexer.next();
    let token_kind = token.as_ref().map(|token| &token.kind);
    assert_eq!(token_kind, Some(&PreprocessorTokenKind::Whitespace('\n')));
    assert_eq!(lexer.next(), None);
}

#[test]
fn single_tab() {
    let mut lexer = Lexer::new("\t");
    let token = lexer.next();
    let token_kind = token.as_ref().map(|token| &token.kind);
    assert_eq!(token_kind, Some(&PreprocessorTokenKind::Whitespace('\t')));
    assert_eq!(lexer.next(), None);
}

#[test]
fn single_identifier_main() {
    let mut lexer = Lexer::new("main");
    let token = lexer.next();
    let token_kind = token.as_ref().map(|token| &token.kind);
    assert_eq!(token_kind, Some(&PreprocessorTokenKind::Identifier("main".into())));
    assert_eq!(lexer.next(), None);
}

#[test]
fn single_logical_and() {
    assert_eq!(
        spans("&&"),
        vec![(PreprocessorTokenKind::Punctuator(Punctuator::LogicalAnd), 0, 2)]
    );
}

#[test]
fn single_left_bit_shift_assign() {
    assert_eq!(
        spans("<<="),
        vec![(PreprocessorTokenKind::Punctuator(Punctuator::LeftBitShiftAssign), 0, 3)]
    );
}

#[test]
fn excerpt_whitespace_run() {
    assert_eq!(
        kinds("    "),
        vec![
            PreprocessorTokenKind::Whitespace(' '),
            PreprocessorTokenKind::Whitespace(' '),
            PreprocessorTokenKind::Whitespace(' '),
            PreprocessorTokenKind::Whitespace(' '),
        ]
    );
}

#[test]
fn excerpt_int_main() {
    assert_eq!(
        kinds("int main"),
        vec![
            PreprocessorTokenKind::Identifier("int".into()),
            PreprocessorTokenKind::Whitespace(' '),
            PreprocessorTokenKind::Identifier("main".into()),
        ]
    );
}

#[test]
fn excerpt_int_main_parentheses() {
    assert_eq!(
        spans("int main()"),
        vec![
            (PreprocessorTokenKind::Identifier("int".into()), 0, 3),
            (PreprocessorTokenKind::Whitespace(' '), 3, 4),
            (PreprocessorTokenKind::Identifier("main".into()), 4, 8),
            (PreprocessorTokenKind::Punctuator(Punctuator::LeftParenthesis), 8, 9),
            (PreprocessorTokenKind::Punctuator(Punctuator::RightParenthesis), 9, 10),
        ]
    );
}

#[test]
fn excerpt_int_main_block() {
    assert_eq!(
        kinds("int main() {\n\n}"),
        vec![
            PreprocessorTokenKind::Identifier("int".into()),
            PreprocessorTokenKind::Whitespace(' '),
            PreprocessorTokenKind::Identifier("main".into()),
            PreprocessorTokenKind::Punctuator(Punctuator::LeftParenthesis),
            PreprocessorTokenKind::Punctuator(Punctuator::RightParenthesis),
            PreprocessorTokenKind::Whitespace(' '),
            PreprocessorTokenKind::Punctuator(Punctuator::LeftCurlyBracket),
            PreprocessorTokenKind::Whitespace('\n'),
            PreprocessorTokenKind::Whitespace('\n'),
            PreprocessorTokenKind::Punctuator(Punctuator::RightCurlyBracket),
        ]
    );
}

#[test]
fn pointer_member_access_spans() {
    assert_eq!(
        spans("a->b"),
        vec![
            (PreprocessorTokenKind::Identifier("a".into()), 0, 1),
            (PreprocessorTokenKind::Punctuator(Punctuator::PointerMemberAccessOperator), 1, 3),
            (PreprocessorTokenKind::Identifier("b".into()), 3, 4),
        ]
    );
}

#[test]
fn decrement_spans() {
    assert_eq!(
        spans("x--"),
        vec![
            (PreprocessorTokenKind::Identifier("x".into()), 0, 1),
            (PreprocessorTokenKind::Punctuator(Punctuator::DecrementOperator), 1, 3),
        ]
    );
}

#[test]
fn empty_input() {
    assert_eq!(tokenize(""), vec![]);
}

#[test]
fn ellipsis() {
    assert_eq!(
        spans("..."),
        vec![(PreprocessorTokenKind::Punctuator(Punctuator::Ellipsis), 0, 3)]
    );
}

#[test]
fn dot_dot_backtracks() {
    assert_eq!(
        spans("..x"),
        vec![
            (PreprocessorTokenKind::Punctuator(Punctuator::FullStop), 0, 1),
            (PreprocessorTokenKind::Punctuator(Punctuator::FullStop), 1, 2),
            (PreprocessorTokenKind::Identifier("x".into()), 2, 3),
        ]
    );
}

#[test]
fn two_char_prefix_keeps_trailing_character() {
    assert_eq!(
        spans("<<x"),
        vec![
            (PreprocessorTokenKind::Punctuator(Punctuator::LeftBitShift), 0, 2),
            (PreprocessorTokenKind::Identifier("x".into()), 2, 3),
        ]
    );
}

#[test]
fn comparison_punctuators() {
    assert_eq!(spans("<"), vec![(PreprocessorTokenKind::Punctuator(Punctuator::LessThan), 0, 1)]);
    assert_eq!(
        spans("<="),
        vec![(PreprocessorTokenKind::Punctuator(Punctuator::LessThanOrEqualTo), 0, 2)]
    );
    assert_eq!(
        spans(">>="),
        vec![(PreprocessorTokenKind::Punctuator(Punctuator::RightBitShiftAssign), 0, 3)]
    );
    assert_eq!(
        spans(">="),
        vec![(PreprocessorTokenKind::Punctuator(Punctuator::GreaterThanOrEqualTo), 0, 2)]
    );
}

#[test]
fn minus_family() {
    assert_eq!(spans("-"), vec![(PreprocessorTokenKind::Punctuator(Punctuator::Minus), 0, 1)]);
    assert_eq!(
        spans("-="),
        vec![(PreprocessorTokenKind::Punctuator(Punctuator::SubtractAssign), 0, 2)]
    );
    assert_eq!(
        spans("->"),
        vec![(PreprocessorTokenKind::Punctuator(Punctuator::PointerMemberAccessOperator), 0, 2)]
    );
}

#[test]
fn doubled_punctuators() {
    assert_eq!(spans("##"), vec![(PreprocessorTokenKind::Punctuator(Punctuator::DoublePound), 0, 2)]);
    assert_eq!(spans("::"), vec![(PreprocessorTokenKind::Punctuator(Punctuator::DoubleColon), 0, 2)]);
    assert_eq!(spans("=="), vec![(PreprocessorTokenKind::Punctuator(Punctuator::EqualTo), 0, 2)]);
    assert_eq!(spans("!="), vec![(PreprocessorTokenKind::Punctuator(Punctuator::NotEqualTo), 0, 2)]);
}

#[test]
fn square_brackets_are_distinct() {
    assert_eq!(
        spans("[]"),
        vec![
            (PreprocessorTokenKind::Punctuator(Punctuator::LeftSquareBracket), 0, 1),
            (PreprocessorTokenKind::Punctuator(Punctuator::RightSquareBracket), 1, 2),
        ]
    );
}

#[test]
fn unknown_character() {
    assert_eq!(
        spans("@"),
        vec![(PreprocessorTokenKind::NonWhiteSpaceCharacter('@'), 0, 1)]
    );
}

#[test]
fn comma_is_not_recognized_yet() {
    assert_eq!(
        spans(","),
        vec![(PreprocessorTokenKind::NonWhiteSpaceCharacter(','), 0, 1)]
    );
}

#[test]
fn retokenizing_yields_identical_sequence() {
    let input = "int main() { return x <<= 2; }";
    let first = tokenize(input);
    let second = tokenize(input);
    assert_eq!(first, second);
}

#[test]
fn identifier_with_digits_spans_whole_run() {
    assert_eq!(
        spans("x1_y2"),
        vec![(PreprocessorTokenKind::Identifier("x1_y2".into()), 0, 5)]
    );
}
