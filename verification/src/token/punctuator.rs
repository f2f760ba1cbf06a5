use vstd::prelude::*;

verus! {

/// The closed set of punctuator kinds: the alphabet the dispatch engine tags
/// spans with. Identity only, no behaviour.
#[derive(Copy, Clone, Debug, PartialEq, Eq, Structural)]
pub enum Punctuator {
    LeftSquareBracket,
    RightSquareBracket,

    LeftParenthesis,
    RightParenthesis,

    LeftCurlyBracket,
    RightCurlyBracket,

    FullStop,
    PointerMemberAccessOperator,

    IncrementOperator,
    DecrementOperator,

    ReferenceOperatorOrBitwiseAnd,

    Asterisk,
    PlusSign,
    Minus,
    Tilde,
    ExclamationMark,
    Solidus,
    Percentage,

    LeftBitShift,
    RightBitShift,

    LessThan,
    GreaterThan,
    LessThanOrEqualTo,
    GreaterThanOrEqualTo,
    EqualTo,
    NotEqualTo,

    BitwiseXor,
    BitwiseOr,

    LogicalAnd,
    LogicalOr,

    QuestionMark,
    Colon,
    DoubleColon,
    Semicolon,
    Ellipsis,

    EqualsSign,

    MultiplyAssign,
    DivideAssign,
    ModuloAssign,
    AddAssign,
    SubtractAssign,
    LeftBitShiftAssign,
    RightBitShiftAssign,
    BitwiseAndAssign,
    BitwiseXorAssign,
    BitwiseOrAssign,

    Comma,
    Pound,
    DoublePound,
}

/// The exact source spelling of each punctuator.
pub open spec fn punctuator_spelling(p: Punctuator) -> Seq<char> {
    match p {
        Punctuator::LeftSquareBracket => seq!['['],
        Punctuator::RightSquareBracket => seq![']'],
        Punctuator::LeftParenthesis => seq!['('],
        Punctuator::RightParenthesis => seq![')'],
        Punctuator::LeftCurlyBracket => seq!['{'],
        Punctuator::RightCurlyBracket => seq!['}'],
        Punctuator::FullStop => seq!['.'],
        Punctuator::PointerMemberAccessOperator => seq!['-', '>'],
        Punctuator::IncrementOperator => seq!['+', '+'],
        Punctuator::DecrementOperator => seq!['-', '-'],
        Punctuator::ReferenceOperatorOrBitwiseAnd => seq!['&'],
        Punctuator::Asterisk => seq!['*'],
        Punctuator::PlusSign => seq!['+'],
        Punctuator::Minus => seq!['-'],
        Punctuator::Tilde => seq!['~'],
        Punctuator::ExclamationMark => seq!['!'],
        Punctuator::Solidus => seq!['/'],
        Punctuator::Percentage => seq!['%'],
        Punctuator::LeftBitShift => seq!['<', '<'],
        Punctuator::RightBitShift => seq!['>', '>'],
        Punctuator::LessThan => seq!['<'],
        Punctuator::GreaterThan => seq!['>'],
        Punctuator::LessThanOrEqualTo => seq!['<', '='],
        Punctuator::GreaterThanOrEqualTo => seq!['>', '='],
        Punctuator::EqualTo => seq!['=', '='],
        Punctuator::NotEqualTo => seq!['!', '='],
        Punctuator::BitwiseXor => seq!['^'],
        Punctuator::BitwiseOr => seq!['|'],
        Punctuator::LogicalAnd => seq!['&', '&'],
        Punctuator::LogicalOr => seq!['|', '|'],
        Punctuator::QuestionMark => seq!['?'],
        Punctuator::Colon => seq![':'],
        Punctuator::DoubleColon => seq![':', ':'],
        Punctuator::Semicolon => seq![';'],
        Punctuator::Ellipsis => seq!['.', '.', '.'],
        Punctuator::EqualsSign => seq!['='],
        Punctuator::MultiplyAssign => seq!['*', '='],
        Punctuator::DivideAssign => seq!['/', '='],
        Punctuator::ModuloAssign => seq!['%', '='],
        Punctuator::AddAssign => seq!['+', '='],
        Punctuator::SubtractAssign => seq!['-', '='],
        Punctuator::LeftBitShiftAssign => seq!['<', '<', '='],
        Punctuator::RightBitShiftAssign => seq!['>', '>', '='],
        Punctuator::BitwiseAndAssign => seq!['&', '='],
        Punctuator::BitwiseXorAssign => seq!['^', '='],
        Punctuator::BitwiseOrAssign => seq!['|', '='],
        Punctuator::Comma => seq![','],
        Punctuator::Pound => seq!['#'],
        Punctuator::DoublePound => seq!['#', '#'],
    }
}

} // verus!
