use c_lexer::PreprocessorToken;
use c_lexer::PreprocessorTokenKind;
use c_lexer::PreprocessorTokenNotMappedToTokenError;
use c_lexer::Punctuator;
use c_lexer::Token;
use c_lexer::TokenKind;
use c_lexer::narrow;
use c_lexer::tokenize;

#[test]
fn whitespace_has_no_token_form() {
    assert_eq!(
        TokenKind::try_from(PreprocessorTokenKind::Whitespace(' ')),
        Err(PreprocessorTokenNotMappedToTokenError::NoTokenRepresentation)
    );
}

#[test]
fn header_name_has_no_token_form() {
    assert_eq!(
        TokenKind::try_from(PreprocessorTokenKind::HeaderName),
        Err(PreprocessorTokenNotMappedToTokenError::NoTokenRepresentation)
    );
}

#[test]
fn unsupported_kinds_are_distinguishable() {
    assert_eq!(
        TokenKind::try_from(PreprocessorTokenKind::PpNumber),
        Err(PreprocessorTokenNotMappedToTokenError::NotYetSupported)
    );
    assert_eq!(
        TokenKind::try_from(PreprocessorTokenKind::CharacterConstant),
        Err(PreprocessorTokenNotMappedToTokenError::NotYetSupported)
    );
    assert_eq!(
        TokenKind::try_from(PreprocessorTokenKind::OtherUniversalCharacterName),
        Err(PreprocessorTokenNotMappedToTokenError::NotYetSupported)
    );
    assert_eq!(
        TokenKind::try_from(PreprocessorTokenKind::NonWhiteSpaceCharacter('@')),
        Err(PreprocessorTokenNotMappedToTokenError::NotYetSupported)
    );
}

#[test]
fn identifier_maps_directly() {
    let token = PreprocessorToken {
        kind: PreprocessorTokenKind::Identifier("main".into()),
        start: 4,
        end: 8,
    };
    assert_eq!(
        Token::try_from(token),
        Ok(Token { kind: TokenKind::Identifier("main".into()), start: 4, end: 8 })
    );
}

#[test]
fn string_literal_maps_directly() {
    let token = PreprocessorToken {
        kind: PreprocessorTokenKind::StringLiteral("abc".into()),
        start: 0,
        end: 5,
    };
    assert_eq!(
        Token::try_from(token),
        Ok(Token { kind: TokenKind::StringLiteral("abc".into()), start: 0, end: 5 })
    );
}

#[test]
fn punctuator_maps_directly() {
    let token = PreprocessorToken {
        kind: PreprocessorTokenKind::Punctuator(Punctuator::Semicolon),
        start: 9,
        end: 10,
    };
    assert_eq!(
        Token::try_from(token),
        Ok(Token { kind: TokenKind::Punctuator(Punctuator::Semicolon), start: 9, end: 10 })
    );
}

#[test]
fn whitespace_only_input_narrows_to_nothing() {
    let preprocessor_tokens = tokenize(" \t\r\n");
    assert_eq!(preprocessor_tokens.len(), 4);
    for token in &preprocessor_tokens {
        assert_eq!(token.end - token.start, 1);
    }
    assert_eq!(narrow(preprocessor_tokens), vec![]);
}

#[test]
fn narrowing_discards_whitespace_and_keeps_order() {
    let tokens = narrow(tokenize("int main()"));
    assert_eq!(
        tokens,
        vec![
            Token { kind: TokenKind::Identifier("int".into()), start: 0, end: 3 },
            Token { kind: TokenKind::Identifier("main".into()), start: 4, end: 8 },
            Token { kind: TokenKind::Punctuator(Punctuator::LeftParenthesis), start: 8, end: 9 },
            Token { kind: TokenKind::Punctuator(Punctuator::RightParenthesis), start: 9, end: 10 },
        ]
    );
}
