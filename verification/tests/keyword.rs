use c_lexer::IdentifierIsNotAKeyword;
use c_lexer::Keyword;

#[test]
fn keyword_bool() {
    assert_eq!(Keyword::from_str("bool"), Ok(Keyword::Bool));
}

#[test]
fn keyword_char() {
    assert_eq!(Keyword::from_str("char"), Ok(Keyword::Char));
}

#[test]
fn keyword_int() {
    assert_eq!(Keyword::from_str("int"), Ok(Keyword::Int));
}

#[test]
fn keyword_void() {
    assert_eq!(Keyword::from_str("void"), Ok(Keyword::Void));
}

#[test]
fn keyword_lookup_miss() {
    assert_eq!(Keyword::from_str("main"), Err(IdentifierIsNotAKeyword));
    assert_eq!(Keyword::from_str(""), Err(IdentifierIsNotAKeyword));
    assert_eq!(Keyword::from_str("integer"), Err(IdentifierIsNotAKeyword));
    assert_eq!(Keyword::from_str("in"), Err(IdentifierIsNotAKeyword));
}

#[test]
fn keyword_lookup_is_case_sensitive() {
    assert_eq!(Keyword::from_str("Int"), Err(IdentifierIsNotAKeyword));
    assert_eq!(Keyword::from_str("VOID"), Err(IdentifierIsNotAKeyword));
}
