//! A tokenizer for C source text, following the two-stage structure of the
//! ISO C lexical grammar: a low-level preprocessing-token stream (whitespace,
//! identifiers, punctuators, raw literals) produced by a maximal-munch
//! dispatch engine, and a narrowing conversion into the smaller set of
//! translation tokens consumable by a parser.

pub mod lexer;
pub mod token;

pub use lexer::Lexer;
pub use lexer::source_code::SourceCode;
pub use lexer::tokenize;
pub use token::Token;
pub use token::narrow;
pub use token::TokenKind;
pub use token::keyword::IdentifierIsNotAKeyword;
pub use token::keyword::Keyword;
pub use token::preprocessor::PreprocessorToken;
pub use token::preprocessor::PreprocessorTokenKind;
pub use token::preprocessor::PreprocessorTokenNotMappedToTokenError;
pub use token::punctuator::Punctuator;
