use vstd::prelude::*;

verus! {

/// A reserved word of the language. Recognized by exact, case-sensitive,
/// whole-token comparison against an identifier's text.
#[derive(Copy, Clone, Debug, PartialEq, Eq, Structural)]
pub enum Keyword {
    Bool,
    Char,
    Int,
    Void,
}

/// A keyword lookup miss: the identifier is not a reserved word. This is a
/// normal, expected outcome, signalling "treat as plain identifier".
#[derive(Copy, Clone, Debug, PartialEq, Eq, PartialOrd, Ord, Structural)]
pub struct IdentifierIsNotAKeyword;

/// The exact spelling of each reserved word.
pub open spec fn keyword_spelling(k: Keyword) -> Seq<char> {
    match k {
        Keyword::Bool => seq!['b', 'o', 'o', 'l'],
        Keyword::Char => seq!['c', 'h', 'a', 'r'],
        Keyword::Int => seq!['i', 'n', 't'],
        Keyword::Void => seq!['v', 'o', 'i', 'd'],
    }
}

/// What keyword recognition returns for a given text: the unique keyword it
/// spells, or a lookup miss.
pub open spec fn spec_keyword_from(s: Seq<char>) -> Result<Keyword, IdentifierIsNotAKeyword> {
    if s == keyword_spelling(Keyword::Bool) {
        Ok(Keyword::Bool)
    } else if s == keyword_spelling(Keyword::Char) {
        Ok(Keyword::Char)
    } else if s == keyword_spelling(Keyword::Int) {
        Ok(Keyword::Int)
    } else if s == keyword_spelling(Keyword::Void) {
        Ok(Keyword::Void)
    } else {
        Err(IdentifierIsNotAKeyword)
    }
}

/// Character-by-character string equality.
fn str_eq(a: &str, b: &str) -> (r: bool)
    ensures
        r == (a@ == b@),
{
    let a_len = a.unicode_len();
    let b_len = b.unicode_len();
    if a_len != b_len {
        return false;
    }
    let mut i: usize = 0;
    while i < a_len
        invariant
            a@.len() == a_len,
            b@.len() == b_len,
            a_len == b_len,
            0 <= i <= a_len,
            forall|j: int| 0 <= j < i ==> a@[j] == b@[j],
        decreases a_len - i,
    {
        if a.get_char(i) != b.get_char(i) {
            return false;
        }
        i = i + 1;
    }
    proof {
        assert(a@ =~= b@);
    }
    true
}

impl Keyword {
    /// Maps an identifier's text to the keyword it spells, if any.
    pub fn from_str(s: &str) -> (r: Result<Keyword, IdentifierIsNotAKeyword>)
        ensures
            r == spec_keyword_from(s@),
    {
        proof {
            reveal_strlit("bool");
            reveal_strlit("char");
            reveal_strlit("int");
            reveal_strlit("void");
            assert(("bool")@ =~= keyword_spelling(Keyword::Bool));
            assert(("char")@ =~= keyword_spelling(Keyword::Char));
            assert(("int")@ =~= keyword_spelling(Keyword::Int));
            assert(("void")@ =~= keyword_spelling(Keyword::Void));
        }
        if str_eq(s, "bool") {
            Ok(Keyword::Bool)
        } else if str_eq(s, "char") {
            Ok(Keyword::Char)
        } else if str_eq(s, "int") {
            Ok(Keyword::Int)
        } else if str_eq(s, "void") {
            Ok(Keyword::Void)
        } else {
            Err(IdentifierIsNotAKeyword)
        }
    }
}

} // verus!
