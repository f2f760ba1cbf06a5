use vstd::prelude::*;

verus! {

/// Helps orchestrate the intake of characters by the
/// [`Lexer`](crate::lexer::Lexer), whilst providing a peekable interface.
///
/// Positions are offsets in characters into the source text; `index` always
/// yields the offset of the next character to be consumed. The cursor is a
/// cheap copy (a reference plus a position), so a dispatch rule can take a
/// snapshot, attempt a tentative multi-character match, and discard the
/// attempt by reverting to the snapshot.
#[derive(Clone, Copy, Debug)]
pub struct SourceCode<'a> {
    text: &'a str,
    pos: usize,
    len: usize,
}

impl<'a> SourceCode<'a> {
    /// The full source text as a sequence of characters.
    pub closed spec fn text_view(self) -> Seq<char> {
        self.text@
    }

    /// The offset (in characters) of the next character to be consumed.
    pub closed spec fn position(self) -> int {
        self.pos as int
    }

    /// Well-formedness: the position never exceeds the length of the text.
    pub closed spec fn wf(self) -> bool {
        self.pos <= self.len && self.len == self.text@.len()
    }

    /// A well-formed cursor's position lies within the text.
    pub proof fn lemma_position_in_bounds(self)
        requires
            self.wf(),
        ensures
            0 <= self.position() <= self.text_view().len(),
    {
    }

    /// Creates a cursor positioned at the start of the given text.
    pub fn new(text: &'a str) -> (r: Self)
        ensures
            r.wf(),
            r.text_view() == text@,
            r.position() == 0,
    {
        let len = text.unicode_len();
        SourceCode { text, pos: 0, len }
    }

    /// The offset of the next character to be consumed (`0` both before any
    /// character has been consumed and on empty input).
    pub fn index(&self) -> (r: usize)
        ensures
            r == self.position(),
    {
        self.pos
    }

    /// The full source text, for slicing token spans by start/end offsets.
    pub fn as_str(&self) -> (r: &'a str)
        ensures
            r@ == self.text_view(),
    {
        self.text
    }

    /// The next unconsumed character, without advancing; `None` once the
    /// cursor is exhausted.
    pub fn peek(&self) -> (r: Option<char>)
        requires
            self.wf(),
        ensures
            self.position() < self.text_view().len() ==> r == Some(
                self.text_view()[self.position()],
            ),
            self.position() >= self.text_view().len() ==> r is None,
    {
        if self.pos < self.len {
            Some(self.text.get_char(self.pos))
        } else {
            None
        }
    }

    /// Consumes and returns the next character; `None` once the cursor is
    /// exhausted. Total: no bounds errors on an exhausted cursor.
    pub fn next(&mut self) -> (r: Option<char>)
        requires
            old(self).wf(),
        ensures
            final(self).wf(),
            final(self).text_view() == old(self).text_view(),
            old(self).position() < old(self).text_view().len() ==> ({
                &&& r == Some(old(self).text_view()[old(self).position()])
                &&& final(self).position() == old(self).position() + 1
            }),
            old(self).position() >= old(self).text_view().len() ==> ({
                &&& r is None
                &&& final(self).position() == old(self).position()
            }),
    {
        if self.pos < self.len {
            let c = self.text.get_char(self.pos);
            self.pos = self.pos + 1;
            Some(c)
        } else {
            None
        }
    }
}

} // verus!
