//! The line in which a message is typed.

use vstd::prelude::*;

verus! {

/// `String::push` appends the character to the end of the string.
pub assume_specification[ String::push ](text: &mut String, c: char)
    ensures
        final(text)@ == old(text)@.push(c),
;

/// `String::pop` removes the last character and returns it, or returns
/// `None` and leaves the string as it is if it is empty.
pub assume_specification[ String::pop ](text: &mut String) -> (r: Option<char>)
    ensures
        old(text)@.len() == 0 ==> r.is_none() && final(text)@ == old(text)@,
        old(text)@.len() > 0 ==> r == Some(old(text)@.last()) && final(text)@ == old(
            text,
        )@.drop_last(),
;

/// The text typed so far and not yet sent.
pub struct InputBuffer {
    text: String,
}

impl View for InputBuffer {
    type V = Seq<char>;

    closed spec fn view(&self) -> Seq<char> {
        self.text@
    }
}

impl InputBuffer {
    /// An empty line.
    pub fn new() -> (r: InputBuffer)
        ensures
            r@ == Seq::<char>::empty(),
    {
        InputBuffer { text: String::new() }
    }

    /// The text typed so far.
    pub fn as_str(&self) -> (r: &str)
        ensures
            r@ == self@,
    {
        self.text.as_str()
    }

    /// Whether nothing has been typed.
    pub fn is_empty(&self) -> (r: bool)
        ensures
            r == (self@.len() == 0),
    {
        self.text.as_str().is_empty()
    }

    /// Adds a character at the end.
    pub fn push(&mut self, c: char)
        ensures
            final(self)@ == old(self)@.push(c),
    {
        self.text.push(c);
    }

    /// Removes the last character, if there is one.
    pub fn pop(&mut self)
        ensures
            final(self)@ == if old(self)@.len() > 0 {
                old(self)@.drop_last()
            } else {
                old(self)@
            },
    {
        let _ = self.text.pop();
    }

    /// Takes the text out and leaves the line empty.
    pub fn drain(&mut self) -> (r: String)
        ensures
            r@ == old(self)@,
            final(self)@ == Seq::<char>::empty(),
    {
        let text = self.text.clone();
        self.text = String::new();
        text
    }
}

} // verus!
