//! A text editor that appends characters to its text.
use vstd::prelude::*;

verus! {

/// An editor holding a text.
pub struct TextEditor {
    text: String,
}

impl View for TextEditor {
    type V = Seq<char>;

    closed spec fn view(&self) -> Seq<char> {
        self.text@
    }
}

impl TextEditor {
    /// An editor with an empty text.
    pub fn new() -> (r: TextEditor)
        ensures
            r@ == Seq::<char>::empty(),
    {
        TextEditor { text: String::new() }
    }

    /// Appends `ch` to the text.
    pub fn add_char(&mut self, ch: char)
        ensures
            final(self)@ == old(self)@.push(ch),
    {
        self.text.push(ch);
    }

    /// The text.
    pub fn get_text(&self) -> (r: &String)
        ensures
            r@ == self@,
    {
        &self.text
    }

    /// Empties the text.
    pub fn reset(&mut self)
        ensures
            final(self)@ == Seq::<char>::empty(),
    {
        self.text = String::new();
    }
}

/// Law: the text after adding characters to an editor, in order, is its earlier
/// text followed by those characters.
pub proof fn law_added_chars_follow(before: Seq<char>, added: Seq<char>, after: Seq<char>)
    requires
        after == added.fold_left(before, |t: Seq<char>, c: char| t.push(c)),
    ensures
        after == before + added,
    decreases added.len(),
{
    if added.len() == 0 {
        assert(before + added == before);
    } else {
        let last = added.last();
        let rest = added.drop_last();
        let mid = rest.fold_left(before, |t: Seq<char>, c: char| t.push(c));
        law_added_chars_follow(before, rest, mid);
        assert(after == mid.push(last));
        assert(before + added == (before + rest).push(last));
    }
}

} // verus!
