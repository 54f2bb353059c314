//! The editor behind every input field: a `tui_textarea::TextArea`, and the
//! key events it takes.
//!
//! Nothing in this file is proved. Each contract below restates what the
//! source of `tui_textarea` shows of the function named above it.

use tui_textarea::{Input, Key, TextArea};
use vstd::prelude::*;

verus! {

/// `tui_textarea::Input`: a key and the modifiers held with it. All four
/// fields are public, so the type is declared with them and Verus reads
/// them from the crate itself.
#[verifier::external_type_specification]
pub struct ExInput(Input);

/// `tui_textarea::Key`, declared with its variants for the same reason.
#[verifier::external_type_specification]
pub struct ExKey(Key);

/// Holds one `tui_textarea::TextArea`. Verus rejects a declaration of that
/// type itself, so it is kept behind this struct, which is opaque to the
/// verifier; [`buffer_lines`], [`buffer_cursor`] and [`buffer_selecting`]
/// name what it holds.
#[derive(Debug)]
#[verifier::external_body]
pub struct TextBuffer {
    area: TextArea<'static>,
}

/// The lines of text in the buffer, top to bottom: what `TextArea::lines`
/// returns.
pub uninterp spec fn buffer_lines(buffer: TextBuffer) -> Seq<Seq<char>>;

/// The cursor as (row, column), both counted from zero and in characters:
/// what `TextArea::cursor` returns.
pub uninterp spec fn buffer_cursor(buffer: TextBuffer) -> (nat, nat);

/// Whether a selection is going on: what `TextArea::is_selecting` returns.
pub uninterp spec fn buffer_selecting(buffer: TextBuffer) -> bool;

/// Whether the cursor stands on one of the lines, at most at its end.
pub open spec fn cursor_in_text(lines: Seq<Seq<char>>, cursor: (nat, nat)) -> bool {
    cursor.0 < lines.len() && cursor.1 <= lines[cursor.0 as int].len()
}

/// The lines with `text`, which holds no line break, put in at the cursor.
pub open spec fn insert_at_cursor(
    lines: Seq<Seq<char>>,
    cursor: (nat, nat),
    text: Seq<char>,
) -> Seq<Seq<char>> {
    let line = lines[cursor.0 as int];
    lines.update(
        cursor.0 as int,
        line.subrange(0, cursor.1 as int) + text + line.subrange(
            cursor.1 as int,
            line.len() as int,
        ),
    )
}

/// The character that a key types, if it types one: a character key other
/// than a line break, pressed without Ctrl and Alt.
pub open spec fn typed_char(input: Input) -> Option<char> {
    match input.key {
        Key::Char(c) => if !input.ctrl && !input.alt && c != '\n' && c != '\r' {
            Some(c)
        } else {
            None
        },
        _ => None,
    }
}

impl TextBuffer {
    /// `TextArea::new` on a single line. It stores the lines it is given
    /// unchanged, puts the cursor at the start of the first and selects
    /// nothing.
    #[verifier::external_body]
    pub(crate) fn new(value: String) -> (buffer: TextBuffer)
        ensures
            buffer_lines(buffer) == seq![value@],
            buffer_cursor(buffer) == (0nat, 0nat),
            !buffer_selecting(buffer),
    {
        TextBuffer { area: TextArea::new(vec![value]) }
    }

    /// `TextArea::lines`, copied out of the buffer.
    #[verifier::external_body]
    pub(crate) fn lines(&self) -> (lines: Vec<String>)
        ensures
            lines@.len() == buffer_lines(*self).len(),
            forall|i: int| 0 <= i < lines@.len() ==> (#[trigger] lines@[i])@ == buffer_lines(*self)[i],
    {
        self.area.lines().to_vec()
    }

    /// `TextArea::cursor`.
    #[verifier::external_body]
    pub(crate) fn cursor(&self) -> (position: (usize, usize))
        ensures
            position.0 == buffer_cursor(*self).0,
            position.1 == buffer_cursor(*self).1,
    {
        self.area.cursor()
    }

    /// `TextArea::input`: lets the editor handle one key with its default
    /// key bindings. A key that types a character goes to
    /// `TextArea::insert_char`, which, with nothing selected, puts the
    /// character in at the cursor and moves the cursor one column on. Of
    /// every other key, and of a key pressed during a selection, nothing
    /// is claimed: what they do depends on the editor's selection, history
    /// and yank buffer.
    #[verifier::external_body]
    pub(crate) fn input(&mut self, input: Input) -> (modified: bool)
        ensures
            typed_char(input) matches Some(c) ==> (!buffer_selecting(*old(self)) && cursor_in_text(
                buffer_lines(*old(self)),
                buffer_cursor(*old(self)),
            ) ==> {
                &&& modified
                &&& buffer_lines(*final(self)) == insert_at_cursor(
                    buffer_lines(*old(self)),
                    buffer_cursor(*old(self)),
                    seq![c],
                )
                &&& buffer_cursor(*final(self)) == (
                    buffer_cursor(*old(self)).0,
                    buffer_cursor(*old(self)).1 + 1,
                )
                &&& !buffer_selecting(*final(self))
            }),
    {
        self.area.input(input)
    }

    /// `TextArea::insert_str`. With nothing selected, a text without a line
    /// feed and without a carriage return at its end is put in at the
    /// cursor as it is, and the cursor moves on by its length; the result
    /// says whether the text was not empty. Of other texts, and of a call
    /// during a selection, nothing is claimed.
    #[verifier::external_body]
    pub(crate) fn insert_str(&mut self, text: &str) -> (modified: bool)
        ensures
            !text@.contains('\n') && (text@.len() == 0 || text@.last() != '\r')
                && !buffer_selecting(*old(self)) && cursor_in_text(
                buffer_lines(*old(self)),
                buffer_cursor(*old(self)),
            ) ==> {
                &&& modified == (text@.len() > 0)
                &&& buffer_lines(*final(self)) == insert_at_cursor(
                    buffer_lines(*old(self)),
                    buffer_cursor(*old(self)),
                    text@,
                )
                &&& buffer_cursor(*final(self)) == (
                    buffer_cursor(*old(self)).0,
                    buffer_cursor(*old(self)).1 + text@.len(),
                )
                &&& !buffer_selecting(*final(self))
            },
    {
        self.area.insert_str(text)
    }
}

} // verus!
