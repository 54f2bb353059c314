//! Input fields: the atomic unit of user input.

use crate::textarea::{
    buffer_cursor, buffer_lines, buffer_selecting, cursor_in_text, insert_at_cursor, typed_char,
    TextBuffer,
};
use tui_textarea::Input;
use vstd::prelude::*;
use vstd::string::StringExecFns;

verus! {

/// What an input field holds. The first four are the metadata of a
/// transaction, the last three the parts of a posting.
#[derive(Debug, Default, PartialEq, Eq, Hash, Clone, Copy, Structural)]
pub enum InputFieldType {
    Date,
    Flag,
    #[default]
    Payee,
    Narration,
    Account,
    Amount,
    Currency,
}

impl InputFieldType {
    /// The label shown on a field of this type. The flag has none.
    pub open spec fn label_spec(self) -> Seq<char> {
        match self {
            InputFieldType::Date => "Date"@,
            InputFieldType::Flag => ""@,
            InputFieldType::Payee => "Payee"@,
            InputFieldType::Narration => "Narration"@,
            InputFieldType::Account => "Account"@,
            InputFieldType::Amount => "Amount"@,
            InputFieldType::Currency => "Currency"@,
        }
    }

    /// The label shown on a field of this type.
    pub fn label(&self) -> (label: &'static str)
        ensures
            label@ == self.label_spec(),
    {
        match self {
            InputFieldType::Date => "Date",
            InputFieldType::Flag => "",
            InputFieldType::Payee => "Payee",
            InputFieldType::Narration => "Narration",
            InputFieldType::Account => "Account",
            InputFieldType::Amount => "Amount",
            InputFieldType::Currency => "Currency",
        }
    }
}

/// The lines of a field joined into one text, a single space between
/// consecutive lines.
pub open spec fn join_lines(lines: Seq<Seq<char>>) -> Seq<char>
    decreases lines.len(),
{
    if lines.len() == 0 {
        Seq::empty()
    } else if lines.len() == 1 {
        lines[0]
    } else {
        join_lines(lines.drop_last()) + seq![' '] + lines.last()
    }
}

/// An editable text with a cursor, labelled by its type.
#[derive(Debug)]
pub struct InputField {
    pub input_type: InputFieldType,
    pub textarea: TextBuffer,
}

/// An input field as contracts see it.
pub struct InputFieldView {
    pub input_type: InputFieldType,
    /// The lines of text, top to bottom.
    pub lines: Seq<Seq<char>>,
    /// Row and column of the cursor, counted from zero and in characters.
    pub cursor: (nat, nat),
    /// Whether a selection is going on.
    pub selecting: bool,
}

impl InputFieldView {
    /// The content of the field as one text.
    pub open spec fn text(self) -> Seq<char> {
        join_lines(self.lines)
    }

    /// Nothing is selected and the cursor stands in the text: the state in
    /// which what is typed goes in at the cursor.
    pub open spec fn ready(self) -> bool {
        !self.selecting && cursor_in_text(self.lines, self.cursor)
    }

    /// The field after `text`, which holds no line break, went in at the
    /// cursor: the cursor stands behind it.
    pub open spec fn with_inserted(self, text: Seq<char>) -> InputFieldView {
        InputFieldView {
            lines: insert_at_cursor(self.lines, self.cursor, text),
            cursor: (self.cursor.0, self.cursor.1 + text.len()),
            ..self
        }
    }
}

impl View for InputField {
    type V = InputFieldView;

    open spec fn view(&self) -> InputFieldView {
        InputFieldView {
            input_type: self.input_type,
            lines: buffer_lines(self.textarea),
            cursor: buffer_cursor(self.textarea),
            selecting: buffer_selecting(self.textarea),
        }
    }
}

impl InputField {
    /// A field of the given type that holds `value` as its only line, the
    /// cursor at its start and nothing selected.
    pub fn new(input_type: InputFieldType, value: String) -> (field: InputField)
        ensures
            field@ == (InputFieldView {
                input_type,
                lines: seq![value@],
                cursor: (0nat, 0nat),
                selecting: false,
            }),
            field@.text() == value@,
            field@.ready(),
    {
        InputField { input_type, textarea: TextBuffer::new(value) }
    }

    /// The lines of the field, top to bottom.
    pub fn lines(&self) -> (lines: Vec<String>)
        ensures
            lines@.len() == self@.lines.len(),
            forall|i: int| 0 <= i < lines@.len() ==> (#[trigger] lines@[i])@ == self@.lines[i],
    {
        self.textarea.lines()
    }

    /// The cursor as (row, column), counted from zero and in characters.
    pub fn cursor(&self) -> (position: (usize, usize))
        ensures
            position.0 == self@.cursor.0,
            position.1 == self@.cursor.1,
    {
        self.textarea.cursor()
    }

    /// The content of the field as one text: its lines, a single space
    /// between them.
    pub fn text(&self) -> (text: String)
        ensures
            text@ == self@.text(),
    {
        let lines = self.textarea.lines();
        let mut text = String::new();
        let mut i: usize = 0;
        proof {
            reveal_strlit(" ");
        }
        while i < lines.len()
            invariant
                i <= lines@.len(),
                lines@.len() == self@.lines.len(),
                forall|k: int| 0 <= k < lines@.len() ==> (#[trigger] lines@[k])@ == self@.lines[k],
                text@ == join_lines(self@.lines.take(i as int)),
                " "@ == seq![' '],
            decreases lines@.len() - i,
        {
            assert(self@.lines.take(i + 1).drop_last() == self@.lines.take(i as int));
            if i > 0 {
                text.append(" ");
            }
            text.append(lines[i].as_str());
            i = i + 1;
        }
        assert(self@.lines.take(i as int) == self@.lines);
        text
    }

    /// Hands one key to the editor of this field. The type of the field
    /// stays. A key that types a character into a field that is ready puts
    /// the character in at the cursor; what any other key does is up to
    /// the editor.
    pub fn input(&mut self, input: Input) -> (modified: bool)
        ensures
            final(self)@.input_type == old(self)@.input_type,
            typed_char(input) matches Some(c) ==> (old(self)@.ready() ==> {
                &&& modified
                &&& final(self)@ == old(self)@.with_inserted(seq![c])
                &&& final(self)@.ready()
            }),
    {
        self.textarea.input(input)
    }

    /// Inserts `text` at the cursor. The type of the field stays. In a
    /// field that is ready, a text without a line feed, and without a
    /// carriage return at its end, goes in as it is.
    pub fn insert_str(&mut self, text: &str) -> (modified: bool)
        ensures
            final(self)@.input_type == old(self)@.input_type,
            !text@.contains('\n') && (text@.len() == 0 || text@.last() != '\r') && old(
                self,
            )@.ready() ==> {
                &&& modified == (text@.len() > 0)
                &&& final(self)@ == old(self)@.with_inserted(text@)
                &&& final(self)@.ready()
            },
    {
        self.textarea.insert_str(text)
    }
}

} // verus!
