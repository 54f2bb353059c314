//! What the screen shows that has to be computed first: the title of the
//! window and the text of the overlay.

use crate::app::App;
use crate::utils::{decimal, push_decimal};
use vstd::prelude::*;
use vstd::string::StringExecFns;

verus! {

/// The title of the window: the position of the transaction on show,
/// counted from one, and the number of transactions.
pub open spec fn title_spec(current_index: nat, total: nat) -> Seq<char> {
    "Beancount importer ("@ + decimal(current_index + 1) + seq!['/'] + decimal(total) + seq![')']
}

/// The title of the window.
pub fn title(app: &App) -> (text: String)
    requires
        app.wf(),
    ensures
        text@ == title_spec(app.current_index as nat, app.transactions@.len()),
{
    proof {
        reveal_strlit("/");
        reveal_strlit(")");
    }
    assert(")"@ == seq![')']);
    let total = app.transactions.len();
    let mut text = String::from_str("Beancount importer (");
    push_decimal(&mut text, (app.current_index + 1) as u64);
    text.append("/");
    push_decimal(&mut text, total as u64);
    text.append(")");
    text
}

/// Half of what is left, in percent, beside a part that takes `percent` of
/// a length: the margin on either side of a centred part.
pub fn centered_margin(percent: u16) -> (margin: u16)
    requires
        percent <= 100,
    ensures
        margin == (100 - percent) / 2,
{
    (100 - percent) / 2
}

/// Number of newline characters in a text.
pub open spec fn newlines_in(text: Seq<char>) -> nat
    decreases text.len(),
{
    if text.len() == 0 {
        0
    } else {
        newlines_in(text.drop_last()) + if text.last() == '\n' {
            1nat
        } else {
            0nat
        }
    }
}

/// Number of lines in a text. A newline ends a line; what follows the last
/// newline is a line unless it is empty.
pub open spec fn line_count(text: Seq<char>) -> nat {
    newlines_in(text) + if text.len() > 0 && text.last() != '\n' {
        1nat
    } else {
        0nat
    }
}

/// Number of lines in a text.
pub fn count_lines(text: &str) -> (count: usize)
    ensures
        count == line_count(text@),
{
    let length = text.unicode_len();
    let mut newlines: usize = 0;
    let mut open_line = false;
    for c in it: text.chars()
        invariant
            it.seq() == text@,
            length == text@.len(),
            newlines == newlines_in(text@.take(it.index() as int)),
            newlines + if open_line { 1nat } else { 0nat } <= it.index(),
            open_line == (it.index() > 0 && text@[it.index() - 1] != '\n'),
    {
        assert(text@.take(it.index() + 1).drop_last() == text@.take(it.index() as int));
        if c == '\n' {
            newlines = newlines + 1;
            open_line = false;
        } else {
            open_line = true;
        }
    }
    assert(text@.take(text@.len() as int) == text@);
    if open_line {
        newlines + 1
    } else {
        newlines
    }
}

/// Number of empty lines above and below the question in an overlay that
/// is `height` rows high: half of the rows that the question leaves free,
/// and at least one. The number of lines counts modulo 65536.
pub open spec fn popup_padding(lines: nat, height: u16) -> nat {
    let used = lines % 0x10000;
    let free = if height >= used {
        height - used
    } else {
        0
    };
    if free / 2 >= 1 {
        (free / 2) as nat
    } else {
        1
    }
}

/// A text of `count` newlines.
pub open spec fn blank_lines(count: nat) -> Seq<char> {
    Seq::new(count, |i: int| '\n')
}

/// The question of the overlay between equal numbers of empty lines, so
/// that it stands in the middle of `height` rows.
pub fn popup_text(prompt: &str, height: u16) -> (text: String)
    ensures
        text@ == blank_lines(popup_padding(line_count(prompt@), height)) + prompt@ + blank_lines(
            popup_padding(line_count(prompt@), height),
        ),
{
    let lines = (count_lines(prompt) % 0x10000) as u16;
    let free = height.saturating_sub(lines);
    let vertical_padding: u16 = if free / 2 >= 1 {
        free / 2
    } else {
        1
    };
    let mut text = String::new();
    push_blank_lines(&mut text, vertical_padding);
    text.append(prompt);
    push_blank_lines(&mut text, vertical_padding);
    text
}

fn push_blank_lines(text: &mut String, count: u16)
    ensures
        final(text)@ == old(text)@ + blank_lines(count as nat),
{
    proof {
        reveal_strlit("\n");
    }
    let mut i: u16 = 0;
    while i < count
        invariant
            i <= count,
            text@ == old(text)@ + blank_lines(i as nat),
            "\n"@ == seq!['\n'],
        decreases count - i,
    {
        text.append("\n");
        i = i + 1;
    }
}

} // verus!
