//! What is computed for the screen: the lines of a message and the place of
//! the cursor in the input line.

use unicode_width::UnicodeWidthStr;
use vstd::prelude::*;

verus! {

/// The text that `textwrap::fill` makes of `text` for lines of `width`
/// columns.
pub uninterp spec fn wrapped_text(text: Seq<char>, width: usize) -> Seq<char>;

/// The number of columns that `text` takes on the screen, as
/// `unicode_width::UnicodeWidthStr::width` counts them.
pub uninterp spec fn display_width(text: Seq<char>) -> usize;

/// Calls `textwrap::fill` with a plain width. The contract gives the
/// result a name, [`wrapped_text`], and says nothing else of it.
#[verifier::external_body]
fn fill(text: &str, width: usize) -> (r: String)
    ensures
        r@ == wrapped_text(text@, width),
{
    textwrap::fill(text, width)
}

/// Calls `unicode_width::UnicodeWidthStr::width`. The contract gives the
/// result a name, [`display_width`], and says nothing else of it.
#[verifier::external_body]
fn columns(text: &str) -> (r: usize)
    ensures
        r == display_width(text@),
{
    text.width()
}

/// The head line of a message: the time and the sender with a colon
/// between them.
pub open spec fn header_text(time: Seq<char>, sender: Seq<char>) -> Seq<char> {
    time + ":"@ + sender
}

/// The column of the cursor behind a text of `width` columns that starts
/// one column to the right of `area_x`, if there is such a column.
pub open spec fn column_after(area_x: u16, width: usize) -> Option<u16> {
    if area_x + width + 1 <= u16::MAX {
        Some((area_x + width + 1) as u16)
    } else {
        None
    }
}

/// The head line of a message and its body, wrapped to lines of `width`
/// columns.
pub fn message_lines(message: &(String, String, String), width: usize) -> (r: (String, String))
    ensures
        r.0@ == header_text(message.0@, message.1@),
        r.1@ == wrapped_text(message.2@, width),
{
    let mut header = message.0.clone();
    header.append(":");
    header.append(message.1.as_str());
    (header, fill(message.2.as_str(), width))
}

/// The column of the cursor behind a text that is `width` columns wide and
/// starts one column to the right of `area_x`; `None` where the screen has
/// no such column.
pub fn column_behind(area_x: u16, width: usize) -> (r: Option<u16>)
    ensures
        r == column_after(area_x, width),
{
    if width < 0xffff && area_x < 0xffff - (width as u16) {
        Some(area_x + (width as u16) + 1)
    } else {
        None
    }
}

/// The column of the cursor behind the text typed into an input line whose
/// frame starts at `area_x`; `None` where the screen has no such column.
pub fn cursor_column(area_x: u16, input: &str) -> (r: Option<u16>)
    ensures
        r == column_after(area_x, display_width(input@)),
{
    column_behind(area_x, columns(input))
}

} // verus!
