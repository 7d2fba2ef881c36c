//! Terminal commands as text, by way of crossterm.

use crossterm::Command;
use vstd::prelude::*;

use crate::text;

verus! {

/// The escape sequence that moves the cursor, rows and columns counted from
/// zero here and from one in the sequence.
pub open spec fn move_to_text(column: nat, row: nat) -> Seq<char> {
    "\x1b["@ + text::decimal(row + 1) + ";"@ + text::decimal(column + 1) + "H"@
}

/// The escape sequence that moves the cursor within its row.
pub open spec fn move_to_column_text(column: nat) -> Seq<char> {
    "\x1b["@ + text::decimal(column + 1) + "G"@
}

/// Appends the command to move the cursor to a column and row.
///
/// Calls `write_ansi` of `crossterm::cursor::MoveTo`, which writes the escape
/// sequence with both numbers increased by one. Neither of them may be the
/// largest `u16`, which cannot be increased.
#[verifier::external_body]
pub(crate) fn move_to(out: &mut String, column: u16, row: u16)
    requires
        column < u16::MAX,
        row < u16::MAX,
    ensures
        final(out)@ == old(out)@ + move_to_text(column as nat, row as nat),
{
    let _ = crossterm::cursor::MoveTo(column, row).write_ansi(out);
}

/// Appends the command to move the cursor to a column of its row.
///
/// Calls `write_ansi` of `crossterm::cursor::MoveToColumn`, which writes the
/// escape sequence with the number increased by one. It may not be the largest
/// `u16`, which cannot be increased.
#[verifier::external_body]
pub(crate) fn move_to_column(out: &mut String, column: u16)
    requires
        column < u16::MAX,
    ensures
        final(out)@ == old(out)@ + move_to_column_text(column as nat),
{
    let _ = crossterm::cursor::MoveToColumn(column).write_ansi(out);
}

/// Appends the command to clear the rest of the cursor's row.
///
/// Calls `write_ansi` of `crossterm::terminal::Clear` with
/// `ClearType::UntilNewLine`, which writes a constant escape sequence.
#[verifier::external_body]
pub(crate) fn clear_until_new_line(out: &mut String)
    ensures
        final(out)@ == old(out)@ + "\x1b[K"@,
{
    let _ = crossterm::terminal::Clear(crossterm::terminal::ClearType::UntilNewLine).write_ansi(out);
}

/// Appends the command to print a text.
///
/// Calls `write_ansi` of `crossterm::style::Print`, which writes the text as it
/// is.
#[verifier::external_body]
pub(crate) fn print(out: &mut String, text: &str)
    ensures
        final(out)@ == old(out)@ + text@,
{
    let _ = crossterm::style::Print(text).write_ansi(out);
}

} // verus!
