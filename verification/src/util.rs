//! The terminal control sequences that the screens are drawn with.

use vstd::prelude::*;
use vstd::string::StringExecFns;

verus! {

/// The sequence that moves the cursor to the left edge of the line.
pub open spec fn left_text() -> Seq<char> {
    "\x1B[65535D"@
}

/// The sequence that switches to bold text.
pub open spec fn bold_text() -> Seq<char> {
    "\x1B[1m"@
}

/// The sequence that switches every text style off.
pub open spec fn plain_text() -> Seq<char> {
    "\x1B[m"@
}

/// The sequence that switches to red text.
pub open spec fn red_text() -> Seq<char> {
    "\x1B[38;5;1m"@
}

/// The sequence that switches back to the terminal's own text colour.
pub open spec fn default_colour_text() -> Seq<char> {
    "\x1B[39m"@
}

/// Moves the cursor to the left edge of the line.
///
/// Calls `termion::cursor::Left` with `u16::MAX` and takes its text, which
/// termion writes as the escape character, `[`, the count and `D`.
#[verifier::external_body]
pub fn just_left() -> (s: String)
    ensures
        s@ == "\x1B[65535D"@,
{
    termion::cursor::Left(u16::MAX).to_string()
}

/// Clears the whole screen.
///
/// Takes the text of `termion::clear::All`, which termion defines as the
/// escape character followed by `[2J`.
#[verifier::external_body]
fn clear_all() -> (s: String)
    ensures
        s@ == "\x1B[2J"@,
{
    termion::clear::All.to_string()
}

/// Puts the cursor in the top left corner.
///
/// Takes the text of `termion::cursor::Goto(1, 1)`, which termion writes as
/// the escape character, `[`, the row, `;`, the column and `H`.
#[verifier::external_body]
fn goto_origin() -> (s: String)
    ensures
        s@ == "\x1B[1;1H"@,
{
    termion::cursor::Goto(1, 1).to_string()
}

/// Switches to bold text.
///
/// Takes the text of `termion::style::Bold`, which termion defines as the
/// escape character followed by `[1m`.
#[verifier::external_body]
pub(crate) fn bold() -> (s: String)
    ensures
        s@ == "\x1B[1m"@,
{
    termion::style::Bold.to_string()
}

/// Switches every text style off.
///
/// Takes the text of `termion::style::Reset`, which termion defines as the
/// escape character followed by `[m`.
#[verifier::external_body]
pub(crate) fn plain() -> (s: String)
    ensures
        s@ == "\x1B[m"@,
{
    termion::style::Reset.to_string()
}

/// Switches to red text.
///
/// Takes the text of `termion::color::Fg(termion::color::Red)`, which termion
/// defines as the escape character followed by `[38;5;1m`.
#[verifier::external_body]
pub(crate) fn red() -> (s: String)
    ensures
        s@ == "\x1B[38;5;1m"@,
{
    termion::color::Fg(termion::color::Red).to_string()
}

/// Switches back to the terminal's own text colour.
///
/// Takes the text of `termion::color::Fg(termion::color::Reset)`, which
/// termion defines as the escape character followed by `[39m`.
#[verifier::external_body]
pub(crate) fn default_colour() -> (s: String)
    ensures
        s@ == "\x1B[39m"@,
{
    termion::color::Fg(termion::color::Reset).to_string()
}

/// The text that clears the screen and puts the cursor in the top left corner.
pub open spec fn clear_screen_text() -> Seq<char> {
    "\x1B[2J"@ + "\x1B[1;1H"@
}

/// Clears the screen and puts the cursor in the top left corner.
pub fn clear_screen() -> (s: String)
    ensures
        s@ == clear_screen_text(),
{
    let mut s = clear_all();
    let origin = goto_origin();
    s.append(origin.as_str());
    s
}

} // verus!
