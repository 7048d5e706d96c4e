//! Terminal control sequences and the framing of every screen that is sent.
use crate::text::{decimal_text, format_decimal};
use crossterm::cursor::MoveTo;
use crossterm::style::{style, Stylize};
use crossterm::terminal::{Clear, ClearType};
use vstd::prelude::*;

verus! {

/// Moves the cursor to the top-left corner.
pub open spec fn cursor_home_code() -> Seq<char> {
    seq!['\u{1b}', '[', '1', ';', '1', 'H']
}

/// Clears the whole screen.
pub open spec fn clear_all_code() -> Seq<char> {
    seq!['\u{1b}', '[', '2', 'J']
}

/// Switches the background to black.
pub open spec fn black_background_code() -> Seq<char> {
    seq!['\u{1b}', '[', '4', '8', ';', '5', ';', '0', 'm']
}

/// Switches the background back to the terminal's default.
pub open spec fn default_background_code() -> Seq<char> {
    seq!['\u{1b}', '[', '4', '9', 'm']
}

/// The line ending of server output.
pub open spec fn line_end() -> Seq<char> {
    seq!['\r', '\n']
}

/// The prefix that homes the cursor and clears the screen.
pub open spec fn clear_screen_text() -> Seq<char> {
    cursor_home_code() + clear_all_code()
}

/// `t` drawn on a black background.
pub open spec fn on_black_text(t: Seq<char>) -> Seq<char> {
    black_background_code() + t + default_background_code()
}

/// A full screen showing `t`: cleared, then `t` on black, then a line end.
pub open spec fn screen_text(t: Seq<char>) -> Seq<char> {
    clear_screen_text() + on_black_text(t) + line_end()
}

/// The notice sent when a section has no page at the requested position;
/// both numbers are counted from one.
pub open spec fn missing_page_text(section: nat, page: nat) -> Seq<char> {
    "Section "@ + decimal_text(section) + " does not have a page "@ + decimal_text(page)
        + line_end()
}

/// The notice sent when there is no section at the requested position,
/// counted from one.
pub open spec fn missing_section_text(section: nat) -> Seq<char> {
    "Section "@ + decimal_text(section) + " does not exist"@ + line_end()
}

/// Relies on crossterm's `Display` of `MoveTo(0, 0)`, where it writes ANSI
/// codes: `ESC [ 1 ; 1 H`.
#[verifier::external_body]
fn cursor_home() -> (r: String)
    ensures
        r@ == cursor_home_code(),
{
    format!("{}", MoveTo(0, 0))
}

/// Relies on crossterm's `Display` of `Clear(ClearType::All)`, where it writes
/// ANSI codes: `ESC [ 2 J`.
#[verifier::external_body]
fn clear_all() -> (r: String)
    ensures
        r@ == clear_all_code(),
{
    format!("{}", Clear(ClearType::All))
}

/// Relies on crossterm's `Display` of `style(t).on_black()`, where it writes
/// ANSI codes: the black background code, `t`, then the default background
/// code.
#[verifier::external_body]
fn on_black(t: &str) -> (r: String)
    ensures
        r@ == on_black_text(t@),
{
    format!("{}", style(t).on_black())
}

/// The prefix that homes the cursor and clears the screen.
pub fn clear_screen() -> (r: String)
    ensures
        r@ == clear_screen_text(),
{
    let home = cursor_home();
    let clear = clear_all();
    home.concat(clear.as_str())
}

/// A full screen showing `t`.
pub fn screen(t: &str) -> (r: String)
    ensures
        r@ == screen_text(t@),
{
    proof {
        reveal_strlit("\r\n");
    }
    let mut r = clear_screen();
    let styled = on_black(t);
    r.append(styled.as_str());
    r.append("\r\n");
    r
}

/// The notice for a missing page; both numbers are counted from one.
pub fn missing_page(section: usize, page: usize) -> (r: String)
    ensures
        r@ == missing_page_text(section as nat, page as nat),
{
    proof {
        reveal_strlit("\r\n");
    }
    let mut r = String::from_str("Section ");
    let s = format_decimal(section);
    r.append(s.as_str());
    r.append(" does not have a page ");
    let p = format_decimal(page);
    r.append(p.as_str());
    r.append("\r\n");
    r
}

/// The notice for a missing section, counted from one.
pub fn missing_section(section: usize) -> (r: String)
    ensures
        r@ == missing_section_text(section as nat),
{
    proof {
        reveal_strlit("\r\n");
    }
    let mut r = String::from_str("Section ");
    let s = format_decimal(section);
    r.append(s.as_str());
    r.append(" does not exist");
    r.append("\r\n");
    r
}

} // verus!
