//! The colour names that page templates may use.
use vstd::prelude::*;

verus! {

/// A colour that templates can name.
#[derive(Clone, Copy, Debug, PartialEq, Eq, Structural)]
pub enum NamedColor {
    Black,
    Red,
    Green,
    Yellow,
    Blue,
    Magenta,
    Cyan,
    White,
}

/// The colour that the lower-case name `s` stands for: the eight terminal
/// colours by their names, magenta under the name `purple`.
pub open spec fn color_named(s: Seq<char>) -> Option<NamedColor> {
    if s == "black"@ {
        Some(NamedColor::Black)
    } else if s == "red"@ {
        Some(NamedColor::Red)
    } else if s == "green"@ {
        Some(NamedColor::Green)
    } else if s == "yellow"@ {
        Some(NamedColor::Yellow)
    } else if s == "blue"@ {
        Some(NamedColor::Blue)
    } else if s == "purple"@ {
        Some(NamedColor::Magenta)
    } else if s == "cyan"@ {
        Some(NamedColor::Cyan)
    } else if s == "white"@ {
        Some(NamedColor::White)
    } else {
        None
    }
}

/// The text that `str::to_lowercase` makes of `s`.
pub uninterp spec fn lower_of(s: Seq<char>) -> Seq<char>;

/// Relies on `str::to_lowercase`: the result depends on the characters alone.
#[verifier::external_body]
fn lowercase(s: &str) -> (r: String)
    ensures
        r@ == lower_of(s@),
{
    s.to_lowercase()
}

/// The colour that the lower-case name `name` stands for, if any.
pub fn color_from_lowercase(name: &str) -> (r: Option<NamedColor>)
    ensures
        r == color_named(name@),
{
    if crate::zine_handler::same_text(name, "black") {
        Some(NamedColor::Black)
    } else if crate::zine_handler::same_text(name, "red") {
        Some(NamedColor::Red)
    } else if crate::zine_handler::same_text(name, "green") {
        Some(NamedColor::Green)
    } else if crate::zine_handler::same_text(name, "yellow") {
        Some(NamedColor::Yellow)
    } else if crate::zine_handler::same_text(name, "blue") {
        Some(NamedColor::Blue)
    } else if crate::zine_handler::same_text(name, "purple") {
        Some(NamedColor::Magenta)
    } else if crate::zine_handler::same_text(name, "cyan") {
        Some(NamedColor::Cyan)
    } else if crate::zine_handler::same_text(name, "white") {
        Some(NamedColor::White)
    } else {
        None
    }
}

/// The colour that `name` stands for, in any letter case.
pub fn color_from_name(name: &str) -> (r: Option<NamedColor>)
    ensures
        r == color_named(lower_of(name@)),
{
    let lower = lowercase(name);
    color_from_lowercase(lower.as_str())
}

} // verus!
