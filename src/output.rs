//! Coloured and styled console text, as ANSI escape sequences.
use vstd::prelude::*;
use vstd::string::*;

use owo_colors::OwoColorize;

verus! {

/// The escape sequence `ESC [ code m` that selects a graphic rendition.
pub open spec fn sgr(code: Seq<char>) -> Seq<char> {
    seq!['\u{1b}', '['] + code + seq!['m']
}

/// `text` rendered with the rendition `on`, then the rendition `off`.
pub open spec fn painted(on: Seq<char>, text: Seq<char>, off: Seq<char>) -> Seq<char> {
    sgr(on) + text + sgr(off)
}

/// `text` in a foreground colour (`code` is "31" for red, "32" for green,
/// "33" for yellow, "34" for blue), followed by the default foreground.
pub open spec fn in_colour(code: Seq<char>, text: Seq<char>) -> Seq<char> {
    painted(code, text, seq!['3', '9'])
}

/// `text` with a style (`code` "1" for bold, "2" for dimmed), followed by a
/// reset of all renditions.
pub open spec fn in_style(code: Seq<char>, text: Seq<char>) -> Seq<char> {
    painted(code, text, seq!['0'])
}

/// Relies on `OwoColorize::green`: the text between `ESC[32m` and `ESC[39m`.
#[verifier::external_body]
fn paint_green(text: &str) -> (r: String)
    ensures
        r@ == in_colour(seq!['3', '2'], text@),
{
    format!("{}", text.green())
}

/// Relies on `OwoColorize::red`: the text between `ESC[31m` and `ESC[39m`.
#[verifier::external_body]
fn paint_red(text: &str) -> (r: String)
    ensures
        r@ == in_colour(seq!['3', '1'], text@),
{
    format!("{}", text.red())
}

/// Relies on `OwoColorize::yellow`: the text between `ESC[33m` and `ESC[39m`.
#[verifier::external_body]
fn paint_yellow(text: &str) -> (r: String)
    ensures
        r@ == in_colour(seq!['3', '3'], text@),
{
    format!("{}", text.yellow())
}

/// Relies on `OwoColorize::blue`: the text between `ESC[34m` and `ESC[39m`.
#[verifier::external_body]
fn paint_blue(text: &str) -> (r: String)
    ensures
        r@ == in_colour(seq!['3', '4'], text@),
{
    format!("{}", text.blue())
}

/// Relies on `OwoColorize::dimmed`: the text between `ESC[2m` and `ESC[0m`.
#[verifier::external_body]
fn paint_dimmed(text: &str) -> (r: String)
    ensures
        r@ == in_style(seq!['2'], text@),
{
    format!("{}", text.dimmed())
}

/// Relies on `OwoColorize::bold`: the text between `ESC[1m` and `ESC[0m`.
#[verifier::external_body]
fn paint_bold(text: &str) -> (r: String)
    ensures
        r@ == in_style(seq!['1'], text@),
{
    format!("{}", text.bold())
}

/// Formats a value as success (green).
pub fn format_success<T: std::fmt::Display>(value: T) -> (r: String)
    ensures
        exists|t: String|
            to_string_from_display_ensures::<T>(&value, t) && r@ == in_colour(
                seq!['3', '2'],
                t@,
            ),
{
    let text = value.to_string();
    paint_green(text.as_str())
}

/// Formats a value as error (red).
pub fn format_error<T: std::fmt::Display>(value: T) -> (r: String)
    ensures
        exists|t: String|
            to_string_from_display_ensures::<T>(&value, t) && r@ == in_colour(
                seq!['3', '1'],
                t@,
            ),
{
    let text = value.to_string();
    paint_red(text.as_str())
}

/// Formats a value as warning (yellow).
pub fn format_warning<T: std::fmt::Display>(value: T) -> (r: String)
    ensures
        exists|t: String|
            to_string_from_display_ensures::<T>(&value, t) && r@ == in_colour(
                seq!['3', '3'],
                t@,
            ),
{
    let text = value.to_string();
    paint_yellow(text.as_str())
}

/// Formats a value as info (blue).
pub fn format_info<T: std::fmt::Display>(value: T) -> (r: String)
    ensures
        exists|t: String|
            to_string_from_display_ensures::<T>(&value, t) && r@ == in_colour(
                seq!['3', '4'],
                t@,
            ),
{
    let text = value.to_string();
    paint_blue(text.as_str())
}

/// Formats a value as dimmed/muted.
pub fn format_dimmed<T: std::fmt::Display>(value: T) -> (r: String)
    ensures
        exists|t: String|
            to_string_from_display_ensures::<T>(&value, t) && r@ == in_style(seq!['2'], t@),
{
    let text = value.to_string();
    paint_dimmed(text.as_str())
}

/// Formats a value as bold.
pub fn format_bold<T: std::fmt::Display>(value: T) -> (r: String)
    ensures
        exists|t: String|
            to_string_from_display_ensures::<T>(&value, t) && r@ == in_style(seq!['1'], t@),
{
    let text = value.to_string();
    paint_bold(text.as_str())
}

} // verus!
