//! The terminal's escape sequences, as produced by termion, and what each one
//! consists of.

use crate::config::Colour;
use termion::{clear, color, cursor, style};
use vstd::prelude::*;

verus! {

/// The decimal digit `d` (below ten) as a character.
pub open spec fn digit_char(d: nat) -> char {
    seq!['0', '1', '2', '3', '4', '5', '6', '7', '8', '9'][d as int]
}

/// The decimal numeral of `n`, without leading zeros.
pub open spec fn decimal(n: nat) -> Seq<char>
    decreases n,
{
    if n < 10 {
        seq![digit_char(n)]
    } else {
        decimal(n / 10).push(digit_char(n % 10))
    }
}

/// A control sequence: ESC, `[`, then `body`.
pub open spec fn csi(body: Seq<char>) -> Seq<char> {
    seq!['\x1b', '['] + body
}

/// The command that moves the cursor to the one-based `row` and `col`.
pub open spec fn goto_code(row: nat, col: nat) -> Seq<char> {
    csi(decimal(row) + seq![';'] + decimal(col) + seq!['H'])
}

/// An indexed colour command: `lead` is `3` for the foreground, `4` for the background.
pub open spec fn indexed_code(lead: char, n: nat) -> Seq<char> {
    csi(seq![lead, '8', ';', '5', ';'] + decimal(n) + seq!['m'])
}

/// A truecolor command: `lead` is `3` for the foreground, `4` for the background.
pub open spec fn rgb_code(lead: char, r: nat, g: nat, b: nat) -> Seq<char> {
    csi(seq![lead, '8', ';', '2', ';'] + decimal(r) + seq![';'] + decimal(g) + seq![';']
        + decimal(b) + seq!['m'])
}

/// The command that resets a colour to the terminal's default.
pub open spec fn reset_code(lead: char) -> Seq<char> {
    csi(seq![lead, '9', 'm'])
}

/// The command that makes `c` the foreground colour.
pub open spec fn fg_code(c: Colour) -> Seq<char> {
    match c {
        Colour::Basic(n) => indexed_code('3', n as nat),
        Colour::Rgb(r, g, b) => rgb_code('3', r as nat, g as nat, b as nat),
        Colour::TerminalDefault => reset_code('3'),
    }
}

/// The command that makes `c` the background colour.
pub open spec fn bg_code(c: Colour) -> Seq<char> {
    match c {
        Colour::Basic(n) => indexed_code('4', n as nat),
        Colour::Rgb(r, g, b) => rgb_code('4', r as nat, g as nat, b as nat),
        Colour::TerminalDefault => reset_code('4'),
    }
}

/// The command that clears the whole screen.
pub open spec fn clear_code() -> Seq<char> {
    csi(seq!['2', 'J'])
}

/// The command that resets all text styling.
pub open spec fn style_reset_code() -> Seq<char> {
    csi(seq!['m'])
}

/// The command that hides the cursor.
pub open spec fn hide_code() -> Seq<char> {
    csi(seq!['?', '2', '5', 'l'])
}

/// The command that shows the cursor.
pub open spec fn show_code() -> Seq<char> {
    csi(seq!['?', '2', '5', 'h'])
}

/// Relies on termion's `From<cursor::Goto> for String`: CSI, the row and the
/// column in decimal separated by `;`, then `H`.
#[verifier::external_body]
pub(crate) fn goto(col: u16, row: u16) -> (r: String)
    ensures
        r@ == goto_code(row as nat, col as nat),
{
    String::from(cursor::Goto(col, row))
}

/// Relies on termion's `color::AnsiValue::fg_string`: CSI `38;5;`, the index, `m`.
#[verifier::external_body]
fn ansi_fg(n: u8) -> (r: String)
    ensures
        r@ == indexed_code('3', n as nat),
{
    color::AnsiValue(n).fg_string()
}

/// Relies on termion's `color::AnsiValue::bg_string`: CSI `48;5;`, the index, `m`.
#[verifier::external_body]
fn ansi_bg(n: u8) -> (r: String)
    ensures
        r@ == indexed_code('4', n as nat),
{
    color::AnsiValue(n).bg_string()
}

/// Relies on termion's `color::Rgb::fg_string`: CSI `38;2;`, the three
/// components separated by `;`, `m`.
#[verifier::external_body]
fn rgb_fg(r: u8, g: u8, b: u8) -> (s: String)
    ensures
        s@ == rgb_code('3', r as nat, g as nat, b as nat),
{
    color::Rgb(r, g, b).fg_string()
}

/// Relies on termion's `color::Rgb::bg_string`: CSI `48;2;`, the three
/// components separated by `;`, `m`.
#[verifier::external_body]
fn rgb_bg(r: u8, g: u8, b: u8) -> (s: String)
    ensures
        s@ == rgb_code('4', r as nat, g as nat, b as nat),
{
    color::Rgb(r, g, b).bg_string()
}

/// Relies on termion's `color::Reset::fg_str`: CSI `39m`.
#[verifier::external_body]
fn reset_fg() -> (r: String)
    ensures
        r@ == reset_code('3'),
{
    color::Reset.fg_str().to_string()
}

/// Relies on termion's `color::Reset::bg_str`: CSI `49m`.
#[verifier::external_body]
fn reset_bg() -> (r: String)
    ensures
        r@ == reset_code('4'),
{
    color::Reset.bg_str().to_string()
}

/// Relies on termion's `AsRef<str> for clear::All`: CSI `2J`.
#[verifier::external_body]
pub(crate) fn clear_all() -> (r: String)
    ensures
        r@ == clear_code(),
{
    AsRef::<str>::as_ref(&clear::All).to_string()
}

/// Relies on termion's `AsRef<str> for style::Reset`: CSI `m`.
#[verifier::external_body]
pub(crate) fn style_reset() -> (r: String)
    ensures
        r@ == style_reset_code(),
{
    AsRef::<str>::as_ref(&style::Reset).to_string()
}

/// Relies on termion's `AsRef<str> for cursor::Hide`: CSI `?25l`.
#[verifier::external_body]
pub(crate) fn cursor_hide() -> (r: String)
    ensures
        r@ == hide_code(),
{
    AsRef::<str>::as_ref(&cursor::Hide).to_string()
}

/// Relies on termion's `AsRef<str> for cursor::Show`: CSI `?25h`.
#[verifier::external_body]
pub(crate) fn cursor_show() -> (r: String)
    ensures
        r@ == show_code(),
{
    AsRef::<str>::as_ref(&cursor::Show).to_string()
}

/// Relies on termion's `terminal_size`: the terminal's (columns, rows), or
/// `None` where the size cannot be had. Nothing is known of the values.
#[verifier::external_body]
pub(crate) fn terminal_size() -> (r: Option<(u16, u16)>)
{
    termion::terminal_size().ok()
}

/// The command that makes `c` the foreground colour.
pub fn fg_command(c: Colour) -> (r: String)
    ensures
        r@ == fg_code(c),
{
    match c {
        Colour::Basic(n) => ansi_fg(n),
        Colour::Rgb(r, g, b) => rgb_fg(r, g, b),
        Colour::TerminalDefault => reset_fg(),
    }
}

/// The command that makes `c` the background colour.
pub fn bg_command(c: Colour) -> (r: String)
    ensures
        r@ == bg_code(c),
{
    match c {
        Colour::Basic(n) => ansi_bg(n),
        Colour::Rgb(r, g, b) => rgb_bg(r, g, b),
        Colour::TerminalDefault => reset_bg(),
    }
}

} // verus!
