//! Coloured text: which colour a value is shown in, and what a terminal is
//! sent for it. The escape sequences themselves are written by the `colored`
//! crate; the rules that pick a colour are proved here.

use vstd::prelude::*;
use vstd::string::StringExecFns;
use colored::Colorize;
use crate::decimal::{decimal, digits, digits_are_digits, is_digit};
use crate::temperature::{
    band_of, magnitude, round_half_even, sign_text, two_decimals, Band, Fahrenheit,
};

verus! {

/// A foreground colour, or none.
#[derive(Clone, Copy, Debug, PartialEq, Eq, Structural)]
pub enum Tint {
    /// The terminal's own colour: the text is sent as it is.
    Plain,
    Red,
    Green,
    Blue,
    Cyan,
    BrightRed,
    BrightGreen,
    BrightBlue,
    BrightCyan,
    /// A colour given by its red, green and blue parts.
    TrueColor { r: u8, g: u8, b: u8 },
}

/// A text together with the colour it is to be shown in.
#[derive(Clone, Debug, PartialEq, Eq)]
pub struct ColoredText {
    pub text: String,
    pub tint: Tint,
}

/// The escape sequence that resets colours.
pub open spec fn reset() -> Seq<char> {
    seq!['\u{1b}', '[', '0', 'm']
}

/// Whether `needle` stands somewhere in `hay`, unbroken.
pub open spec fn has_infix(hay: Seq<char>, needle: Seq<char>) -> bool {
    exists|at: int|
        0 <= at && at + needle.len() <= hay.len() && #[trigger] hay.subrange(
            at,
            at + needle.len(),
        ) == needle
}

/// Whether `text` holds a reset sequence.
pub open spec fn has_reset(text: Seq<char>) -> bool {
    has_infix(text, reset())
}

/// `text` between the escape sequence that selects the graphic rendition
/// `code` and the reset sequence.
pub open spec fn escape_wrapped(code: Seq<char>, text: Seq<char>) -> Seq<char> {
    seq!['\u{1b}', '['] + code + seq!['m'] + text + reset()
}

/// Whether `code` is the rendition code of one of the sixteen named
/// foreground colours: 30 to 37, or 90 to 97.
pub open spec fn is_named_code(code: Seq<char>) -> bool {
    &&& code.len() == 2
    &&& (code[0] == '3' || code[0] == '9')
    &&& '0' <= code[1] <= '7'
}

/// The rendition code of the foreground colour with the given red, green
/// and blue parts.
pub open spec fn true_color_code(r: u8, g: u8, b: u8) -> Seq<char> {
    seq!['3', '8', ';', '2', ';'] + digits(r as nat) + seq![';'] + digits(g as nat) + seq![';']
        + digits(b as nat)
}

/// The rendition code of a named foreground colour; empty for `Plain` and
/// for `TrueColor`, which have no fixed code.
pub open spec fn foreground_code(tint: Tint) -> Seq<char> {
    match tint {
        Tint::Red => seq!['3', '1'],
        Tint::Green => seq!['3', '2'],
        Tint::Blue => seq!['3', '4'],
        Tint::Cyan => seq!['3', '6'],
        Tint::BrightRed => seq!['9', '1'],
        Tint::BrightGreen => seq!['9', '2'],
        Tint::BrightBlue => seq!['9', '4'],
        Tint::BrightCyan => seq!['9', '6'],
        Tint::Plain => Seq::empty(),
        Tint::TrueColor { .. } => Seq::empty(),
    }
}

/// Whether `out` is a way to send `text` to a terminal in colour `tint`.
/// Plain text is sent as it is. Coloured text is sent either as it is, where
/// colours are switched off, or wrapped in escape sequences: those of the
/// colour's code for a named colour; for a `TrueColor` those of its own
/// code or, on a terminal without such colours, of a named colour's.
pub open spec fn shows(tint: Tint, text: Seq<char>, out: Seq<char>) -> bool {
    match tint {
        Tint::Plain => out == text,
        Tint::TrueColor { r, g, b } => out == text || exists|code: Seq<char>|
            (code == true_color_code(r, g, b) || is_named_code(code))
                && out == #[trigger] escape_wrapped(code, text),
        _ => out == text || out == escape_wrapped(foreground_code(tint), text),
    }
}

/// The colour of a temperature band.
pub open spec fn band_tint(band: Band) -> Tint {
    match band {
        Band::Scorching => Tint::Red,
        Band::Hot => Tint::BrightRed,
        Band::Warm => Tint::TrueColor { r: 255, g: 128, b: 0 },
        Band::Mild => Tint::BrightGreen,
        Band::Cool => Tint::Cyan,
        Band::Cold => Tint::Blue,
        Band::Freezing => Tint::BrightBlue,
    }
}

/// The one description that is highlighted.
pub open spec fn clear_sky() -> Seq<char> {
    seq!['c', 'l', 'e', 'a', 'r', ' ', 's', 'k', 'y']
}

/// The colour of a weather description: bright cyan for a clear sky, to the
/// letter, and none for any other.
pub open spec fn conditions_tint(conditions: Seq<char>) -> Tint {
    if conditions == clear_sky() {
        Tint::BrightCyan
    } else {
        Tint::Plain
    }
}

/// `Colorize::normal` of `colored` on `text`, written out with `to_string`.
/// The result carries no colour and no style, and `colored` writes such a
/// string as the text alone.
#[verifier::external_body]
fn paint_normal(text: &str) -> (out: String)
    ensures
        out@ == text@,
{
    text.normal().to_string()
}

/// `Colorize::red` of `colored` on `text`, written out with `to_string`.
/// `colored` writes the text alone where colours are switched off for the
/// process, and otherwise the text between the sequence for code 31 and the
/// reset sequence. It rewrites the text after each reset sequence inside
/// it, so nothing is claimed of a text that holds one.
#[verifier::external_body]
fn paint_red(text: &str) -> (out: String)
    ensures
        !has_reset(text@) ==> shows(Tint::Red, text@, out@),
{
    text.red().to_string()
}

/// `Colorize::green` of `colored` on `text`, written out with `to_string`:
/// as for red, with code 32.
#[verifier::external_body]
fn paint_green(text: &str) -> (out: String)
    ensures
        !has_reset(text@) ==> shows(Tint::Green, text@, out@),
{
    text.green().to_string()
}

/// `Colorize::blue` of `colored` on `text`, written out with `to_string`:
/// as for red, with code 34.
#[verifier::external_body]
fn paint_blue(text: &str) -> (out: String)
    ensures
        !has_reset(text@) ==> shows(Tint::Blue, text@, out@),
{
    text.blue().to_string()
}

/// `Colorize::cyan` of `colored` on `text`, written out with `to_string`:
/// as for red, with code 36.
#[verifier::external_body]
fn paint_cyan(text: &str) -> (out: String)
    ensures
        !has_reset(text@) ==> shows(Tint::Cyan, text@, out@),
{
    text.cyan().to_string()
}

/// `Colorize::bright_red` of `colored` on `text`, written out with
/// `to_string`: as for red, with code 91.
#[verifier::external_body]
fn paint_bright_red(text: &str) -> (out: String)
    ensures
        !has_reset(text@) ==> shows(Tint::BrightRed, text@, out@),
{
    text.bright_red().to_string()
}

/// `Colorize::bright_green` of `colored` on `text`, written out with
/// `to_string`: as for red, with code 92.
#[verifier::external_body]
fn paint_bright_green(text: &str) -> (out: String)
    ensures
        !has_reset(text@) ==> shows(Tint::BrightGreen, text@, out@),
{
    text.bright_green().to_string()
}

/// `Colorize::bright_blue` of `colored` on `text`, written out with
/// `to_string`: as for red, with code 94.
#[verifier::external_body]
fn paint_bright_blue(text: &str) -> (out: String)
    ensures
        !has_reset(text@) ==> shows(Tint::BrightBlue, text@, out@),
{
    text.bright_blue().to_string()
}

/// `Colorize::bright_cyan` of `colored` on `text`, written out with
/// `to_string`: as for red, with code 96.
#[verifier::external_body]
fn paint_bright_cyan(text: &str) -> (out: String)
    ensures
        !has_reset(text@) ==> shows(Tint::BrightCyan, text@, out@),
{
    text.bright_cyan().to_string()
}

/// `Colorize::truecolor` of `colored` on `text`, written out with
/// `to_string`. As for red, but the code depends on the terminal: the code
/// of the colour itself where the environment announces 24-bit colour, and
/// that of the named colour that `colored` finds nearest elsewhere. Which
/// one that is, is not claimed.
#[verifier::external_body]
fn paint_truecolor(text: &str, r: u8, g: u8, b: u8) -> (out: String)
    ensures
        !has_reset(text@) ==> shows(Tint::TrueColor { r, g, b }, text@, out@),
{
    text.truecolor(r, g, b).to_string()
}

impl Band {
    /// The colour of this band.
    pub fn tint(&self) -> (t: Tint)
        ensures
            t == band_tint(*self),
    {
        match self {
            Band::Scorching => Tint::Red,
            Band::Hot => Tint::BrightRed,
            Band::Warm => Tint::TrueColor { r: 255, g: 128, b: 0 },
            Band::Mild => Tint::BrightGreen,
            Band::Cool => Tint::Cyan,
            Band::Cold => Tint::Blue,
            Band::Freezing => Tint::BrightBlue,
        }
    }
}

impl ColoredText {
    /// What a terminal is sent to show this text in its colour. The result
    /// is pinned down for plain text and for text without a reset sequence.
    pub fn render(&self) -> (out: String)
        ensures
            self.tint is Plain || !has_reset(self.text@) ==> shows(self.tint, self.text@, out@),
    {
        let text = self.text.as_str();
        match self.tint {
            Tint::Plain => paint_normal(text),
            Tint::Red => paint_red(text),
            Tint::Green => paint_green(text),
            Tint::Blue => paint_blue(text),
            Tint::Cyan => paint_cyan(text),
            Tint::BrightRed => paint_bright_red(text),
            Tint::BrightGreen => paint_bright_green(text),
            Tint::BrightBlue => paint_bright_blue(text),
            Tint::BrightCyan => paint_bright_cyan(text),
            Tint::TrueColor { r, g, b } => paint_truecolor(text, r, g, b),
        }
    }
}

/// A temperature with two decimals, in the colour of its band.
pub fn colorize_temperature(temperature: &Fahrenheit) -> (shown: ColoredText)
    ensures
        shown.text@ == two_decimals(temperature.parts as int),
        shown.tint == band_tint(band_of(temperature.parts as int)),
{
    ColoredText { text: temperature.to_two_decimals(), tint: temperature.band().tint() }
}

/// A weather description, highlighted if and only if it reads `clear sky`
/// to the letter: no other case, no spaces around it.
pub fn colorize_conditions(conditions: &String) -> (shown: ColoredText)
    ensures
        shown.text@ == conditions@,
        shown.tint == conditions_tint(conditions@),
{
    let highlight = String::from_str("clear sky");
    proof {
        reveal_strlit("clear sky");
        assert(highlight@ =~= clear_sky());
    }
    let tint = if *conditions == highlight {
        Tint::BrightCyan
    } else {
        Tint::Plain
    };
    ColoredText { text: conditions.clone(), tint }
}

/// A text without the escape character holds no reset sequence.
pub proof fn reset_needs_escape(text: Seq<char>)
    requires
        !text.contains('\u{1b}'),
    ensures
        !has_reset(text),
{
    assert forall|at: int| 0 <= at && at + reset().len() <= text.len() implies #[trigger]
        text.subrange(at, at + reset().len()) != reset() by {
        assert(text.subrange(at, at + reset().len())[0] == text[at]);
        assert(text.contains(text[at]));
    }
}

/// The text of an integer holds no reset sequence.
pub proof fn decimal_holds_no_reset(i: int)
    ensures
        !has_reset(decimal(i)),
{
    let text = decimal(i);
    if i < 0 {
        digits_are_digits((-i) as nat);
        assert forall|k: int| 0 <= k < text.len() implies text[k] != '\u{1b}' by {
            if k > 0 {
                assert(is_digit(digits((-i) as nat)[k - 1]));
            }
        }
    } else {
        digits_are_digits(i as nat);
        assert forall|k: int| 0 <= k < text.len() implies text[k] != '\u{1b}' by {
            assert(is_digit(text[k]));
        }
    }
    reset_needs_escape(text);
}

/// Neither a temperature with two decimals nor the highlighted description
/// holds a reset sequence, so what is sent for them is pinned down.
pub proof fn shown_values_hold_no_reset(parts: int)
    ensures
        !has_reset(two_decimals(parts)),
        !has_reset(clear_sky()),
{
    let shown = round_half_even(magnitude(parts), 5);
    digits_are_digits(shown / 100);
    let t = two_decimals(parts);
    assert forall|i: int| 0 <= i < t.len() implies t[i] != '\u{1b}' by {
        let s = sign_text(parts);
        let d = digits(shown / 100);
        if i < s.len() {
        } else if i < s.len() + d.len() {
            assert(t[i] == d[i - s.len()]);
            assert(is_digit(d[i - s.len()]));
        } else {
        }
    }
    reset_needs_escape(t);
    reset_needs_escape(clear_sky());
}

} // verus!
