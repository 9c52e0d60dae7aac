use vstd::prelude::*;
use vstd::string::*;
use crate::tint::Tint;

verus! {

/// A line of text with an optional foreground colour.
pub struct StyledLine {
    pub text: String,
    pub tint: Option<Tint>,
}

/// Where a line of text goes in a box: its first cell and how many columns
/// it may use before it is cut off.
#[derive(Clone, Copy, Debug, PartialEq, Eq, Structural)]
pub struct TextPlacement {
    pub x: u16,
    pub y: u16,
    pub width: u16,
}

/// One character of text and the colour it is drawn in (`None`: unstyled).
#[derive(Clone, Copy, Debug, PartialEq, Eq, Structural)]
pub struct TintedGlyph {
    pub ch: char,
    pub tint: Option<Tint>,
}

/// The character for decimal digit `d`.
pub open spec fn digit_char(d: int) -> char {
    if d == 0 {
        '0'
    } else if d == 1 {
        '1'
    } else if d == 2 {
        '2'
    } else if d == 3 {
        '3'
    } else if d == 4 {
        '4'
    } else if d == 5 {
        '5'
    } else if d == 6 {
        '6'
    } else if d == 7 {
        '7'
    } else if d == 8 {
        '8'
    } else {
        '9'
    }
}

/// The decimal digits of `n`, without leading zeros.
pub open spec fn spec_decimal(n: nat) -> Seq<char>
    decreases n,
{
    if n < 10 {
        seq![digit_char(n as int)]
    } else {
        spec_decimal(n / 10).push(digit_char((n % 10) as int))
    }
}

/// The one-character text of decimal digit `d`.
fn digit_text(d: u64) -> (r: &'static str)
    requires
        d < 10,
    ensures
        r@ == seq![digit_char(d as int)],
{
    proof {
        reveal_strlit("0");
        reveal_strlit("1");
        reveal_strlit("2");
        reveal_strlit("3");
        reveal_strlit("4");
        reveal_strlit("5");
        reveal_strlit("6");
        reveal_strlit("7");
        reveal_strlit("8");
        reveal_strlit("9");
    }
    match d {
        0 => "0",
        1 => "1",
        2 => "2",
        3 => "3",
        4 => "4",
        5 => "5",
        6 => "6",
        7 => "7",
        8 => "8",
        _ => "9",
    }
}

/// `n` written in decimal.
pub fn decimal(n: u64) -> (r: String)
    ensures
        r@ == spec_decimal(n as nat),
    decreases n,
{
    if n < 10 {
        digit_text(n).to_owned()
    } else {
        let mut s = decimal(n / 10);
        s.append(digit_text(n % 10));
        s
    }
}

/// A line of `text` in colour `tint`.
pub fn styled(text: &str, tint: Tint) -> (r: StyledLine)
    ensures
        r.text@ == text@,
        r.tint == Some(tint),
{
    StyledLine { text: text.to_owned(), tint: Some(tint) }
}

/// A line of `text` without a colour of its own.
pub fn plain(text: &str) -> (r: StyledLine)
    ensures
        r.text@ == text@,
        r.tint is None,
{
    StyledLine { text: text.to_owned(), tint: None }
}

} // verus!
