//! Text building blocks shared by the data model and the renderer.

use vstd::prelude::*;
use vstd::string::*;

verus! {

/// `String::push` appends one character to the text.
pub assume_specification[ String::push ](text: &mut String, ch: char)
    ensures
        final(text)@ == old(text)@.push(ch),
;

/// The character that stands for a decimal digit.
pub open spec fn digit_char(d: nat) -> char
    recommends
        d < 10,
{
    if d == 0 {
        '0'
    } else if d == 1 {
        '1'
    } else if d == 2 {
        '2'
    } else if d == 3 {
        '3'
    } else if d == 4 {
        '4'
    } else if d == 5 {
        '5'
    } else if d == 6 {
        '6'
    } else if d == 7 {
        '7'
    } else if d == 8 {
        '8'
    } else {
        '9'
    }
}

/// The decimal text of a natural number, without leading zeros.
pub open spec fn nat_text(n: nat) -> Seq<char>
    decreases n,
{
    if n < 10 {
        seq![digit_char(n)]
    } else {
        nat_text(n / 10).push(digit_char(n % 10))
    }
}

/// The decimal text of an integer, with a minus sign where it is negative.
pub open spec fn int_text(i: int) -> Seq<char> {
    if i < 0 {
        seq!['-'] + nat_text((-i) as nat)
    } else {
        nat_text(i as nat)
    }
}

/// The text `s` cut to `width` characters, or filled up to them with blanks.
pub open spec fn fit_text(s: Seq<char>, width: nat) -> Seq<char> {
    if s.len() >= width {
        s.subrange(0, width as int)
    } else {
        s + Seq::new((width - s.len()) as nat, |i: int| ' ')
    }
}

/// The character that stands for a decimal digit.
fn digit(d: u64) -> (c: char)
    requires
        d < 10,
    ensures
        c == digit_char(d as nat),
{
    if d == 0 {
        '0'
    } else if d == 1 {
        '1'
    } else if d == 2 {
        '2'
    } else if d == 3 {
        '3'
    } else if d == 4 {
        '4'
    } else if d == 5 {
        '5'
    } else if d == 6 {
        '6'
    } else if d == 7 {
        '7'
    } else if d == 8 {
        '8'
    } else {
        '9'
    }
}

/// Writes a natural number in decimal.
pub fn format_nat(n: u64) -> (text: String)
    ensures
        text@ == nat_text(n as nat),
    decreases n,
{
    if n < 10 {
        let mut text = String::new();
        text.push(digit(n));
        assert(text@ =~= seq![digit_char(n as nat)]);
        text
    } else {
        let mut text = format_nat(n / 10);
        text.push(digit(n % 10));
        text
    }
}

/// Writes an integer in decimal.
pub fn format_int(i: i64) -> (text: String)
    ensures
        text@ == int_text(i as int),
{
    if i < 0 {
        let wide: i128 = i as i128;
        let magnitude: u64 = (-wide) as u64;
        let digits = format_nat(magnitude);
        let mut text = String::new();
        text.push('-');
        text.append(digits.as_str());
        assert(text@ =~= seq!['-'] + nat_text((-i) as nat));
        text
    } else {
        format_nat(i as u64)
    }
}

/// Cuts a text to `width` characters, or fills it up to them with blanks.
pub fn fit(content: &str, width: usize) -> (text: String)
    ensures
        text@ == fit_text(content@, width as nat),
        text@.len() == width,
{
    let len: usize = content.unicode_len();
    if len >= width {
        String::from_str(content.substring_char(0, width))
    } else {
        let mut text = String::from_str(content);
        let mut filled: usize = len;
        while filled < width
            invariant
                len <= filled <= width,
                len == content@.len(),
                text@ == content@ + Seq::new((filled - len) as nat, |i: int| ' '),
            decreases width - filled,
        {
            text.push(' ');
            filled = filled + 1;
            assert(text@ =~= content@ + Seq::new((filled - len) as nat, |i: int| ' '));
        }
        text
    }
}

} // verus!
