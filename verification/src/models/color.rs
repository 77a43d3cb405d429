//! RGB colours.

use vstd::prelude::*;

verus! {

/// The three channels of a colour, as plain numbers.
pub struct Rgb {
    pub red: u8,
    pub green: u8,
    pub blue: u8,
}

/// Color is any RGB color, values from 0 to 255.
#[derive(Clone, Copy, Debug, PartialEq, Eq, Structural)]
pub struct Color {
    red: u8,
    green: u8,
    blue: u8,
}

impl View for Color {
    type V = Rgb;

    closed spec fn view(&self) -> Rgb {
        Rgb { red: self.red, green: self.green, blue: self.blue }
    }
}

impl Color {
    /// Create a new default color: black.
    pub fn new() -> (c: Self)
        ensures
            c@ == (Rgb { red: 0, green: 0, blue: 0 }),
    {
        Color { red: 0, green: 0, blue: 0 }
    }

    /// Create a color from its three channels.
    pub fn rgb(red: u8, green: u8, blue: u8) -> (c: Self)
        ensures
            c@ == (Rgb { red, green, blue }),
    {
        Color { red, green, blue }
    }

    /// Accessor for this color's read-only red value.
    pub fn red(&self) -> (v: u8)
        ensures
            v == self@.red,
    {
        self.red
    }

    /// Accessor for this color's read-only green value.
    pub fn green(&self) -> (v: u8)
        ensures
            v == self@.green,
    {
        self.green
    }

    /// Accessor for this color's read-only blue value.
    pub fn blue(&self) -> (v: u8)
        ensures
            v == self@.blue,
    {
        self.blue
    }

    /// The color with the given channels.
    pub closed spec fn of_rgb(rgb: Rgb) -> Color {
        Color { red: rgb.red, green: rgb.green, blue: rgb.blue }
    }

    /// A color is determined by its channels.
    pub proof fn lemma_of_rgb(c: Color)
        ensures
            Self::of_rgb(c@) == c,
    {
    }
}

/// Whether the character is one of the ten decimal digits.
pub open spec fn is_digit(c: char) -> bool {
    '0' <= c <= '9'
}

/// The number that a decimal digit stands for.
pub open spec fn digit_value(c: char) -> nat {
    if is_digit(c) {
        (c as u32 - '0' as u32) as nat
    } else {
        0
    }
}

/// The number that a row of decimal digits stands for.
pub open spec fn decimal(digits: Seq<char>) -> nat
    decreases digits.len(),
{
    if digits.len() == 0 {
        0
    } else {
        decimal(digits.drop_last()) * 10 + digit_value(digits.last())
    }
}

/// A field without the plus sign in front of it, if it has one.
pub open spec fn unsigned(field: Seq<char>) -> Seq<char> {
    if field.len() > 0 && field[0] == '+' {
        field.skip(1)
    } else {
        field
    }
}

/// The channel that a field of a color string gives: the number that it
/// holds, where it is made of decimal digits, with or without a plus sign in
/// front, and the number is at most 255. Any other field gives zero.
pub open spec fn channel(field: Seq<char>) -> u8 {
    let digits = unsigned(field);
    if digits.len() > 0 && (forall|i: int| 0 <= i < digits.len() ==> is_digit(#[trigger] digits[i]))
        && decimal(digits) <= 255 {
        decimal(digits) as u8
    } else {
        0
    }
}

/// The fields of a text whose fields are parted by commas. Read from the
/// left, a comma ends a field and opens the next, and any other character
/// goes to the open field. A text with no comma is one field, and so is the
/// empty text.
pub open spec fn fields(text: Seq<char>) -> Seq<Seq<char>>
    decreases text.len(),
{
    if text.len() == 0 {
        seq![Seq::empty()]
    } else {
        let before = fields(text.drop_last());
        if text.last() == ',' {
            before.push(Seq::empty())
        } else {
            before.drop_last().push(before.last().push(text.last()))
        }
    }
}

/// The color that a text gives, if it gives one: the text has three fields,
/// and they are the red, the green and the blue channel.
pub open spec fn color_of_text(text: Seq<char>) -> Option<Rgb> {
    let parts = fields(text);
    if parts.len() == 3 {
        Some(Rgb { red: channel(parts[0]), green: channel(parts[1]), blue: channel(parts[2]) })
    } else {
        None
    }
}

/// More digits never stand for a smaller number.
proof fn lemma_decimal_grows(digits: Seq<char>, n: int)
    requires
        0 <= n <= digits.len(),
    ensures
        decimal(digits.take(n)) <= decimal(digits),
    decreases digits.len() - n,
{
    if n < digits.len() {
        lemma_decimal_grows(digits.drop_last(), n);
        assert(digits.drop_last().take(n) =~= digits.take(n));
    } else {
        assert(digits.take(n) =~= digits);
    }
}

/// The channel that a field of a color string gives.
fn parse_channel(field: &Vec<char>) -> (value: u8)
    ensures
        value == channel(field@),
{
    let start: usize = if field.len() > 0 && field[0] == '+' {
        1
    } else {
        0
    };
    let ghost digits = unsigned(field@);
    if start == field.len() {
        return 0;
    }
    let mut value: u16 = 0;
    let mut i: usize = start;
    while i < field.len()
        invariant
            start <= i <= field@.len(),
            digits == unsigned(field@),
            digits.len() == field@.len() - start,
            digits.len() > 0,
            forall|j: int| 0 <= j < digits.len() ==> digits[j] == field@[j + start],
            forall|j: int| 0 <= j < i - start ==> is_digit(#[trigger] digits[j]),
            value == decimal(digits.take(i - start)),
            value <= 255,
        decreases field@.len() - i,
    {
        let c = field[i];
        if !('0' <= c && c <= '9') {
            assert(!is_digit(digits[i - start]));
            return 0;
        }
        let digit = (c as u32 - '0' as u32) as u16;
        proof {
            let upto = digits.take(i - start + 1);
            assert(upto.drop_last() =~= digits.take(i - start));
            assert(upto.last() == c);
            assert(decimal(upto) == value * 10 + digit);
            lemma_decimal_grows(digits, i - start + 1);
        }
        if value * 10 + digit > 255 {
            return 0;
        }
        value = value * 10 + digit;
        i = i + 1;
    }
    assert(digits.take(i - start) =~= digits);
    value as u8
}

/// The characters of a text.
fn chars_of(text: &str) -> (chars: Vec<char>)
    ensures
        chars@ == text@,
{
    let mut chars: Vec<char> = Vec::new();
    for c in it: text.chars()
        invariant
            it.seq() == text@,
            chars@.len() == it.index(),
            forall|i: int| 0 <= i < chars@.len() ==> chars@[i] == text@[i],
    {
        chars.push(c);
    }
    assert(chars@ =~= text@);
    chars
}

impl Color {
    /// Create a new color from a string slice.
    ///
    /// The expected format is `r,g,b`, where each value can be 0-255. A
    /// value that is no number in this range counts as zero. A text with
    /// more or fewer than three values is refused.
    pub fn from_str(s: &str) -> (r: Result<Self, String>)
        ensures
            match r {
                Ok(color) => color_of_text(s@) == Some(color@),
                Err(e) => color_of_text(s@) is None && e@ == "Invalid color string"@,
            },
    {
        let chars = chars_of(s);
        let mut parts: Vec<u8> = Vec::new();
        let mut field: Vec<char> = Vec::new();
        let ghost mut done: Seq<Seq<char>> = Seq::empty();
        let mut i: usize = 0;
        assert(chars@.take(0) =~= Seq::empty());
        assert(fields(Seq::<char>::empty()) =~= done.push(field@));
        while i < chars.len()
            invariant
                i <= chars@.len(),
                fields(chars@.take(i as int)) == done.push(field@),
                parts@.len() == done.len(),
                forall|j: int| 0 <= j < done.len() ==> parts@[j] == channel(#[trigger] done[j]),
            decreases chars@.len() - i,
        {
            let c = chars[i];
            proof {
                let upto = chars@.take(i + 1);
                assert(upto.drop_last() =~= chars@.take(i as int));
                assert(upto.last() == c);
                assert(done.push(field@).drop_last() =~= done);
            }
            if c == ',' {
                let value = parse_channel(&field);
                parts.push(value);
                proof {
                    done = done.push(field@);
                }
                field = Vec::new();
            } else {
                field.push(c);
            }
            i = i + 1;
        }
        assert(chars@.take(i as int) =~= chars@);
        let value = parse_channel(&field);
        parts.push(value);
        proof {
            done = done.push(field@);
        }
        if parts.len() == 3 {
            Ok(Color { red: parts[0], green: parts[1], blue: parts[2] })
        } else {
            Err(String::from_str("Invalid color string"))
        }
    }
}

impl std::str::FromStr for Color {
    type Err = String;

    /// Create a new color from a string slice, as [`Color::from_str`] does:
    /// this is what `parse` on a string calls.
    fn from_str(s: &str) -> (r: Result<Self, String>)
        ensures
            match r {
                Ok(color) => color_of_text(s@) == Some(color@),
                Err(e) => color_of_text(s@) is None && e@ == "Invalid color string"@,
            },
    {
        Color::from_str(s)
    }
}

impl Default for Color {
    fn default() -> (c: Self)
        ensures
            c@ == (Rgb { red: 0, green: 0, blue: 0 }),
    {
        Color::new()
    }
}

} // verus!
