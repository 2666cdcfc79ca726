//! Colors with eight bits per channel, and their hexadecimal notation.

use vstd::prelude::*;
use vstd::string::*;

verus! {

/// A color. Contains r, g, b, and a values.
#[derive(Debug, Clone, Copy, PartialEq, Eq, Hash, Structural)]
pub struct Color {
    pub r: u8,
    pub g: u8,
    pub b: u8,
    pub a: u8,
}

/// Whether `b` is the ASCII code of a hexadecimal digit, in either case.
pub open spec fn is_hex_digit(b: u8) -> bool {
    (0x30 <= b <= 0x39) || (0x41 <= b <= 0x46) || (0x61 <= b <= 0x66)
}

/// The value of the hexadecimal digit with ASCII code `b`.
pub open spec fn hex_digit_value(b: u8) -> int {
    if 0x30 <= b <= 0x39 {
        b - 0x30
    } else if 0x41 <= b <= 0x46 {
        b - 0x41 + 10
    } else {
        b - 0x61 + 10
    }
}

/// Whether the two bytes `hi`, `lo` are read as one channel: two hexadecimal
/// digits, or a plus sign followed by one digit.
pub open spec fn is_hex_pair(hi: u8, lo: u8) -> bool {
    (is_hex_digit(hi) || hi == 0x2b) && is_hex_digit(lo)
}

/// The channel value that the pair `hi`, `lo` denotes.
pub open spec fn hex_pair_value(hi: u8, lo: u8) -> int {
    if hi == 0x2b {
        hex_digit_value(lo)
    } else {
        16 * hex_digit_value(hi) + hex_digit_value(lo)
    }
}

/// The bytes of a color notation without its optional leading `#`.
pub open spec fn hex_body(bytes: Seq<u8>) -> Seq<u8> {
    if bytes.len() > 0 && bytes[0] == 0x23 {
        bytes.subrange(1, bytes.len() as int)
    } else {
        bytes
    }
}

/// Whether `bytes` is a color notation: an optional `#`, then three channel
/// pairs, and a fourth pair for alpha exactly when eight bytes follow the `#`.
pub open spec fn is_hex_color(bytes: Seq<u8>) -> bool {
    let body = hex_body(bytes);
    &&& body.len() >= 6
    &&& is_hex_pair(body[0], body[1])
    &&& is_hex_pair(body[2], body[3])
    &&& is_hex_pair(body[4], body[5])
    &&& body.len() == 8 ==> is_hex_pair(body[6], body[7])
}

/// The color that the notation `bytes` denotes; alpha is 255 unless the
/// notation has exactly four pairs.
pub open spec fn hex_color_value(bytes: Seq<u8>) -> Color {
    let body = hex_body(bytes);
    Color {
        r: hex_pair_value(body[0], body[1]) as u8,
        g: hex_pair_value(body[2], body[3]) as u8,
        b: hex_pair_value(body[4], body[5]) as u8,
        a: if body.len() == 8 {
            hex_pair_value(body[6], body[7]) as u8
        } else {
            255
        },
    }
}

/// The lower-case hexadecimal digit for `n`, for `n` below 16.
pub open spec fn hex_char(n: int) -> char {
    if n == 0 { '0' } else if n == 1 { '1' } else if n == 2 { '2' } else if n == 3 { '3' }
    else if n == 4 { '4' } else if n == 5 { '5' } else if n == 6 { '6' } else if n == 7 { '7' }
    else if n == 8 { '8' } else if n == 9 { '9' } else if n == 10 { 'a' } else if n == 11 { 'b' }
    else if n == 12 { 'c' } else if n == 13 { 'd' } else if n == 14 { 'e' } else { 'f' }
}

/// The two lower-case hexadecimal digits of one channel.
pub open spec fn hex_pair(v: u8) -> Seq<char> {
    seq![hex_char(v as int / 16), hex_char(v as int % 16)]
}

/// The notation of a color: `#`, then red, green, blue and alpha, two digits each.
pub open spec fn hex_notation(c: Color) -> Seq<char> {
    seq!['#'] + hex_pair(c.r) + hex_pair(c.g) + hex_pair(c.b) + hex_pair(c.a)
}

/// The channels of a color packed into 32 bits, red in the highest byte.
pub open spec fn unpack(color: u32) -> Color {
    Color {
        r: (color / 0x100_0000) as u8,
        g: (color / 0x1_0000 % 0x100) as u8,
        b: (color / 0x100 % 0x100) as u8,
        a: (color % 0x100) as u8,
    }
}

fn digit_value(b: u8) -> (v: u8)
    requires
        is_hex_digit(b),
    ensures
        v == hex_digit_value(b),
        v < 16,
{
    if b <= 0x39 {
        b - 0x30
    } else if b <= 0x46 {
        b - 0x41 + 10
    } else {
        b - 0x61 + 10
    }
}

fn pair_value(hi: u8, lo: u8) -> (v: u8)
    requires
        is_hex_pair(hi, lo),
    ensures
        v == hex_pair_value(hi, lo),
{
    if hi == 0x2b {
        digit_value(lo)
    } else {
        16 * digit_value(hi) + digit_value(lo)
    }
}

fn digit_str(n: u8) -> (s: &'static str)
    requires
        n < 16,
    ensures
        s@ == seq![hex_char(n as int)],
{
    proof {
        reveal_strlit("0"); reveal_strlit("1"); reveal_strlit("2"); reveal_strlit("3");
        reveal_strlit("4"); reveal_strlit("5"); reveal_strlit("6"); reveal_strlit("7");
        reveal_strlit("8"); reveal_strlit("9"); reveal_strlit("a"); reveal_strlit("b");
        reveal_strlit("c"); reveal_strlit("d"); reveal_strlit("e"); reveal_strlit("f");
    }
    let s = match n {
        0 => "0", 1 => "1", 2 => "2", 3 => "3", 4 => "4", 5 => "5", 6 => "6", 7 => "7",
        8 => "8", 9 => "9", 10 => "a", 11 => "b", 12 => "c", 13 => "d", 14 => "e", _ => "f",
    };
    assert(s@ =~= seq![hex_char(n as int)]);
    s
}

fn push_pair(out: &mut String, v: u8)
    ensures
        final(out)@ == old(out)@ + hex_pair(v),
{
    out.append(digit_str(v / 16));
    out.append(digit_str(v % 16));
    assert(out@ =~= old(out)@ + hex_pair(v));
}

impl Color {
    /// Red (#FF0000).
    pub fn red() -> (c: Color)
        ensures c == (Color { r: 255, g: 0, b: 0, a: 255 }),
    {
        Color::rgb(255, 0, 0)
    }

    /// Green (#00FF00).
    pub fn green() -> (c: Color)
        ensures c == (Color { r: 0, g: 255, b: 0, a: 255 }),
    {
        Color::rgb(0, 255, 0)
    }

    /// Blue (#0000FF).
    pub fn blue() -> (c: Color)
        ensures c == (Color { r: 0, g: 0, b: 255, a: 255 }),
    {
        Color::rgb(0, 0, 255)
    }

    /// Yellow (#FFFF00).
    pub fn yellow() -> (c: Color)
        ensures c == (Color { r: 255, g: 255, b: 0, a: 255 }),
    {
        Color::rgb(255, 255, 0)
    }

    /// Cyan (#00FFFF).
    pub fn cyan() -> (c: Color)
        ensures c == (Color { r: 0, g: 255, b: 255, a: 255 }),
    {
        Color::rgb(0, 255, 255)
    }

    /// Magenta (#FF00FF).
    pub fn magenta() -> (c: Color)
        ensures c == (Color { r: 255, g: 0, b: 255, a: 255 }),
    {
        Color::rgb(255, 0, 255)
    }

    /// White (#FFFFFF).
    pub fn white() -> (c: Color)
        ensures c == (Color { r: 255, g: 255, b: 255, a: 255 }),
    {
        Color::rgb(255, 255, 255)
    }

    /// Black (#000000).
    pub fn black() -> (c: Color)
        ensures c == (Color { r: 0, g: 0, b: 0, a: 255 }),
    {
        Color::rgb(0, 0, 0)
    }

    /// Transparent (#00000000).
    pub fn transparent() -> (c: Color)
        ensures c == (Color { r: 0, g: 0, b: 0, a: 0 }),
    {
        Color::rgba(0, 0, 0, 0)
    }

    /// Creates a new `Color` from the given RGB values, fully opaque.
    pub fn rgb(r: u8, g: u8, b: u8) -> (c: Color)
        ensures
            c == (Color { r, g, b, a: 255 }),
    {
        Color { r, g, b, a: 255 }
    }

    /// Creates a new `Color` from the given RGBA values.
    pub fn rgba(r: u8, g: u8, b: u8, a: u8) -> (c: Color)
        ensures
            c == (Color { r, g, b, a }),
    {
        Color { r, g, b, a }
    }

    /// Creates a new `Color` from the given hex string.
    pub fn from_hex(hex: &str) -> (c: Color)
        requires
            is_hex_color(hex.spec_bytes()),
        ensures
            c == hex_color_value(hex.spec_bytes()),
    {
        let bytes = hex.as_bytes();
        let start: usize = if bytes.len() > 0 && bytes[0] == 0x23 { 1 } else { 0 };
        proof {
            let body = hex_body(bytes@);
            assert(forall|i: int| 0 <= i < body.len() ==> body[i] == bytes@[start + i]);
        }
        let r = pair_value(bytes[start], bytes[start + 1]);
        let g = pair_value(bytes[start + 2], bytes[start + 3]);
        let b = pair_value(bytes[start + 4], bytes[start + 5]);
        let a = if bytes.len() - start == 8 {
            pair_value(bytes[start + 6], bytes[start + 7])
        } else {
            255
        };
        Color { r, g, b, a }
    }

    /// Outputs the color as a hex string.
    pub fn to_hex(&self) -> (s: String)
        ensures
            s@ == hex_notation(*self),
    {
        let mut out = String::from_str("#");
        proof {
            reveal_strlit("#");
            assert(out@ =~= seq!['#']);
        }
        push_pair(&mut out, self.r);
        push_pair(&mut out, self.g);
        push_pair(&mut out, self.b);
        push_pair(&mut out, self.a);
        out
    }
}

impl From<u32> for Color {
    /// Creates a new `Color` from a 32-bit integer. Bit interpretation is as follows:
    /// - 0..8: Alpha
    /// - 8..16: Blue
    /// - 16..24: Green
    /// - 24..32: Red
    /// This means that `0xFF000000` is 100% red.
    fn from(color: u32) -> (c: Color) {
        assert((color >> 24) & 0xFF == color / 0x100_0000) by (bit_vector);
        assert((color >> 16) & 0xFF == color / 0x1_0000 % 0x100) by (bit_vector);
        assert((color >> 8) & 0xFF == color / 0x100 % 0x100) by (bit_vector);
        assert(color & 0xFF == color % 0x100) by (bit_vector);
        Color {
            r: ((color >> 24) & 0xFF) as u8,
            g: ((color >> 16) & 0xFF) as u8,
            b: ((color >> 8) & 0xFF) as u8,
            a: (color & 0xFF) as u8,
        }
    }
}

impl vstd::std_specs::convert::FromSpecImpl<u32> for Color {
    open spec fn obeys_from_spec() -> bool {
        true
    }

    open spec fn from_spec(color: u32) -> Color {
        unpack(color)
    }
}

} // verus!
