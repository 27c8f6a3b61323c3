use vstd::prelude::*;
use vstd::string::StrSliceExecFns;
use vstd::string::StringExecFns;

verus! {

/// A gamma-encoded colour with one byte per channel, as sent to a display.
#[derive(Clone, Copy, Debug, PartialEq, Eq, Structural)]
pub struct ColorRgbU8 {
    pub r: u8,
    pub g: u8,
    pub b: u8,
}

/// The uppercase hexadecimal digit for `n` in `0..16`.
pub open spec fn hex_digit(n: int) -> char {
    seq!['0', '1', '2', '3', '4', '5', '6', '7', '8', '9', 'A', 'B', 'C', 'D', 'E', 'F'][n]
}

/// Two uppercase hex digits for a byte, high nibble first.
pub open spec fn hex_byte(b: u8) -> Seq<char> {
    seq![hex_digit(b as int / 16), hex_digit(b as int % 16)]
}

/// Appends the two hex digits of `b` to `s`.
fn push_hex_byte(s: &mut String, b: u8)
    ensures
        final(s)@ == old(s)@ + hex_byte(b),
{
    let digits = "0123456789ABCDEF";
    proof {
        reveal_strlit("0123456789ABCDEF");
        assert(digits@ == seq!['0', '1', '2', '3', '4', '5', '6', '7', '8', '9', 'A', 'B', 'C', 'D', 'E', 'F']);
    }
    let hi = (b / 16) as usize;
    let lo = (b % 16) as usize;
    s.append(digits.substring_ascii(hi, hi + 1));
    s.append(digits.substring_ascii(lo, lo + 1));
    proof {
        assert(old(s)@ + hex_byte(b) =~= old(s)@ + digits@.subrange(hi as int, hi + 1) + digits@.subrange(lo as int, lo + 1));
    }
}

impl ColorRgbU8 {
    /// The six-digit uppercase code `RRGGBB` of this colour.
    pub open spec fn hex_code(self) -> Seq<char> {
        hex_byte(self.r) + hex_byte(self.g) + hex_byte(self.b)
    }

    /// Renders the colour as six uppercase hex digits, `RRGGBB`.
    pub fn to_hex(&self) -> (s: String)
        ensures
            s@ == self.hex_code(),
    {
        let mut s = String::new();
        push_hex_byte(&mut s, self.r);
        push_hex_byte(&mut s, self.g);
        push_hex_byte(&mut s, self.b);
        proof {
            assert(s@ =~= self.hex_code());
        }
        s
    }

    pub fn new(r: u8, g: u8, b: u8) -> (c: ColorRgbU8)
        ensures
            c.r == r,
            c.g == g,
            c.b == b,
    {
        ColorRgbU8 { r, g, b }
    }

    /// Unpacks a `0xRRGGBB` word; the top byte is ignored.
    pub fn from_packed(c: u32) -> (col: ColorRgbU8)
        ensures
            col.r == (c / 0x1_0000) % 0x100,
            col.g == (c / 0x100) % 0x100,
            col.b == c % 0x100,
    {
        let r = ((c / 0x1_0000) % 0x100) as u8;
        let g = ((c / 0x100) % 0x100) as u8;
        let b = (c % 0x100) as u8;
        ColorRgbU8 { r, g, b }
    }
}

} // verus!
