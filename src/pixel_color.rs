use vstd::prelude::*;
use vstd::string::StringExecFns;

verus! {

/// A screen colour as the window layer reads it: red in the lowest byte,
/// then green, then blue.
#[derive(Debug, Clone, Copy, PartialEq, Eq, Structural)]
pub struct PixelColor(pub u32);

pub open spec fn channel(v: u32, shift: nat) -> int {
    (v as int / pow256(shift)) % 256
}

pub open spec fn pow256(n: nat) -> int
    decreases n,
{
    if n == 0 {
        1
    } else {
        256 * pow256((n - 1) as nat)
    }
}

pub open spec fn abs_diff(a: int, b: int) -> int {
    if a >= b {
        a - b
    } else {
        b - a
    }
}

/// Colours are similar when their distance is at most `tolerance` squared,
/// that is when the squared distance is at most `tolerance` to the fourth.
pub open spec fn similar(a: u32, b: u32, tolerance: u8) -> bool {
    let dr = abs_diff(channel(a, 0), channel(b, 0));
    let dg = abs_diff(channel(a, 1), channel(b, 1));
    let db = abs_diff(channel(a, 2), channel(b, 2));
    let t = tolerance as int;
    dr * dr + dg * dg + db * db <= t * t * t * t
}

/// The upper-case hexadecimal digit of `d`.
pub open spec fn hex_digit(d: int) -> char {
    if d < 10 {
        ((d + 48) as u8) as char
    } else {
        ((d + 55) as u8) as char
    }
}

/// `#` and six upper-case hexadecimal digits of the low three bytes.
pub open spec fn hex_text(v: u32) -> Seq<char> {
    seq![
        '#',
        hex_digit((v as int / 0x100000) % 16),
        hex_digit((v as int / 0x10000) % 16),
        hex_digit((v as int / 0x1000) % 16),
        hex_digit((v as int / 0x100) % 16),
        hex_digit((v as int / 0x10) % 16),
        hex_digit(v as int % 16),
    ]
}

fn digit_text(d: u32) -> (r: &'static str)
    requires
        d < 16,
    ensures
        r@ == seq![hex_digit(d as int)],
{
    proof {
        reveal_strlit("0");
        reveal_strlit("1");
        reveal_strlit("2");
        reveal_strlit("3");
        reveal_strlit("4");
        reveal_strlit("5");
        reveal_strlit("6");
        reveal_strlit("7");
        reveal_strlit("8");
        reveal_strlit("9");
        reveal_strlit("A");
        reveal_strlit("B");
        reveal_strlit("C");
        reveal_strlit("D");
        reveal_strlit("E");
        reveal_strlit("F");
    }
    match d {
        0 => "0",
        1 => "1",
        2 => "2",
        3 => "3",
        4 => "4",
        5 => "5",
        6 => "6",
        7 => "7",
        8 => "8",
        9 => "9",
        10 => "A",
        11 => "B",
        12 => "C",
        13 => "D",
        14 => "E",
        _ => "F",
    }
}

fn distance(a: u8, b: u8) -> (r: u64)
    ensures
        r as int == abs_diff(a as int, b as int),
        r <= 255,
{
    if a >= b {
        (a - b) as u64
    } else {
        (b - a) as u64
    }
}

impl PixelColor {
    pub fn r(&self) -> (r: u8)
        ensures
            r as int == channel(self.0, 0),
    {
        let v = self.0;
        assert(v & 0xff == v % 256) by (bit_vector);
        (v & 0xff) as u8
    }

    pub fn g(&self) -> (r: u8)
        ensures
            r as int == channel(self.0, 1),
    {
        let v = self.0;
        assert((v & 0xff00) >> 8 == (v / 256) % 256) by (bit_vector);
        assert(pow256(1) == 256) by {
            reveal_with_fuel(pow256, 2);
        }
        ((v & 0xff00) >> 8) as u8
    }

    pub fn b(&self) -> (r: u8)
        ensures
            r as int == channel(self.0, 2),
    {
        let v = self.0;
        assert((v & 0xff0000) >> 16 == (v / 65536) % 256) by (bit_vector);
        assert(pow256(2) == 65536) by {
            reveal_with_fuel(pow256, 3);
        }
        ((v & 0xff0000) >> 16) as u8
    }

    pub fn rgb(&self) -> (r: (u8, u8, u8))
        ensures
            r.0 as int == channel(self.0, 0),
            r.1 as int == channel(self.0, 1),
            r.2 as int == channel(self.0, 2),
    {
        (self.r(), self.g(), self.b())
    }

    /// Whether `other` lies within `tolerance` squared of this colour.
    pub fn is_similar_to(&self, other: PixelColor, tolerance: u8) -> (r: bool)
        ensures
            r == similar(self.0, other.0, tolerance),
    {
        let (r1, g1, b1) = self.rgb();
        let (r2, g2, b2) = other.rgb();
        let dr = distance(r1, r2);
        let dg = distance(g1, g2);
        let db = distance(b1, b2);
        let t = tolerance as u64;
        assert(dr * dr <= 255 * 255 && dg * dg <= 255 * 255 && db * db <= 255 * 255) by (
        nonlinear_arith)
            requires
                dr <= 255,
                dg <= 255,
                db <= 255,
        ;
        assert(t * t <= 255 * 255) by (nonlinear_arith)
            requires
                t <= 255,
        ;
        let t2 = t * t;
        assert(t2 * t2 <= 65025 * 65025) by (nonlinear_arith)
            requires
                t2 <= 65025,
        ;
        let t4 = t2 * t2;
        assert(t4 == t * t * t * t) by (nonlinear_arith)
            requires
                t2 == t * t,
                t4 == t2 * t2,
        ;
        dr * dr + dg * dg + db * db <= t4
    }

    /// The colour as `#RRGGBB`.
    pub fn to_hex(&self) -> (r: String)
        ensures
            r@ == hex_text(self.0),
    {
        let v = self.0;
        let mut s = "#".to_owned();
        proof {
            reveal_strlit("#");
        }
        s.append(digit_text((v / 0x100000) % 16));
        s.append(digit_text((v / 0x10000) % 16));
        s.append(digit_text((v / 0x1000) % 16));
        s.append(digit_text((v / 0x100) % 16));
        s.append(digit_text((v / 0x10) % 16));
        s.append(digit_text(v % 16));
        assert(s@ =~= hex_text(v));
        s
    }
}

} // verus!
