//! RGBA colours and their hexadecimal form.

use vstd::prelude::*;
use vstd::string::*;
use vstd::utf8::is_ascii_chars;
use crate::units::ONE;

verus! {

/// A colour; each channel counts [`ONE`]-ths, so `ONE` is full intensity.
#[derive(Clone, Copy, Debug, PartialEq, Eq, Structural)]
pub struct Color {
    pub r: i64,
    pub g: i64,
    pub b: i64,
    pub a: i64,
}

/// `c` limited to the unit interval.
pub open spec fn normalized(c: int) -> int {
    if c < 0 {
        0
    } else if c > ONE {
        ONE as int
    } else {
        c
    }
}

/// The byte nearest to `255 * c / ONE` for a channel `c`, halves rounding up,
/// after `c` has been limited to the unit interval.
pub open spec fn channel_byte(c: int) -> int {
    (normalized(c) * 255 + ONE / 2) / (ONE as int)
}

/// The upper-case hexadecimal digit of `n`, for `0 <= n < 16`.
pub open spec fn hex_digit(n: int) -> char {
    "0123456789ABCDEF"@[n]
}

/// The two hexadecimal digits of a byte, high digit first.
pub open spec fn byte_hex(b: int) -> Seq<char> {
    seq![hex_digit(b / 16), hex_digit(b % 16)]
}

/// `#RRGGBBAA` for the colour `c`.
pub open spec fn hex_color(c: Color) -> Seq<char> {
    seq!['#'] + byte_hex(channel_byte(c.r as int)) + byte_hex(channel_byte(c.g as int))
        + byte_hex(channel_byte(c.b as int)) + byte_hex(channel_byte(c.a as int))
}

impl Color {
    /// Every channel lies in the unit interval.
    pub open spec fn wf(self) -> bool {
        &&& 0 <= self.r <= ONE
        &&& 0 <= self.g <= ONE
        &&& 0 <= self.b <= ONE
        &&& 0 <= self.a <= ONE
    }

    /// The colour with the given channels, each limited to the unit interval.
    pub fn new(r: i64, g: i64, b: i64, a: i64) -> (c: Color)
        ensures
            c.wf(),
            c.r == normalized(r as int),
            c.g == normalized(g as int),
            c.b == normalized(b as int),
            c.a == normalized(a as int),
    {
        Color { r: normalize(r), g: normalize(g), b: normalize(b), a: normalize(a) }
    }
}

/// Limits a channel to the unit interval.
pub fn normalize(c: i64) -> (n: i64)
    ensures
        n == normalized(c as int),
        0 <= n <= ONE,
{
    if c < 0 {
        0
    } else if c > ONE {
        ONE
    } else {
        c
    }
}

/// The byte a channel is written as.
pub fn to_byte(c: i64) -> (b: u8)
    ensures
        b == channel_byte(c as int),
{
    let n: i64 = normalize(c);
    let scaled: i64 = (n * 255 + ONE / 2) / ONE;
    scaled as u8
}

/// Appends the two hexadecimal digits of `b` to `s`.
fn push_byte_hex(s: &mut String, b: u8)
    ensures
        final(s)@ == old(s)@ + byte_hex(b as int),
{
    let digits = "0123456789ABCDEF";
    proof {
        reveal_strlit("0123456789ABCDEF");
        assert(is_ascii_chars(digits@)) by {
            assert forall|i: int| 0 <= i < digits@.len() implies (digits@[i] as nat) < 128 by {}
        }
    }
    let hi: usize = (b / 16) as usize;
    let lo: usize = (b % 16) as usize;
    let h = digits.substring_ascii(hi, hi + 1);
    let l = digits.substring_ascii(lo, lo + 1);
    s.append(h);
    s.append(l);
    assert(s@ =~= old(s)@ + byte_hex(b as int));
}

/// The colour as `#RRGGBBAA`, upper-case, each channel rounded to the nearest
/// byte.
pub fn rgba_color(color: Color) -> (s: String)
    ensures
        s@ == hex_color(color),
{
    let mut s = String::from_str("#");
    proof {
        reveal_strlit("#");
        assert(s@ =~= seq!['#']);
    }
    push_byte_hex(&mut s, to_byte(color.r));
    push_byte_hex(&mut s, to_byte(color.g));
    push_byte_hex(&mut s, to_byte(color.b));
    push_byte_hex(&mut s, to_byte(color.a));
    s
}

/// Whether `ch` is an upper-case hexadecimal digit.
pub open spec fn is_hex_char(ch: char) -> bool {
    ('0' <= ch <= '9') || ('A' <= ch <= 'F')
}

/// The byte of a channel in the unit interval is the integer nearest to 255
/// times the channel, a half rounding up.
pub proof fn lemma_channel_byte_nearest(c: int)
    requires
        0 <= c <= ONE,
    ensures
        0 <= channel_byte(c) <= 255,
        2 * ONE * channel_byte(c) - ONE <= 2 * 255 * c < 2 * ONE * channel_byte(c) + ONE,
{
    let n = c * 255 + 5000;
    let q = n / 10000;
    assert(q == channel_byte(c));
    assert(n == 10000 * q + n % 10000);
    assert(2 * ONE * q == 20000 * q) by (nonlinear_arith)
        requires
            ONE == 10000,
    ;
    assert(2 * 255 * c == 510 * c);
}

/// The two digits of a byte are hexadecimal digits and spell the byte.
pub proof fn lemma_byte_hex_digits(b: int)
    requires
        0 <= b <= 255,
    ensures
        byte_hex(b).len() == 2,
        is_hex_char(byte_hex(b)[0]),
        is_hex_char(byte_hex(b)[1]),
        b == 16 * digit_value(byte_hex(b)[0]) + digit_value(byte_hex(b)[1]),
{
    reveal_strlit("0123456789ABCDEF");
    let hi = b / 16;
    let lo = b % 16;
    assert(0 <= hi < 16 && 0 <= lo < 16);
    lemma_hex_digit_value(hi);
    lemma_hex_digit_value(lo);
}

/// The number a hexadecimal digit stands for.
pub open spec fn digit_value(ch: char) -> int {
    if '0' <= ch <= '9' {
        ch as int - '0' as int
    } else {
        ch as int - 'A' as int + 10
    }
}

/// The digit of `n` is a hexadecimal digit and stands for `n`.
proof fn lemma_hex_digit_value(n: int)
    requires
        0 <= n < 16,
    ensures
        is_hex_char(hex_digit(n)),
        digit_value(hex_digit(n)) == n,
{
    reveal_strlit("0123456789ABCDEF");
    let digits = "0123456789ABCDEF"@;
    assert(digits[0] == '0' && digits[1] == '1' && digits[2] == '2' && digits[3] == '3');
    assert(digits[4] == '4' && digits[5] == '5' && digits[6] == '6' && digits[7] == '7');
    assert(digits[8] == '8' && digits[9] == '9' && digits[10] == 'A' && digits[11] == 'B');
    assert(digits[12] == 'C' && digits[13] == 'D' && digits[14] == 'E' && digits[15] == 'F');
}

/// The hexadecimal form of a colour with channels in the unit interval is `#`
/// followed by eight hexadecimal digits: two per channel, in the order red,
/// green, blue, alpha, spelling the byte nearest to 255 times the channel.
pub proof fn lemma_hex_color_shape(c: Color)
    requires
        c.wf(),
    ensures
        hex_color(c).len() == 9,
        hex_color(c)[0] == '#',
        forall|i: int| 1 <= i < 9 ==> is_hex_char(#[trigger] hex_color(c)[i]),
        hex_color(c).subrange(1, 3) == byte_hex(channel_byte(c.r as int)),
        hex_color(c).subrange(3, 5) == byte_hex(channel_byte(c.g as int)),
        hex_color(c).subrange(5, 7) == byte_hex(channel_byte(c.b as int)),
        hex_color(c).subrange(7, 9) == byte_hex(channel_byte(c.a as int)),
{
    lemma_channel_byte_nearest(c.r as int);
    lemma_channel_byte_nearest(c.g as int);
    lemma_channel_byte_nearest(c.b as int);
    lemma_channel_byte_nearest(c.a as int);
    let r = byte_hex(channel_byte(c.r as int));
    let g = byte_hex(channel_byte(c.g as int));
    let b = byte_hex(channel_byte(c.b as int));
    let a = byte_hex(channel_byte(c.a as int));
    lemma_byte_hex_digits(channel_byte(c.r as int));
    lemma_byte_hex_digits(channel_byte(c.g as int));
    lemma_byte_hex_digits(channel_byte(c.b as int));
    lemma_byte_hex_digits(channel_byte(c.a as int));
    let h = hex_color(c);
    assert(h =~= seq!['#', r[0], r[1], g[0], g[1], b[0], b[1], a[0], a[1]]);
    assert(h.subrange(1, 3) =~= r);
    assert(h.subrange(3, 5) =~= g);
    assert(h.subrange(5, 7) =~= b);
    assert(h.subrange(7, 9) =~= a);
}

} // verus!
