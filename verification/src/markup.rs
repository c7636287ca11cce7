//! Numbers in decimal and the markup of a styled text.

use vstd::prelude::*;
use vstd::string::*;
use vstd::utf8::is_ascii_chars;
use crate::cairo_plotter::{TextRun, TextRunView};

verus! {

/// The character of the digit `d`, for `0 <= d < 10`.
pub open spec fn digit_char(d: int) -> char {
    "0123456789"@[d]
}

/// The decimal digits of `n`, most significant first, without leading
/// zeros.
pub open spec fn digits(n: nat) -> Seq<char>
    decreases n,
{
    if n < 10 {
        seq![digit_char(n as int)]
    } else {
        digits(n / 10).push(digit_char((n % 10) as int))
    }
}

/// A whole number in decimal, with a minus sign in front where it is
/// negative.
pub open spec fn signed_digits(v: int) -> Seq<char> {
    if v < 0 {
        seq!['-'] + digits((-v) as nat)
    } else {
        digits(v as nat)
    }
}

/// The digits of `m` followed by `tail`, and `tail` alone where `m` is zero
/// and `tail` holds a digit already.
pub open spec fn digits_before(m: nat, tail: Seq<char>) -> Seq<char> {
    if m == 0 && tail.len() > 0 {
        tail
    } else {
        digits(m) + tail
    }
}

/// The characters of the digits `ds`, which stand least significant first.
pub open spec fn reversed_digits(ds: Seq<u8>) -> Seq<char> {
    Seq::new(ds.len(), |i: int| digit_char(ds[ds.len() - 1 - i] as int))
}

/// `n` in decimal.
pub fn decimal(n: u64) -> (s: String)
    ensures
        s@ == digits(n as nat),
{
    let mut least_first: Vec<u8> = Vec::new();
    let mut m: u64 = n;
    assert(digits_before(m as nat, reversed_digits(least_first@)) =~= digits(n as nat));
    loop
        invariant_except_break
            least_first@.len() == 0 || m > 0,
        invariant
            forall|i: int| 0 <= i < least_first@.len() ==> (#[trigger] least_first@[i]) < 10,
            digits_before(m as nat, reversed_digits(least_first@)) == digits(n as nat),
        ensures
            m == 0,
            least_first@.len() > 0,
        decreases m,
    {
        let ghost before = reversed_digits(least_first@);
        let ghost was = m;
        least_first.push((m % 10) as u8);
        m = m / 10;
        proof {
            let tail = reversed_digits(least_first@);
            assert(tail =~= seq![digit_char((was % 10) as int)] + before);
            if was < 10 {
                assert(digits(was as nat) + before =~= tail);
            } else {
                assert(digits(was as nat) + before =~= digits(m as nat) + tail);
            }
        }
        if m == 0 {
            break;
        }
    }
    let digit_names = "0123456789";
    proof {
        reveal_strlit("0123456789");
        assert(is_ascii_chars(digit_names@)) by {
            assert forall|i: int| 0 <= i < digit_names@.len() implies (digit_names@[i] as nat) < 128 by {}
        }
    }
    let ghost all = reversed_digits(least_first@);
    let mut s = String::new();
    let mut k: usize = least_first.len();
    while k > 0
        invariant
            k <= least_first@.len(),
            all == reversed_digits(least_first@),
            digit_names@ == "0123456789"@,
            digit_names@.len() == 10,
            is_ascii_chars(digit_names@),
            forall|i: int| 0 <= i < least_first@.len() ==> (#[trigger] least_first@[i]) < 10,
            s@ == all.take(least_first@.len() - k),
        decreases k,
    {
        k -= 1;
        let d: usize = least_first[k] as usize;
        s.append(digit_names.substring_ascii(d, d + 1));
        assert(s@ =~= all.take(least_first@.len() - k));
    }
    assert(all.take(least_first@.len() as int) =~= all);
    s
}

/// `v` in decimal, with a minus sign in front where it is negative.
pub fn signed_decimal(v: i32) -> (s: String)
    ensures
        s@ == signed_digits(v as int),
{
    if v < 0 {
        let mut s = String::from_str("-");
        proof {
            reveal_strlit("-");
            assert(s@ =~= seq!['-']);
        }
        let rest = decimal((-(v as i64)) as u64);
        s.append(rest.as_str());
        s
    } else {
        decimal(v as u64)
    }
}

/// The markup of a styled run: one span with the font, the colour and the
/// size of the run around its text, which is taken as it is.
pub open spec fn markup_of(run: TextRunView) -> Seq<char> {
    "<span face=\""@ + run.face + "\" foreground=\""@ + run.foreground + "\" size=\""@ + signed_digits(
        run.size as int,
    ) + "\">"@ + run.text + "</span>"@
}

impl TextRun {
    /// The markup that the text layout of a canvas shapes the run from.
    pub fn markup(&self) -> (s: String)
        ensures
            s@ == markup_of(self@),
    {
        let mut s = String::from_str("<span face=\"");
        s.append(self.face.as_str());
        s.append("\" foreground=\"");
        s.append(self.foreground.as_str());
        s.append("\" size=\"");
        s.append(signed_decimal(self.size).as_str());
        s.append("\">");
        s.append(self.text.as_str());
        s.append("</span>");
        s
    }
}

} // verus!
