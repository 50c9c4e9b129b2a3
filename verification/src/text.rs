//! Numbers as text: whole numbers, tenths, thousandths, and padding.

use crate::figure::{Figure, Rounded};
use vstd::prelude::*;
use vstd::string::StringExecFns;

verus! {

/// One decimal digit as text.
pub open spec fn digit_text(d: int) -> Seq<char>
    recommends
        0 <= d <= 9,
{
    if d == 0 {
        "0"@
    } else if d == 1 {
        "1"@
    } else if d == 2 {
        "2"@
    } else if d == 3 {
        "3"@
    } else if d == 4 {
        "4"@
    } else if d == 5 {
        "5"@
    } else if d == 6 {
        "6"@
    } else if d == 7 {
        "7"@
    } else if d == 8 {
        "8"@
    } else {
        "9"@
    }
}

/// A natural number in decimal digits, without leading zeros.
pub open spec fn natural_text(n: nat) -> Seq<char>
    decreases n,
{
    if n < 10 {
        digit_text(n as int)
    } else {
        natural_text(n / 10) + digit_text((n % 10) as int)
    }
}

/// A minus sign for a negative number, nothing otherwise.
pub open spec fn sign_text(n: int) -> Seq<char> {
    if n < 0 {
        "-"@
    } else {
        Seq::empty()
    }
}

/// The size of a number without its sign.
pub open spec fn magnitude(n: int) -> nat {
    if n < 0 {
        (-n) as nat
    } else {
        n as nat
    }
}

/// A whole number in decimal digits.
pub open spec fn integer_text(n: int) -> Seq<char> {
    sign_text(n) + natural_text(magnitude(n))
}

/// A number of tenths with one digit after the point: 1205 is `120.5`.
pub open spec fn tenths_text(n: int) -> Seq<char> {
    sign_text(n) + natural_text(magnitude(n) / 10) + "."@ + digit_text((magnitude(n) % 10) as int)
}

/// The digits after the point for `f` thousandths, as few as give the value:
/// 500 is `.5`, 250 is `.25`, 125 is `.125`. A fraction of zero is `.0` if
/// `keep_one` is set and nothing otherwise.
pub open spec fn fraction_text(f: nat, keep_one: bool) -> Seq<char>
    recommends
        f < 1000,
{
    if f == 0 {
        if keep_one {
            ".0"@
        } else {
            Seq::empty()
        }
    } else if f % 100 == 0 {
        "."@ + digit_text((f / 100) as int)
    } else if f % 10 == 0 {
        "."@ + digit_text((f / 100) as int) + digit_text((f / 10 % 10) as int)
    } else {
        "."@ + digit_text((f / 100) as int) + digit_text((f / 10 % 10) as int) + digit_text(
            (f % 10) as int,
        )
    }
}

/// A number of thousandths with as few digits after the point as give its
/// value, and at least one if `keep_one` is set: 69000 is `69` or `69.0`,
/// 3500 is `3.5`.
pub open spec fn thousandths_text(n: int, keep_one: bool) -> Seq<char> {
    sign_text(n) + natural_text(magnitude(n) / 1000) + fraction_text(
        magnitude(n) % 1000,
        keep_one,
    )
}

/// A result in whole units as text. The non-finite ones are `inf`, `-inf`
/// and `NaN`.
pub open spec fn whole_figure_text(r: Rounded) -> Seq<char> {
    match r {
        Rounded::Finite(n) => integer_text(n),
        Rounded::PosInfinity => "inf"@,
        Rounded::NegInfinity => "-inf"@,
        Rounded::NotANumber => "NaN"@,
    }
}

/// A result in tenths as text. The non-finite ones are `inf`, `-inf` and
/// `NaN`.
pub open spec fn tenths_figure_text(r: Rounded) -> Seq<char> {
    match r {
        Rounded::Finite(n) => tenths_text(n),
        Rounded::PosInfinity => "inf"@,
        Rounded::NegInfinity => "-inf"@,
        Rounded::NotANumber => "NaN"@,
    }
}

/// `count` spaces.
pub open spec fn spaces_text(count: nat) -> Seq<char>
    decreases count,
{
    if count == 0 {
        Seq::empty()
    } else {
        spaces_text((count - 1) as nat) + " "@
    }
}

/// The spaces that bring a text of `len` characters up to `width`.
pub open spec fn padding(len: nat, width: nat) -> Seq<char> {
    if len < width {
        spaces_text((width - len) as nat)
    } else {
        Seq::empty()
    }
}

/// `s` moved to the right end of `width` characters; unchanged if it is at
/// least that long.
pub open spec fn right_aligned(s: Seq<char>, width: nat) -> Seq<char> {
    padding(s.len(), width) + s
}

/// `s` at the left end of `width` characters; unchanged if it is at least
/// that long.
pub open spec fn left_aligned(s: Seq<char>, width: nat) -> Seq<char> {
    s + padding(s.len(), width)
}

/// One decimal digit as text.
pub fn digit(d: u8) -> (s: &'static str)
    requires
        d <= 9,
    ensures
        s@ == digit_text(d as int),
{
    if d == 0 {
        "0"
    } else if d == 1 {
        "1"
    } else if d == 2 {
        "2"
    } else if d == 3 {
        "3"
    } else if d == 4 {
        "4"
    } else if d == 5 {
        "5"
    } else if d == 6 {
        "6"
    } else if d == 7 {
        "7"
    } else if d == 8 {
        "8"
    } else {
        "9"
    }
}

/// A natural number in decimal digits.
pub fn natural(n: u64) -> (s: String)
    ensures
        s@ == natural_text(n as nat),
    decreases n,
{
    if n < 10 {
        String::from_str(digit(n as u8))
    } else {
        natural(n / 10).concat(digit((n % 10) as u8))
    }
}

fn sign(negative: bool) -> (s: String)
    ensures
        s@ == if negative {
            "-"@
        } else {
            Seq::<char>::empty()
        },
{
    if negative {
        String::from_str("-")
    } else {
        String::new()
    }
}

fn size(n: i64) -> (m: u64)
    ensures
        m == magnitude(n as int),
{
    if n < 0 {
        (-(n + 1)) as u64 + 1
    } else {
        n as u64
    }
}

/// A whole number in decimal digits.
pub fn integer(n: i64) -> (s: String)
    ensures
        s@ == integer_text(n as int),
{
    let mut s = sign(n < 0);
    s.append(natural(size(n)).as_str());
    s
}

/// A number of tenths with one digit after the point.
pub fn tenths(n: i64) -> (s: String)
    ensures
        s@ == tenths_text(n as int),
{
    let m: u64 = size(n);
    let mut s = sign(n < 0);
    s.append(natural(m / 10).as_str());
    s.append(".");
    s.append(digit((m % 10) as u8));
    s
}

fn fraction(f: u64, keep_one: bool) -> (s: String)
    requires
        f < 1000,
    ensures
        s@ == fraction_text(f as nat, keep_one),
{
    if f == 0 {
        if keep_one {
            String::from_str(".0")
        } else {
            String::new()
        }
    } else {
        let mut s = String::from_str(".");
        s.append(digit((f / 100) as u8));
        if f % 100 != 0 {
            s.append(digit((f / 10 % 10) as u8));
            if f % 10 != 0 {
                s.append(digit((f % 10) as u8));
            }
        }
        s
    }
}

/// A number of thousandths with as few digits after the point as give its
/// value, and at least one if `keep_one` is set.
pub fn thousandths(n: i64, keep_one: bool) -> (s: String)
    ensures
        s@ == thousandths_text(n as int, keep_one),
{
    let m: u64 = size(n);
    let mut s = sign(n < 0);
    s.append(natural(m / 1000).as_str());
    s.append(fraction(m % 1000, keep_one).as_str());
    s
}

impl Figure {
    /// The result as text, for one in whole units.
    pub fn whole_text(self) -> (s: String)
        ensures
            s@ == whole_figure_text(self@),
    {
        match self {
            Figure::Finite(n) => integer(n),
            Figure::PosInfinity => String::from_str("inf"),
            Figure::NegInfinity => String::from_str("-inf"),
            Figure::NotANumber => String::from_str("NaN"),
        }
    }

    /// The result as text, for one in tenths.
    pub fn tenths_text(self) -> (s: String)
        ensures
            s@ == tenths_figure_text(self@),
    {
        match self {
            Figure::Finite(n) => tenths(n),
            Figure::PosInfinity => String::from_str("inf"),
            Figure::NegInfinity => String::from_str("-inf"),
            Figure::NotANumber => String::from_str("NaN"),
        }
    }
}

fn spaces(count: usize) -> (s: String)
    ensures
        s@ == spaces_text(count as nat),
{
    let mut s = String::new();
    let mut i: usize = 0;
    while i < count
        invariant
            i <= count,
            s@ == spaces_text(i as nat),
        decreases count - i,
    {
        s.append(" ");
        i = i + 1;
    }
    s
}

fn pad(len: usize, width: usize) -> (s: String)
    ensures
        s@ == padding(len as nat, width as nat),
{
    if len < width {
        spaces(width - len)
    } else {
        String::new()
    }
}

/// `s` moved to the right end of `width` characters.
pub fn align_right(s: &str, width: usize) -> (out: String)
    ensures
        out@ == right_aligned(s@, width as nat),
{
    let mut out = pad(s.unicode_len(), width);
    out.append(s);
    out
}

/// `s` at the left end of `width` characters.
pub fn align_left(s: &str, width: usize) -> (out: String)
    ensures
        out@ == left_aligned(s@, width as nat),
{
    let mut out = String::from_str(s);
    out.append(pad(s.unicode_len(), width).as_str());
    out
}

} // verus!
