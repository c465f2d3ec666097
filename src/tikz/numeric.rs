//! Numbers as they are written in coordinates: their plain decimal form.
use vstd::prelude::*;
use vstd::string::*;

verus! {

/// The decimal digit `d`.
pub open spec fn digit(d: nat) -> Seq<char> {
    if d == 0 {
        "0"@
    } else if d == 1 {
        "1"@
    } else if d == 2 {
        "2"@
    } else if d == 3 {
        "3"@
    } else if d == 4 {
        "4"@
    } else if d == 5 {
        "5"@
    } else if d == 6 {
        "6"@
    } else if d == 7 {
        "7"@
    } else if d == 8 {
        "8"@
    } else {
        "9"@
    }
}

/// The digits of `n`, most significant first, without leading zeros.
pub open spec fn digits(n: nat) -> Seq<char>
    decreases n,
{
    if n < 10 {
        digit(n)
    } else {
        digits(n / 10) + digit(n % 10)
    }
}

/// The natural textual form of the integer `v`: a minus sign for a negative
/// value, then its digits.
pub open spec fn decimal(v: int) -> Seq<char> {
    if v < 0 {
        "-"@ + digits((-v) as nat)
    } else {
        digits(v as nat)
    }
}

/// A value that can stand as a coordinate or a radius.
pub trait Numeric {
    /// The text that the value is written as.
    spec fn spec_literal(&self) -> Seq<char>;

    fn literal(&self) -> (r: String)
        ensures
            r@ == self.spec_literal(),
    ;
}

fn digit_text(d: u128) -> (r: &'static str)
    requires
        d < 10,
    ensures
        r@ == digit(d as nat),
{
    match d {
        0 => "0",
        1 => "1",
        2 => "2",
        3 => "3",
        4 => "4",
        5 => "5",
        6 => "6",
        7 => "7",
        8 => "8",
        _ => "9",
    }
}

/// Writes `magnitude`, negated when `negative` holds, in decimal.
pub fn signed_decimal(negative: bool, magnitude: u128) -> (r: String)
    ensures
        r@ == decimal(if negative { -(magnitude as int) } else { magnitude as int }),
{
    let mut m = magnitude;
    let mut r = String::new();
    while m >= 10
        invariant
            digits(magnitude as nat) == digits(m as nat) + r@,
        decreases m,
    {
        let mut t = String::from_str(digit_text(m % 10));
        t.append(r.as_str());
        proof {
            assert(digits(m as nat) == digits((m / 10) as nat) + digit((m % 10) as nat));
            assert(digits(magnitude as nat) =~= digits((m / 10) as nat) + t@);
        }
        r = t;
        m = m / 10;
    }
    let mut t = String::from_str(digit_text(m));
    t.append(r.as_str());
    assert(digits(magnitude as nat) =~= t@);
    if negative && magnitude > 0 {
        let mut s = String::from_str("-");
        s.append(t.as_str());
        s
    } else {
        t
    }
}

/// Writes the signed integer `v` in decimal.
pub fn integer_text(v: i128) -> (r: String)
    ensures
        r@ == decimal(v as int),
{
    if v < 0 {
        signed_decimal(true, (-(v + 1)) as u128 + 1)
    } else {
        signed_decimal(false, v as u128)
    }
}

impl Numeric for i8 {
    open spec fn spec_literal(&self) -> Seq<char> {
        decimal(*self as int)
    }

    fn literal(&self) -> (r: String) {
        integer_text(*self as i128)
    }
}

impl Numeric for i16 {
    open spec fn spec_literal(&self) -> Seq<char> {
        decimal(*self as int)
    }

    fn literal(&self) -> (r: String) {
        integer_text(*self as i128)
    }
}

impl Numeric for i32 {
    open spec fn spec_literal(&self) -> Seq<char> {
        decimal(*self as int)
    }

    fn literal(&self) -> (r: String) {
        integer_text(*self as i128)
    }
}

impl Numeric for i64 {
    open spec fn spec_literal(&self) -> Seq<char> {
        decimal(*self as int)
    }

    fn literal(&self) -> (r: String) {
        integer_text(*self as i128)
    }
}

impl Numeric for i128 {
    open spec fn spec_literal(&self) -> Seq<char> {
        decimal(*self as int)
    }

    fn literal(&self) -> (r: String) {
        integer_text(*self)
    }
}

impl Numeric for isize {
    open spec fn spec_literal(&self) -> Seq<char> {
        decimal(*self as int)
    }

    fn literal(&self) -> (r: String) {
        integer_text(*self as i128)
    }
}

impl Numeric for u8 {
    open spec fn spec_literal(&self) -> Seq<char> {
        decimal(*self as int)
    }

    fn literal(&self) -> (r: String) {
        signed_decimal(false, *self as u128)
    }
}

impl Numeric for u16 {
    open spec fn spec_literal(&self) -> Seq<char> {
        decimal(*self as int)
    }

    fn literal(&self) -> (r: String) {
        signed_decimal(false, *self as u128)
    }
}

impl Numeric for u32 {
    open spec fn spec_literal(&self) -> Seq<char> {
        decimal(*self as int)
    }

    fn literal(&self) -> (r: String) {
        signed_decimal(false, *self as u128)
    }
}

impl Numeric for u64 {
    open spec fn spec_literal(&self) -> Seq<char> {
        decimal(*self as int)
    }

    fn literal(&self) -> (r: String) {
        signed_decimal(false, *self as u128)
    }
}

impl Numeric for u128 {
    open spec fn spec_literal(&self) -> Seq<char> {
        decimal(*self as int)
    }

    fn literal(&self) -> (r: String) {
        signed_decimal(false, *self as u128)
    }
}

impl Numeric for usize {
    open spec fn spec_literal(&self) -> Seq<char> {
        decimal(*self as int)
    }

    fn literal(&self) -> (r: String) {
        signed_decimal(false, *self as u128)
    }
}

} // verus!
