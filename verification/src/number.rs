//! Numbers as they stand in a document: exact decimals.

use vstd::prelude::*;
use crate::text::{decimal_digits, digits, integer_text, magnitude, push_chars, push_integer, push_zeros, zeros};

verus! {

/// The largest count of digits behind the point that is written out in
/// place. A number with more is written with an exponent.
pub const POSITIONAL_MAX: i16 = 20;

/// The number `mantissa * 10^exponent`.
///
/// The two parts are kept as given: `50 * 10^-1` and `5 * 10^0` are the same
/// quantity and different numbers, written `5.0` and `5`.
#[derive(Debug, Clone, Copy, PartialEq, Eq, Structural, Hash)]
pub struct Number {
    pub mantissa: i64,
    pub exponent: i16,
}

/// The digits `d` of a magnitude with the point set `k` places from the
/// right, and zeros put in front where `d` is too short for that.
pub open spec fn point_text(d: Seq<char>, k: int) -> Seq<char> {
    if d.len() > k {
        d.subrange(0, d.len() - k) + seq!['.'] + d.subrange(d.len() - k, d.len() as int)
    } else {
        seq!['0', '.'] + zeros((k - d.len()) as nat) + d
    }
}

impl Number {
    /// The mantissa without its sign.
    pub open spec fn magnitude(self) -> nat {
        if self.mantissa < 0 {
            (-self.mantissa) as nat
        } else {
            self.mantissa as nat
        }
    }

    /// The sign as it is written: a minus for a negative mantissa, nothing
    /// otherwise.
    pub open spec fn sign_text(self) -> Seq<char> {
        if self.mantissa < 0 {
            seq!['-']
        } else {
            Seq::empty()
        }
    }

    /// The number as it is written in a document.
    ///
    /// With exponent 0 it is the mantissa in decimal. With an exponent from
    /// `-POSITIONAL_MAX` up to -1 the point is set in place. Every other
    /// exponent follows the mantissa behind the letter `e`.
    pub open spec fn text(self) -> Seq<char> {
        let d = digits(self.magnitude());
        if self.exponent == 0 {
            self.sign_text() + d
        } else if -POSITIONAL_MAX <= self.exponent < 0 {
            self.sign_text() + point_text(d, -self.exponent)
        } else {
            self.sign_text() + d + seq!['e'] + integer_text(self.exponent as int)
        }
    }

    /// The whole number `value`.
    pub fn integer(value: i64) -> (r: Number)
        ensures
            r == (Number { mantissa: value, exponent: 0 }),
    {
        Number { mantissa: value, exponent: 0 }
    }

    /// The number `mantissa * 10^exponent`.
    pub fn decimal(mantissa: i64, exponent: i16) -> (r: Number)
        ensures
            r == (Number { mantissa, exponent }),
    {
        Number { mantissa, exponent }
    }

    /// Appends the number, as it is written, to `out`.
    pub fn write(&self, out: &mut String)
        ensures
            final(out)@ == old(out)@ + self.text(),
    {
        let ghost start = out@;
        if self.mantissa < 0 {
            out.push('-');
        }
        assert(out@ == start + self.sign_text());
        let d = decimal_digits(magnitude(self.mantissa));
        let n = d.len();
        assert(d@.subrange(0, n as int) == d@);
        if self.exponent == 0 {
            push_chars(&d, 0, n, out);
        } else if self.exponent < 0 && self.exponent >= -POSITIONAL_MAX {
            let k: usize = (-self.exponent) as usize;
            if n > k {
                push_chars(&d, 0, n - k, out);
                out.push('.');
                push_chars(&d, n - k, n, out);
            } else {
                out.push('0');
                out.push('.');
                push_zeros(k - n, out);
                push_chars(&d, 0, n, out);
            }
            assert(out@ == start + (self.sign_text() + point_text(d@, k as int)));
        } else {
            push_chars(&d, 0, n, out);
            out.push('e');
            push_integer(self.exponent as i64, out);
            assert(out@ == start + (self.sign_text() + d@ + seq!['e'] + integer_text(
                self.exponent as int,
            )));
        }
    }

    /// The number as it is written in a document.
    pub fn to_text(&self) -> (r: String)
        ensures
            r@ == self.text(),
    {
        let mut out = String::new();
        self.write(&mut out);
        assert(Seq::<char>::empty() + self.text() == self.text());
        out
    }
}

impl From<i8> for Number {
    /// The whole number `value`, exactly.
    fn from(value: i8) -> (r: Number)
        ensures
            r == (Number { mantissa: value as i64, exponent: 0 }),
    {
        Number { mantissa: value as i64, exponent: 0 }
    }
}

impl vstd::std_specs::convert::FromSpecImpl<i8> for Number {
    open spec fn obeys_from_spec() -> bool {
        true
    }

    open spec fn from_spec(value: i8) -> Number {
        Number { mantissa: value as i64, exponent: 0 }
    }
}

impl From<i16> for Number {
    /// The whole number `value`, exactly.
    fn from(value: i16) -> (r: Number)
        ensures
            r == (Number { mantissa: value as i64, exponent: 0 }),
    {
        Number { mantissa: value as i64, exponent: 0 }
    }
}

impl vstd::std_specs::convert::FromSpecImpl<i16> for Number {
    open spec fn obeys_from_spec() -> bool {
        true
    }

    open spec fn from_spec(value: i16) -> Number {
        Number { mantissa: value as i64, exponent: 0 }
    }
}

impl From<i32> for Number {
    /// The whole number `value`, exactly.
    fn from(value: i32) -> (r: Number)
        ensures
            r == (Number { mantissa: value as i64, exponent: 0 }),
    {
        Number { mantissa: value as i64, exponent: 0 }
    }
}

impl vstd::std_specs::convert::FromSpecImpl<i32> for Number {
    open spec fn obeys_from_spec() -> bool {
        true
    }

    open spec fn from_spec(value: i32) -> Number {
        Number { mantissa: value as i64, exponent: 0 }
    }
}

impl From<i64> for Number {
    /// The whole number `value`, exactly.
    fn from(value: i64) -> (r: Number)
        ensures
            r == (Number { mantissa: value as i64, exponent: 0 }),
    {
        Number { mantissa: value as i64, exponent: 0 }
    }
}

impl vstd::std_specs::convert::FromSpecImpl<i64> for Number {
    open spec fn obeys_from_spec() -> bool {
        true
    }

    open spec fn from_spec(value: i64) -> Number {
        Number { mantissa: value as i64, exponent: 0 }
    }
}

impl From<u8> for Number {
    /// The whole number `value`, exactly.
    fn from(value: u8) -> (r: Number)
        ensures
            r == (Number { mantissa: value as i64, exponent: 0 }),
    {
        Number { mantissa: value as i64, exponent: 0 }
    }
}

impl vstd::std_specs::convert::FromSpecImpl<u8> for Number {
    open spec fn obeys_from_spec() -> bool {
        true
    }

    open spec fn from_spec(value: u8) -> Number {
        Number { mantissa: value as i64, exponent: 0 }
    }
}

impl From<u16> for Number {
    /// The whole number `value`, exactly.
    fn from(value: u16) -> (r: Number)
        ensures
            r == (Number { mantissa: value as i64, exponent: 0 }),
    {
        Number { mantissa: value as i64, exponent: 0 }
    }
}

impl vstd::std_specs::convert::FromSpecImpl<u16> for Number {
    open spec fn obeys_from_spec() -> bool {
        true
    }

    open spec fn from_spec(value: u16) -> Number {
        Number { mantissa: value as i64, exponent: 0 }
    }
}

impl From<u32> for Number {
    /// The whole number `value`, exactly.
    fn from(value: u32) -> (r: Number)
        ensures
            r == (Number { mantissa: value as i64, exponent: 0 }),
    {
        Number { mantissa: value as i64, exponent: 0 }
    }
}

impl vstd::std_specs::convert::FromSpecImpl<u32> for Number {
    open spec fn obeys_from_spec() -> bool {
        true
    }

    open spec fn from_spec(value: u32) -> Number {
        Number { mantissa: value as i64, exponent: 0 }
    }
}

} // verus!
