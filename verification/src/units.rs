//! Fixed-point quantities: utilization in tenths of a percent and money in
//! cents. Both are exact, so every comparison and every rendered figure is
//! reproducible.

use crate::text::{append_decimal, decimal, digit_char, digit_str};
use vstd::prelude::*;
use vstd::string::StringExecFns;

verus! {

/// Tenths of a percent in one percent.
pub const TENTHS_PER_PERCENT: u32 = 10;

/// One hundred percent, in tenths.
pub const FULL_SCALE_TENTHS: u32 = 1000;

/// Cents in one unit of currency.
pub const CENTS_PER_UNIT: u64 = 100;

/// A percentage with one decimal place, held as tenths of a percent.
#[derive(Clone, Copy, Debug, PartialEq, Eq, Structural)]
pub struct Percent {
    pub tenths: u32,
}

impl Percent {
    /// The percentage lies between 0 % and 100 %.
    pub open spec fn within_scale(self) -> bool {
        self.tenths <= FULL_SCALE_TENTHS
    }

    /// How the percentage is written: whole part, a point, one decimal.
    pub open spec fn text(self) -> Seq<char> {
        decimal((self.tenths / 10) as nat) + seq!['.'] + seq![digit_char((self.tenths % 10) as int)]
    }

    pub fn from_tenths(tenths: u32) -> (p: Percent)
        ensures
            p.tenths == tenths,
    {
        Percent { tenths }
    }

    /// A whole number of percent, or `None` when it does not fit.
    pub fn from_whole(percent: u32) -> (p: Option<Percent>)
        ensures
            p is Some <==> percent * 10 <= u32::MAX,
            p matches Some(v) ==> v.tenths == percent * 10,
    {
        match percent.checked_mul(TENTHS_PER_PERCENT) {
            Some(tenths) => Some(Percent { tenths }),
            None => None,
        }
    }

    pub fn is_within_scale(&self) -> (b: bool)
        ensures
            b == self.within_scale(),
    {
        self.tenths <= FULL_SCALE_TENTHS
    }

    /// `self > other`.
    pub fn exceeds(&self, other: Percent) -> (b: bool)
        ensures
            b == (self.tenths > other.tenths),
    {
        self.tenths > other.tenths
    }

    /// `self < other / 2`, decided without rounding.
    pub fn below_half_of(&self, other: Percent) -> (b: bool)
        ensures
            b == (2 * self.tenths < other.tenths),
    {
        let doubled: u64 = 2 * (self.tenths as u64);
        doubled < other.tenths as u64
    }

    /// Appends [`Percent::text`] to `out`.
    pub fn append_to(&self, out: &mut String)
        ensures
            final(out)@ == old(out)@ + self.text(),
    {
        append_decimal(out, (self.tenths / 10) as u64);
        out.append(".");
        out.append(digit_str((self.tenths % 10) as u64));
        proof {
            reveal_strlit(".");
            assert("."@ =~= seq!['.']);
            assert(out@ =~= old(out)@ + self.text());
        }
    }

    pub fn to_text(&self) -> (s: String)
        ensures
            s@ == self.text(),
    {
        let mut s = String::new();
        self.append_to(&mut s);
        assert(s@ =~= self.text());
        s
    }
}

/// An amount of money, held as cents.
#[derive(Clone, Copy, Debug, PartialEq, Eq, Structural)]
pub struct Money {
    pub cents: u64,
}

impl Money {
    /// How the amount is written: whole units, a point, two decimals.
    pub open spec fn text(self) -> Seq<char> {
        decimal((self.cents / 100) as nat) + seq!['.'] + seq![
            digit_char(((self.cents % 100) / 10) as int),
            digit_char((self.cents % 10) as int),
        ]
    }

    pub fn from_cents(cents: u64) -> (m: Money)
        ensures
            m.cents == cents,
    {
        Money { cents }
    }

    /// Appends [`Money::text`] to `out`.
    pub fn append_to(&self, out: &mut String)
        ensures
            final(out)@ == old(out)@ + self.text(),
    {
        append_decimal(out, self.cents / CENTS_PER_UNIT);
        out.append(".");
        out.append(digit_str((self.cents % CENTS_PER_UNIT) / 10));
        out.append(digit_str(self.cents % 10));
        proof {
            reveal_strlit(".");
            assert("."@ =~= seq!['.']);
            assert(out@ =~= old(out)@ + self.text());
        }
    }

    pub fn to_text(&self) -> (s: String)
        ensures
            s@ == self.text(),
    {
        let mut s = String::new();
        self.append_to(&mut s);
        assert(s@ =~= self.text());
        s
    }
}

} // verus!
