//! Fixed-point money values.
//!
//! Balances and movement amounts are exact decimals with two fractional
//! digits. A value is held as a signed count of cents, so comparisons and
//! additions are exact integer operations: nothing is ever rounded.

use vstd::prelude::*;

verus! {

/// An exact decimal amount of money, held as a signed number of cents.
#[derive(Clone, Copy, PartialEq, Eq, Structural, Debug)]
pub struct Money {
    cents: i64,
}

impl View for Money {
    type V = int;

    closed spec fn view(&self) -> int {
        self.cents as int
    }
}

impl Money {
    /// The value worth `cents` hundredths of the currency unit.
    pub fn from_cents(cents: i64) -> (r: Money)
        ensures
            r@ == cents as int,
    {
        Money { cents }
    }

    /// The zero value, the opening balance of every account.
    pub fn zero() -> (r: Money)
        ensures
            r@ == 0,
    {
        Money { cents: 0 }
    }

    /// The value as a count of cents.
    pub fn as_cents(&self) -> (r: i64)
        ensures
            r as int == self@,
    {
        self.cents
    }

    /// Whether the value is strictly positive.
    pub fn is_positive(&self) -> (r: bool)
        ensures
            r == (self@ > 0),
    {
        self.cents > 0
    }

    /// Whether `self` is at least `other`.
    pub fn at_least(&self, other: &Money) -> (r: bool)
        ensures
            r == (self@ >= other@),
    {
        self.cents >= other.cents
    }

    /// Exact sum, refused when it would not be representable.
    pub fn checked_add(&self, other: &Money) -> (r: Option<Money>)
        ensures
            match r {
                Some(m) => m@ == self@ + other@ && Money::representable(self@ + other@),
                None => !Money::representable(self@ + other@),
            },
    {
        if other.cents >= 0 {
            if self.cents <= i64::MAX - other.cents {
                Some(Money { cents: self.cents + other.cents })
            } else {
                None
            }
        } else {
            if self.cents >= i64::MIN - other.cents {
                Some(Money { cents: self.cents + other.cents })
            } else {
                None
            }
        }
    }

    /// Exact difference, refused when it would not be representable.
    pub fn checked_sub(&self, other: &Money) -> (r: Option<Money>)
        ensures
            match r {
                Some(m) => m@ == self@ - other@ && Money::representable(self@ - other@),
                None => !Money::representable(self@ - other@),
            },
    {
        if other.cents <= 0 {
            if self.cents <= i64::MAX + other.cents {
                Some(Money { cents: self.cents - other.cents })
            } else {
                None
            }
        } else {
            if self.cents >= i64::MIN + other.cents {
                Some(Money { cents: self.cents - other.cents })
            } else {
                None
            }
        }
    }

    /// Which exact values a `Money` can hold.
    pub open spec fn representable(v: int) -> bool {
        i64::MIN <= v <= i64::MAX
    }

    /// Every held value is representable: the view of a `Money` is its
    /// signed 64-bit count of cents.
    pub proof fn lemma_representable(&self)
        ensures
            Money::representable(self@),
    {
    }

    /// The decimal rendering of a value: an optional minus sign, the whole
    /// units without leading zeroes, a point, and exactly two fraction
    /// digits.
    pub open spec fn spec_decimal(v: int) -> Seq<char> {
        let m = if v < 0 {
            -v
        } else {
            v
        };
        let sign: Seq<char> = if v < 0 {
            seq!['-']
        } else {
            Seq::empty()
        };
        sign + spec_digits((m / 100) as nat) + seq!['.'] + seq![
            spec_digit(m / 10 % 10),
            spec_digit(m % 10),
        ]
    }

    /// Render the value as an exact decimal, to cents precision.
    pub fn to_decimal_string(&self) -> (r: String)
        ensures
            r@ == Money::spec_decimal(self@),
    {
        let mut out = String::new();
        let mag: u64 = if self.cents >= 0 {
            self.cents as u64
        } else {
            (-(self.cents as i128)) as u64
        };
        if self.cents < 0 {
            proof {
                reveal_strlit("-");
                assert("-"@ =~= seq!['-']);
            }
            out.append("-");
        }
        push_digits(&mut out, mag / 100);
        proof {
            reveal_strlit(".");
            assert("."@ =~= seq!['.']);
        }
        out.append(".");
        out.append(digit_str(mag / 10 % 10));
        out.append(digit_str(mag % 10));
        proof {
            assert(out@ =~= Money::spec_decimal(self@));
        }
        out
    }
}

/// The character for one decimal digit.
pub open spec fn spec_digit(d: int) -> char {
    if d == 0 {
        '0'
    } else if d == 1 {
        '1'
    } else if d == 2 {
        '2'
    } else if d == 3 {
        '3'
    } else if d == 4 {
        '4'
    } else if d == 5 {
        '5'
    } else if d == 6 {
        '6'
    } else if d == 7 {
        '7'
    } else if d == 8 {
        '8'
    } else {
        '9'
    }
}

/// The decimal digits of a number, most significant first and without
/// leading zeroes.
pub open spec fn spec_digits(n: nat) -> Seq<char>
    decreases n,
{
    if n < 10 {
        seq![spec_digit(n as int)]
    } else {
        spec_digits(n / 10).push(spec_digit(n as int % 10))
    }
}

/// The one-character string for one decimal digit.
fn digit_str(d: u64) -> (r: &'static str)
    requires
        d < 10,
    ensures
        r@ == seq![spec_digit(d as int)],
{
    proof {
        reveal_strlit("0");
        reveal_strlit("1");
        reveal_strlit("2");
        reveal_strlit("3");
        reveal_strlit("4");
        reveal_strlit("5");
        reveal_strlit("6");
        reveal_strlit("7");
        reveal_strlit("8");
        reveal_strlit("9");
        assert("0"@ =~= seq!['0']);
        assert("1"@ =~= seq!['1']);
        assert("2"@ =~= seq!['2']);
        assert("3"@ =~= seq!['3']);
        assert("4"@ =~= seq!['4']);
        assert("5"@ =~= seq!['5']);
        assert("6"@ =~= seq!['6']);
        assert("7"@ =~= seq!['7']);
        assert("8"@ =~= seq!['8']);
        assert("9"@ =~= seq!['9']);
    }
    match d {
        0 => "0",
        1 => "1",
        2 => "2",
        3 => "3",
        4 => "4",
        5 => "5",
        6 => "6",
        7 => "7",
        8 => "8",
        _ => "9",
    }
}

/// Append the decimal digits of `n` to `out`.
fn push_digits(out: &mut String, n: u64)
    ensures
        final(out)@ == old(out)@ + spec_digits(n as nat),
    decreases n,
{
    if n < 10 {
        out.append(digit_str(n));
    } else {
        push_digits(out, n / 10);
        out.append(digit_str(n % 10));
        proof {
            assert(out@ =~= old(out)@ + spec_digits(n as nat));
        }
    }
}

} // verus!
