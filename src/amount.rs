//! Fixed-point monetary amounts with four digits past the decimal point.
use vstd::prelude::*;

verus! {

/// The number of digits to the right of the decimal point.
pub const SCALE: u32 = 4;

/// `10^n`.
pub open spec fn pow10(n: nat) -> int
    decreases n,
{
    if n == 0 {
        1
    } else {
        10 * pow10((n - 1) as nat)
    }
}

/// The largest magnitude a decimal mantissa can take: `2^96 - 1`.
pub open spec fn max_mantissa() -> int {
    79228162514264337593543950335
}

/// The number of ten-thousandths in `mantissa * 10^-scale`, with any digits
/// past the fourth decimal place cut off (rounding toward zero).
pub open spec fn units_of(mantissa: int, scale: nat) -> int {
    if scale <= 4 {
        mantissa * pow10((4 - scale) as nat)
    } else if mantissa >= 0 {
        mantissa / pow10((scale - 4) as nat)
    } else {
        -((-mantissa) / pow10((scale - 4) as nat))
    }
}

/// Whether `x` can be held as an amount.
pub open spec fn fits(x: int) -> bool {
    i128::MIN <= x <= i128::MAX
}

proof fn lemma_pow10_monotone(a: nat, b: nat)
    requires
        a <= b,
    ensures
        0 < pow10(a) <= pow10(b),
    decreases b,
{
    if a < b {
        lemma_pow10_monotone(a, (b - 1) as nat);
    } else if b > 0 {
        lemma_pow10_monotone((b - 1) as nat, (b - 1) as nat);
    }
}

/// Computes `10^n` for the exponents that a decimal scale can need.
fn pow10_exec(n: u32) -> (r: i128)
    requires
        n <= 24,
    ensures
        r == pow10(n as nat),
{
    proof {
        lemma_pow10_monotone(n as nat, 24);
        reveal_with_fuel(pow10, 25);
        assert(pow10(24) == 1_000_000_000_000_000_000_000_000);
    }
    let mut p: i128 = 1;
    let mut i: u32 = 0;
    while i < n
        invariant
            i <= n <= 24,
            p == pow10(i as nat),
            pow10(n as nat) <= 1_000_000_000_000_000_000_000_000,
        decreases n - i,
    {
        proof {
            lemma_pow10_monotone((i + 1) as nat, n as nat);
        }
        p = p * 10;
        i = i + 1;
    }
    p
}

/// A monetary amount: a whole number of ten-thousandths.
#[derive(Clone, Copy, Debug, PartialEq, Eq, Hash)]
pub struct Amount {
    units: i128,
}

impl View for Amount {
    type V = int;

    /// The amount's value in ten-thousandths.
    closed spec fn view(&self) -> int {
        self.units as int
    }
}

/// Every amount's value lies in the range that an amount can hold.
pub broadcast proof fn lemma_amount_fits(a: Amount)
    ensures
        #[trigger] fits(a@),
{
}

impl Amount {
    /// The amount of `units` ten-thousandths.
    pub fn from_units(units: i128) -> (r: Amount)
        ensures
            r@ == units,
    {
        Amount { units }
    }

    /// The number of ten-thousandths in the amount.
    pub fn units(&self) -> (r: i128)
        ensures
            r == self@,
    {
        self.units
    }

    /// Zero.
    pub fn zero() -> (r: Amount)
        ensures
            r@ == 0,
    {
        Amount { units: 0 }
    }

    /// The amount `mantissa * 10^-scale`, cut to four decimal places.
    ///
    /// The mantissa and scale are those of a 96-bit decimal number.
    pub fn from_parts(mantissa: i128, scale: u32) -> (r: Amount)
        requires
            -max_mantissa() <= mantissa <= max_mantissa(),
            scale <= 28,
        ensures
            r@ == units_of(mantissa as int, scale as nat),
    {
        if scale <= SCALE {
            let p = pow10_exec(SCALE - scale);
            proof {
                lemma_pow10_monotone((4 - scale) as nat, 4);
                reveal_with_fuel(pow10, 5);
                assert(pow10(4) == 10000);
                assert(-max_mantissa() * 10000 <= mantissa * p <= max_mantissa() * 10000)
                    by (nonlinear_arith)
                    requires
                        -max_mantissa() <= mantissa <= max_mantissa(),
                        0 < p <= 10000,
                ;
            }
            Amount { units: mantissa * p }
        } else {
            let p = pow10_exec(scale - SCALE);
            proof {
                lemma_pow10_monotone((scale - 4) as nat, 24);
            }
            if mantissa >= 0 {
                Amount { units: mantissa / p }
            } else {
                let m = -mantissa;
                Amount { units: -(m / p) }
            }
        }
    }

    /// The decimal `num * 10^-scale`, cut to four decimal places.
    pub fn new(num: i64, scale: u32) -> (r: Amount)
        requires
            scale <= 28,
        ensures
            r@ == units_of(num as int, scale as nat),
    {
        Amount::from_parts(num as i128, scale)
    }

    /// Whether the amount is above zero.
    pub fn is_positive(&self) -> (r: bool)
        ensures
            r == (self@ > 0),
    {
        self.units > 0
    }

    /// Whether this amount is strictly greater than `other`.
    pub fn exceeds(&self, other: &Amount) -> (r: bool)
        ensures
            r == (self@ > other@),
    {
        self.units > other.units
    }

    /// The sum, or `None` where it cannot be held.
    pub fn checked_add(&self, other: &Amount) -> (r: Option<Amount>)
        ensures
            match r {
                Some(s) => fits(self@ + other@) && s@ == self@ + other@,
                None => !fits(self@ + other@),
            },
    {
        match self.units.checked_add(other.units) {
            Some(units) => Some(Amount { units }),
            None => None,
        }
    }

    /// The difference, or `None` where it cannot be held.
    pub fn checked_sub(&self, other: &Amount) -> (r: Option<Amount>)
        ensures
            match r {
                Some(s) => fits(self@ - other@) && s@ == self@ - other@,
                None => !fits(self@ - other@),
            },
    {
        match self.units.checked_sub(other.units) {
            Some(units) => Some(Amount { units }),
            None => None,
        }
    }
}

} // verus!
