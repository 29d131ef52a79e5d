//! Sums of money with two decimal places, counted in cents.

use crate::decimal::{
    decimal_abs, decimal_add, decimal_lt, decimal_mul, decimal_round_dp, decimal_sub, pow10,
    representable, round_half_even, MAX_MANTISSA,
};
use vstd::prelude::*;

verus! {

/// The number of decimal places of every sum of money.
pub const MONEY_SCALE: u32 = 2;

/// The mantissa of the interchange rate, 0.02.
pub const INTERCHANGE_RATE_MANTISSA: i128 = 2;

/// The scale of the interchange rate, 0.02.
pub const INTERCHANGE_RATE_SCALE: u32 = 2;

/// What one entry moves: a sum of money that is never negative.
#[derive(Debug, Clone, Copy, PartialEq, Eq, Structural)]
pub struct Amount {
    pub cents: u64,
}

/// What an account holds: a signed sum of money.
#[derive(Debug, Clone, Copy, PartialEq, Eq, Structural)]
pub struct Money {
    pub cents: i128,
}

/// The absolute value of an integer.
pub open spec fn abs(x: int) -> nat {
    if x < 0 {
        (-x) as nat
    } else {
        x as nat
    }
}

/// The interchange fee on a purchase of `cents`: two percent of it, rounded
/// to whole cents, a tie going to the even neighbour.
pub open spec fn interchange_fee(cents: nat) -> nat {
    round_half_even(2 * cents, 100)
}

/// The fee never exceeds the purchase.
pub proof fn lemma_interchange_fee_bounded(cents: nat)
    ensures
        interchange_fee(cents) <= cents,
        cents > 0 ==> interchange_fee(cents) < cents,
{
}

impl Amount {
    /// The amount of `cents` hundredths.
    pub fn from_cents(cents: u64) -> (amount: Amount)
        ensures
            amount.cents == cents,
    {
        Amount { cents }
    }

    /// The amount in hundredths.
    pub fn cents(&self) -> (cents: u64)
        ensures
            cents == self.cents,
    {
        self.cents
    }

    /// The interchange fee that a purchase of this amount owes.
    pub fn interchange_fee(&self) -> (fee: Amount)
        ensures
            fee.cents == interchange_fee(self.cents as nat),
            fee.cents <= self.cents,
    {
        let cents: i128 = self.cents as i128;
        assert(representable(cents * INTERCHANGE_RATE_MANTISSA, MONEY_SCALE + INTERCHANGE_RATE_SCALE));
        let product = decimal_mul(cents, MONEY_SCALE, INTERCHANGE_RATE_MANTISSA, INTERCHANGE_RATE_SCALE);
        let rounded = decimal_round_dp(product.0, product.1, MONEY_SCALE);
        proof {
            reveal_with_fuel(pow10, 3);
            lemma_interchange_fee_bounded(self.cents as nat);
        }
        Amount { cents: rounded.0 as u64 }
    }
}

impl Money {
    /// The sum of `cents` hundredths.
    pub fn from_cents(cents: i128) -> (money: Money)
        ensures
            money.cents == cents,
    {
        Money { cents }
    }

    /// The sum in hundredths.
    pub fn cents(&self) -> (cents: i128)
        ensures
            cents == self.cents,
    {
        self.cents
    }

    /// Whether a decimal can hold this sum.
    pub open spec fn in_range(self) -> bool {
        -MAX_MANTISSA <= self.cents <= MAX_MANTISSA
    }

    /// This sum less `amount`.
    pub(crate) fn debit(self, amount: Amount) -> (left: Money)
        requires
            self.in_range(),
            -MAX_MANTISSA <= self.cents - amount.cents,
        ensures
            left.cents == self.cents - amount.cents,
    {
        let difference = decimal_sub(self.cents, amount.cents as i128, MONEY_SCALE);
        Money { cents: difference.0 }
    }

    /// This sum and `amount` together.
    pub(crate) fn credit(self, amount: Amount) -> (raised: Money)
        requires
            self.in_range(),
            self.cents + amount.cents <= MAX_MANTISSA,
        ensures
            raised.cents == self.cents + amount.cents,
    {
        let sum = decimal_add(self.cents, amount.cents as i128, MONEY_SCALE);
        Money { cents: sum.0 }
    }

    /// The sum without its sign.
    pub(crate) fn abs(self) -> (magnitude: Money)
        requires
            self.in_range(),
        ensures
            magnitude.cents == abs(self.cents as int),
    {
        let magnitude = decimal_abs(self.cents, MONEY_SCALE);
        Money { cents: magnitude.0 }
    }

    /// Whether this sum is less than `amount`.
    pub(crate) fn less_than(self, amount: Amount) -> (less: bool)
        requires
            self.in_range(),
        ensures
            less == (self.cents < amount.cents),
    {
        decimal_lt(self.cents, amount.cents as i128, MONEY_SCALE)
    }
}

} // verus!
