//! Measured quantities as exact fixed-point numbers.
use vstd::prelude::*;

verus! {

/// Billionths in one unit of a [`Quantity`].
pub const NANO: i64 = 1_000_000_000;

/// A measured quantity (kWh, volts, degrees, pence): a whole number of
/// billionths of its unit, or `Nan` where no number was measured.
///
/// `Nan` compares as neither below nor above anything, itself included.
#[derive(Clone, Copy, Debug, PartialEq, Eq, Structural)]
pub enum Quantity {
    Nan,
    Nano(i64),
}

/// The nearest representable quantity to `nano` billionths.
pub open spec fn saturated(nano: int) -> Quantity {
    if nano > i64::MAX {
        Quantity::Nano(i64::MAX)
    } else if nano < i64::MIN {
        Quantity::Nano(i64::MIN)
    } else {
        Quantity::Nano(nano as i64)
    }
}

/// `n` whole units.
pub open spec fn whole(n: int) -> Quantity {
    Quantity::Nano((n * 1_000_000_000) as i64)
}

impl Quantity {
    /// Whether both are numbers and `self` is the smaller one.
    pub open spec fn lt(self, other: Quantity) -> bool {
        self is Nano && other is Nano && self->Nano_0 < other->Nano_0
    }

    /// Whether both are numbers and `self` is at most `other`.
    pub open spec fn le(self, other: Quantity) -> bool {
        self is Nano && other is Nano && self->Nano_0 <= other->Nano_0
    }

    /// `n` whole units.
    pub fn units(n: i32) -> (r: Quantity)
        ensures
            r == whole(n as int),
    {
        Quantity::Nano(n as i64 * NANO)
    }

    /// The nearest representable quantity to `nano` billionths.
    pub fn from_nano(nano: i128) -> (r: Quantity)
        ensures
            r == saturated(nano as int),
    {
        if nano > i64::MAX as i128 {
            Quantity::Nano(i64::MAX)
        } else if nano < i64::MIN as i128 {
            Quantity::Nano(i64::MIN)
        } else {
            Quantity::Nano(nano as i64)
        }
    }

    /// Whether no number was measured.
    pub fn is_nan(&self) -> (r: bool)
        ensures
            r == (*self is Nan),
    {
        match self {
            Quantity::Nan => true,
            Quantity::Nano(_) => false,
        }
    }

    /// Whether `self` is a number smaller than the number `other`.
    pub fn below(self, other: Quantity) -> (r: bool)
        ensures
            r == self.lt(other),
    {
        match (self, other) {
            (Quantity::Nano(a), Quantity::Nano(b)) => a < b,
            _ => false,
        }
    }

    /// Whether `self` is a number no larger than the number `other`.
    pub fn at_most(self, other: Quantity) -> (r: bool)
        ensures
            r == self.le(other),
    {
        match (self, other) {
            (Quantity::Nano(a), Quantity::Nano(b)) => a <= b,
            _ => false,
        }
    }

    /// Whether the reading lies outside `[low, high]`; `Nan` lies outside
    /// nothing.
    pub fn outside(self, low: Quantity, high: Quantity) -> (r: bool)
        ensures
            r == (self.lt(low) || high.lt(self)),
    {
        self.below(low) || high.below(self)
    }

    /// The reading, or zero where it is negative or `Nan`.
    pub fn or_zero(self) -> (r: Quantity)
        ensures
            r == if self is Nano && self->Nano_0 > 0 {
                self
            } else {
                Quantity::Nano(0)
            },
    {
        match self {
            Quantity::Nano(n) if n > 0 => self,
            _ => Quantity::Nano(0),
        }
    }
}

impl Default for Quantity {
    fn default() -> (r: Quantity)
        ensures
            r == Quantity::Nano(0),
    {
        Quantity::Nano(0)
    }
}

/// The sum of `values` in billionths, where all of them are numbers.
pub open spec fn nano_sum(values: Seq<Quantity>) -> int
    decreases values.len(),
{
    if values.len() == 0 {
        0
    } else {
        nano_sum(values.drop_last()) + values.last()->Nano_0
    }
}

/// Whether every one of `values` is a number.
pub open spec fn all_numbers(values: Seq<Quantity>) -> bool {
    forall|i: int| 0 <= i < values.len() ==> #[trigger] values[i] is Nano
}

/// The sum of `values`; no number where one of them is none.
pub open spec fn total(values: Seq<Quantity>) -> Quantity {
    if all_numbers(values) {
        saturated(nano_sum(values))
    } else {
        Quantity::Nan
    }
}

/// The mean of `values`, rounded down to a billionth; no number where one of
/// them is none.
pub open spec fn mean(values: Seq<Quantity>) -> Quantity {
    if all_numbers(values) {
        saturated(nano_sum(values) / values.len() as int)
    } else {
        Quantity::Nan
    }
}

/// The quotient rounded down.
pub fn div_floor(a: i128, b: i128) -> (r: i128)
    requires
        b > 0,
        a > i128::MIN,
        b <= 0xffff_ffff_ffff_ffff,
    ensures
        r == a as int / b as int,
{
    if a >= 0 {
        a / b
    } else {
        let positive: i128 = -a;
        let q: i128 = positive / b;
        proof {
            let (pi, bi, qi) = (positive as int, b as int, q as int);
            assert(0 <= qi * bi <= pi) by (nonlinear_arith)
                requires
                    bi > 0,
                    pi >= 0,
                    qi == pi / bi,
            ;
        }
        if q * b == positive {
            proof {
                let (ai, bi, qi) = (a as int, b as int, q as int);
                assert(ai / bi == -qi) by (nonlinear_arith)
                    requires
                        bi > 0,
                        ai == -(qi * bi),
                ;
            }
            -q
        } else {
            proof {
                let (ai, bi, qi, pi) = (a as int, b as int, q as int, positive as int);
                assert(qi * bi <= pi < qi * bi + bi) by (nonlinear_arith)
                    requires
                        bi > 0,
                        qi == pi / bi,
                ;
                assert(ai / bi == -qi - 1) by (nonlinear_arith)
                    requires
                        bi > 0,
                        ai == -pi,
                        qi * bi < pi < qi * bi + bi,
                ;
            }
            -q - 1
        }
    }
}

} // verus!
