use vstd::prelude::*;

verus! {

/// Two to the power of sixty-four, the base in which wide products are held.
pub const LIMB: u128 = 0x1_0000_0000_0000_0000;

/// An exact, non-negative percentage: the value `100 * part / whole`.
///
/// The value is kept as a ratio so that no rounding takes place before the
/// number is shown. A meaningful percentage has a positive `whole`.
#[derive(Clone, Copy, Debug, PartialEq, Eq, Structural)]
pub struct Percent {
    pub part: u64,
    pub whole: u128,
}

/// The product of a 64-bit and a 128-bit number, as `high * 2^64 + low`
/// with `low < 2^64`.
pub struct WideProduct {
    pub high: u128,
    pub low: u128,
}

impl WideProduct {
    /// The number that the two limbs stand for.
    pub open spec fn value(self) -> int {
        self.high * LIMB + self.low
    }

    /// Multiplies `a` by `b` without loss.
    pub fn of(a: u64, b: u128) -> (r: WideProduct)
        ensures
            r.value() == a * b,
            r.low < LIMB,
    {
        let b_high: u128 = b / LIMB;
        let b_low: u128 = b % LIMB;
        assert(a * b_low <= (LIMB - 1) * (LIMB - 1)) by (nonlinear_arith)
            requires
                0 <= a <= LIMB - 1,
                0 <= b_low <= LIMB - 1,
        ;
        assert(a * b_high <= (LIMB - 1) * (LIMB - 1)) by (nonlinear_arith)
            requires
                0 <= a <= LIMB - 1,
                0 <= b_high <= LIMB - 1,
        ;
        let low_product: u128 = (a as u128) * b_low;
        let high_product: u128 = (a as u128) * b_high;
        let carry: u128 = low_product / LIMB;
        let low: u128 = low_product % LIMB;
        let high: u128 = high_product + carry;
        assert(a * b == (a * b_high) * LIMB + a * b_low) by (nonlinear_arith)
            requires
                b == b_high * LIMB + b_low,
        ;
        WideProduct { high, low }
    }

    /// Whether this product is at most `other`.
    pub fn le(&self, other: &WideProduct) -> (r: bool)
        requires
            self.low < LIMB,
            other.low < LIMB,
        ensures
            r == (self.value() <= other.value()),
    {
        self.high < other.high || (self.high == other.high && self.low <= other.low)
    }
}

impl Percent {
    /// A percentage is meaningful when its `whole` is positive.
    pub open spec fn wf(self) -> bool {
        self.whole > 0
    }

    /// Whether the percentage is zero.
    pub open spec fn is_zero(self) -> bool {
        self.part == 0
    }

    /// The order of two percentages, by cross-multiplication:
    /// `part / whole <= other.part / other.whole`.
    pub open spec fn le_spec(self, other: Percent) -> bool {
        self.part * other.whole <= other.part * self.whole
    }

    /// The percentage zero.
    pub fn zero() -> (r: Percent)
        ensures
            r == (Percent { part: 0, whole: 1 }),
    {
        Percent { part: 0, whole: 1 }
    }

    /// Compares two percentages exactly, whatever their size.
    pub fn le(&self, other: &Percent) -> (r: bool)
        ensures
            r == self.le_spec(*other),
    {
        let left = WideProduct::of(self.part, other.whole);
        let right = WideProduct::of(other.part, self.whole);
        left.le(&right)
    }
}

/// The order of percentages with a positive `whole` is reflexive,
/// transitive and total.
pub proof fn lemma_percent_order(a: Percent, b: Percent, c: Percent)
    requires
        a.wf(),
        b.wf(),
        c.wf(),
    ensures
        a.le_spec(a),
        a.le_spec(b) || b.le_spec(a),
        a.le_spec(b) && b.le_spec(c) ==> a.le_spec(c),
{
    if a.le_spec(b) && b.le_spec(c) {
        assert(a.part * c.whole <= c.part * a.whole) by (nonlinear_arith)
            requires
                a.part * b.whole <= b.part * a.whole,
                b.part * c.whole <= c.part * b.whole,
                a.whole > 0,
                b.whole > 0,
                c.whole > 0,
                a.part >= 0,
                b.part >= 0,
                c.part >= 0,
        ;
    }
}

} // verus!
