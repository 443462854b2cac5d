use vstd::arithmetic::div_mod::lemma_div_denominator;
use vstd::arithmetic::mul::{lemma_mul_inequality, lemma_mul_left_inequality};
use vstd::prelude::*;

verus! {

/// Ten to the power `n`.
pub open spec fn pow10(n: nat) -> nat
    decreases n,
{
    if n == 0 {
        1
    } else {
        10 * pow10((n - 1) as nat)
    }
}

pub proof fn lemma_pow10_positive(n: nat)
    ensures
        pow10(n) >= 1,
    decreases n,
{
    if n > 0 {
        lemma_pow10_positive((n - 1) as nat);
    }
}

pub proof fn lemma_pow10_monotonic(m: nat, n: nat)
    requires
        m <= n,
    ensures
        pow10(m) <= pow10(n),
    decreases n,
{
    if m < n {
        lemma_pow10_monotonic(m, (n - 1) as nat);
        lemma_pow10_positive((n - 1) as nat);
    }
}

/// `x * 10^m <= x * 10^n` for `m <= n` and `x >= 0`.
pub proof fn lemma_scaled_monotonic(x: int, m: nat, n: nat)
    requires
        x >= 0,
        m <= n,
    ensures
        x * pow10(m) <= x * pow10(n),
{
    lemma_pow10_monotonic(m, n);
    lemma_mul_inequality(pow10(m) as int, pow10(n) as int, x);
}

/// Number of fractional digits left of `digits * 10^-scale` once trailing
/// zeros are stripped (zero when the scale is not positive).
pub open spec fn frac_digits(digits: nat, scale: int) -> nat
    decreases scale,
{
    if scale <= 0 {
        0
    } else if digits % 10 == 0 {
        frac_digits(digits / 10, scale - 1)
    } else {
        scale as nat
    }
}

pub proof fn lemma_frac_digits_of_zero(scale: int)
    ensures
        frac_digits(0, scale) == 0,
    decreases scale,
{
    if scale > 0 {
        lemma_frac_digits_of_zero(scale - 1);
    }
}

pub proof fn lemma_frac_digits_bound(digits: nat, scale: int)
    ensures
        frac_digits(digits, scale) <= if scale > 0 { scale } else { 0 },
    decreases scale,
{
    if scale > 0 && digits % 10 == 0 {
        lemma_frac_digits_bound(digits / 10, scale - 1);
    }
}

/// Fewest fractional digits of a ledger unit: a ticker's amounts are held
/// as whole multiples of `10^-18`, or of a finer unit when its supply needs
/// one.
pub const UNIT_SCALE: i64 = 18;

/// An exact decimal number, `digits * 10^-scale`, negated when `negative`.
#[derive(Clone, Copy, Debug, PartialEq, Eq, Structural)]
pub struct Decimal {
    pub negative: bool,
    pub digits: u128,
    pub scale: i64,
}

impl Decimal {
    pub open spec fn signed_digits(self) -> int {
        if self.negative {
            -(self.digits as int)
        } else {
            self.digits as int
        }
    }

    /// The value times `10^k`, rounded toward negative infinity when `k` is
    /// below the scale.
    pub open spec fn scaled(self, k: int) -> int {
        if k >= self.scale {
            self.signed_digits() * pow10((k - self.scale) as nat)
        } else {
            self.signed_digits() / (pow10((self.scale - k) as nat) as int)
        }
    }

    pub open spec fn spec_is_zero(self) -> bool {
        self.digits == 0
    }

    pub open spec fn spec_is_positive(self) -> bool {
        !self.negative && self.digits > 0
    }

    pub open spec fn spec_is_negative(self) -> bool {
        self.negative && self.digits > 0
    }

    pub open spec fn common_scale(self, other: Decimal) -> int {
        if self.scale >= other.scale {
            self.scale as int
        } else {
            other.scale as int
        }
    }

    /// `self <= other` as numbers.
    pub open spec fn spec_le(self, other: Decimal) -> bool {
        self.scaled(self.common_scale(other)) <= other.scaled(self.common_scale(other))
    }

    /// Significant fractional digits once trailing zeros are stripped.
    pub open spec fn fraction_digits(self) -> nat {
        frac_digits(self.digits as nat, self.scale as int)
    }

    /// The value counted in units of `10^-k`; exact when
    /// `fraction_digits() <= k`.
    pub open spec fn units_at(self, k: int) -> int {
        self.scaled(k)
    }

    pub fn zero() -> (r: Decimal)
        ensures
            r.spec_is_zero(),
            !r.negative,
            r.scale == 0,
    {
        Decimal { negative: false, digits: 0, scale: 0 }
    }

    pub fn is_zero(&self) -> (r: bool)
        ensures
            r == self.spec_is_zero(),
    {
        self.digits == 0
    }

    pub fn is_positive(&self) -> (r: bool)
        ensures
            r == self.spec_is_positive(),
    {
        !self.negative && self.digits > 0
    }

    pub fn is_negative(&self) -> (r: bool)
        ensures
            r == self.spec_is_negative(),
    {
        self.negative && self.digits > 0
    }

    /// Whether `self <= other` as numbers, whatever the two scales.
    pub fn value_le(&self, other: &Decimal) -> (r: bool)
        ensures
            r == self.spec_le(*other),
    {
        let a_neg = self.is_negative();
        let b_neg = other.is_negative();
        let ghost k = self.common_scale(*other);
        let ghost pa = pow10((k - self.scale) as nat);
        let ghost pb = pow10((k - other.scale) as nat);
        proof {
            let da = self.digits as int;
            let db = other.digits as int;
            assert(self.scaled(k) == self.signed_digits() * pa);
            assert(other.scaled(k) == other.signed_digits() * pb);
            lemma_pow10_positive((k - self.scale) as nat);
            lemma_pow10_positive((k - other.scale) as nat);
            assert((-da) * pa == -(da * pa) && da * pa >= 0 && (da > 0 ==> da * pa > 0))
                by (nonlinear_arith)
                requires
                    da >= 0,
                    pa >= 1,
            ;
            assert((-db) * pb == -(db * pb) && db * pb >= 0 && (db > 0 ==> db * pb > 0))
                by (nonlinear_arith)
                requires
                    db >= 0,
                    pb >= 1,
            ;
            if !a_neg {
                assert(self.signed_digits() == da);
            }
            if !b_neg {
                assert(other.signed_digits() == db);
            }
        }
        if a_neg != b_neg {
            return a_neg;
        }
        let c: i8 = if self.scale <= other.scale {
            let d: u128 = (other.scale as i128 - self.scale as i128) as u128;
            proof {
                assert(pb == 1);
                assert(other.digits * pb == other.digits) by (nonlinear_arith)
                    requires
                        pb == 1,
                ;
            }
            compare_scaled(self.digits, d, other.digits)
        } else {
            let d: u128 = (self.scale as i128 - other.scale as i128) as u128;
            proof {
                assert(pa == 1);
                assert(self.digits * pa == self.digits) by (nonlinear_arith)
                    requires
                        pa == 1,
                ;
            }
            let c2 = compare_scaled(other.digits, d, self.digits);
            -c2
        };
        if a_neg {
            c >= 0
        } else {
            c <= 0
        }
    }

    /// The value in units of `10^-k`: `None` when it is negative, has more
    /// than `k` fractional digits, or does not fit in 128 bits.
    pub fn to_units_at(&self, k: i64) -> (r: Option<u128>)
        requires
            k >= 0,
        ensures
            r is Some <==> (!self.spec_is_negative() && self.fraction_digits() <= k
                && self.units_at(k as int) <= u128::MAX),
            r matches Some(u) ==> u == self.units_at(k as int),
    {
        if self.digits == 0 {
            proof {
                lemma_frac_digits_of_zero(self.scale as int);
                let p = pow10((self.scale - k) as nat) as int;
                let q = pow10((k - self.scale) as nat) as int;
                lemma_pow10_positive((self.scale - k) as nat);
                assert(0int / p == 0);
                assert(0int * q == 0);
                assert(self.signed_digits() == 0);
            }
            return Some(0);
        }
        if self.negative {
            return None;
        }
        let mut d: u128 = self.digits;
        let mut s: i64 = self.scale;
        while s > k && d % 10 == 0
            invariant
                d > 0,
                k >= 0,
                s <= self.scale,
                !self.negative,
                frac_digits(d as nat, s as int) == self.fraction_digits(),
                (s == self.scale && d == self.digits) || (s >= k && self.units_at(k as int) == d as int
                    / (pow10((s - k) as nat) as int)),
            decreases s,
        {
            proof {
                lemma_pow10_positive((s - k - 1) as nat);
                lemma_div_denominator(d as int, 10, pow10((s - k - 1) as nat) as int);
                assert(pow10((s - k) as nat) == 10 * pow10((s - k - 1) as nat));
            }
            d = d / 10;
            s = s - 1;
        }
        if s > k {
            return None;
        }
        proof {
            lemma_frac_digits_bound(d as nat, s as int);
            if s == k {
                assert(pow10(0) == 1);
                assert(d as int / 1 == d);
                assert(d * 1 == d);
            }
            assert(self.units_at(k as int) == d * pow10((k - s) as nat));
        }
        scale_up(d, (k as i128 - s as i128) as u128)
    }
}

/// `x * 10^k`, or `None` when that does not fit in 128 bits.
pub fn scale_up(x: u128, k: u128) -> (r: Option<u128>)
    ensures
        r is Some <==> x * pow10(k as nat) <= u128::MAX,
        r matches Some(v) ==> v == x * pow10(k as nat),
{
    if x == 0 {
        assert(x * pow10(k as nat) == 0) by (nonlinear_arith)
            requires
                x == 0,
        ;
        return Some(0);
    }
    let mut prod: u128 = x;
    let mut i: u128 = 0;
    assert(pow10(0) == 1);
    while i < k
        invariant
            i <= k,
            x >= 1,
            prod == x * pow10(i as nat),
        decreases k - i,
    {
        proof {
            assert(x * pow10((i + 1) as nat) == 10 * prod) by (nonlinear_arith)
                requires
                    pow10((i + 1) as nat) == 10 * pow10(i as nat),
                    prod == x * pow10(i as nat),
            ;
            lemma_scaled_monotonic(x as int, (i + 1) as nat, k as nat);
        }
        match prod.checked_mul(10) {
            None => {
                return None;
            },
            Some(p) => {
                prod = p;
            },
        }
        i = i + 1;
    }
    Some(prod)
}

/// Compares `x * 10^k` with `y`: -1 for less, 0 for equal, 1 for greater.
fn compare_scaled(x: u128, k: u128, y: u128) -> (r: i8)
    ensures
        r == -1 <==> x * pow10(k as nat) < y,
        r == 0 <==> x * pow10(k as nat) == y,
        r == 1 <==> x * pow10(k as nat) > y,
{
    if x == 0 {
        assert(x * pow10(k as nat) == 0) by (nonlinear_arith)
            requires
                x == 0,
        ;
        return if y == 0 {
            0
        } else {
            -1
        };
    }
    proof {
        assert(pow10(0) == 1);
        assert(x * pow10(0) == x);
        lemma_scaled_monotonic(x as int, 0, k as nat);
    }
    if x > y {
        return 1;
    }
    let mut prod: u128 = x;
    let mut i: u128 = 0;
    while i < k
        invariant
            i <= k,
            x >= 1,
            prod == x * pow10(i as nat),
            prod <= y,
        decreases k - i,
    {
        proof {
            assert(x * pow10((i + 1) as nat) == 10 * prod) by (nonlinear_arith)
                requires
                    pow10((i + 1) as nat) == 10 * pow10(i as nat),
                    prod == x * pow10(i as nat),
            ;
            lemma_scaled_monotonic(x as int, (i + 1) as nat, k as nat);
        }
        match prod.checked_mul(10) {
            None => {
                return 1;
            },
            Some(p) => {
                if p > y {
                    return 1;
                }
                prod = p;
            },
        }
        i = i + 1;
    }
    if prod == y {
        0
    } else {
        -1
    }
}

} // verus!
