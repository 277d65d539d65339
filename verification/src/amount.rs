//! Quota amounts: double-precision numbers, held by their bits and compared as
//! the numbers that the bits stand for.
use vstd::arithmetic::power2::{lemma_pow2_pos, lemma_pow2_strictly_increases, lemma_pow2_unfold, pow2};
use vstd::prelude::*;

verus! {

/// The sign bit of a double.
pub const SIGN: u64 = 0x8000_0000_0000_0000;

/// The bits of positive infinity; what is larger, the sign aside, is no number.
pub const INFINITY: u64 = 0x7ff0_0000_0000_0000;

/// The number of fractions to one exponent: two to the power of 52.
pub const FRACTIONS: u64 = 0x10_0000_0000_0000;

/// A double-precision number.
#[derive(Clone, Copy)]
pub struct Amount {
    /// The bits of the double.
    pub bits: u64,
}

/// The number that the bits below the sign stand for, in units of two to the power
/// of -1074 (the smallest positive double). Infinity is an integer above every
/// other, where the next exponent would have begun.
pub open spec fn magnitude_value(magnitude: int) -> int {
    let exponent = magnitude / FRACTIONS as int;
    let fraction = magnitude % FRACTIONS as int;
    if exponent == 0 {
        fraction
    } else {
        (FRACTIONS + fraction) * pow2((exponent - 1) as nat)
    }
}

/// The number that a double's bits stand for, in the same units; none for the bits
/// that stand for no number.
pub open spec fn double_value(bits: u64) -> Option<int> {
    if bits < SIGN {
        if bits > INFINITY {
            None
        } else {
            Some(magnitude_value(bits as int))
        }
    } else if bits - SIGN > INFINITY {
        None
    } else {
        Some(-magnitude_value(bits - SIGN))
    }
}

/// `a` is greater than `b`; never where either is no number.
pub open spec fn greater(a: Option<int>, b: Option<int>) -> bool {
    match (a, b) {
        (Some(a), Some(b)) => a > b,
        _ => false,
    }
}

/// `a` is at most `b`; never where either is no number.
pub open spec fn at_most(a: Option<int>, b: Option<int>) -> bool {
    match (a, b) {
        (Some(a), Some(b)) => a <= b,
        _ => false,
    }
}

/// `a` equals `b`; never where either is no number.
pub open spec fn equal(a: Option<int>, b: Option<int>) -> bool {
    match (a, b) {
        (Some(a), Some(b)) => a == b,
        _ => false,
    }
}

/// One credit.
pub open spec fn one_credit() -> Amount {
    Amount { bits: 0x3ff0_0000_0000_0000 }
}

impl Amount {
    /// The number that the amount stands for, if any.
    pub open spec fn value(self) -> Option<int> {
        double_value(self.bits)
    }

    /// The amount whose double has these bits.
    pub fn from_bits(bits: u64) -> (r: Amount)
        ensures
            r.bits == bits,
    {
        Amount { bits }
    }

    /// Nothing left.
    pub fn zero() -> (r: Amount)
        ensures
            r.value() == Some(0int),
            r.bits == 0,
    {
        Amount { bits: 0 }
    }

    /// One credit.
    pub fn one() -> (r: Amount)
        ensures
            r == one_credit(),
            r.value() == Some(FRACTIONS * pow2(1022)),
    {
        Amount { bits: 0x3ff0_0000_0000_0000 }
    }

    /// `self > other` between the two doubles.
    pub fn gt(self, other: Amount) -> (r: bool)
        ensures
            r == greater(self.value(), other.value()),
    {
        proof {
            lemma_key_orders(self.bits, other.bits);
        }
        match (key(self.bits), key(other.bits)) {
            (Some(a), Some(b)) => a > b,
            _ => false,
        }
    }

    /// `self <= other` between the two doubles.
    pub fn le(self, other: Amount) -> (r: bool)
        ensures
            r == at_most(self.value(), other.value()),
    {
        proof {
            lemma_key_orders(self.bits, other.bits);
        }
        match (key(self.bits), key(other.bits)) {
            (Some(a), Some(b)) => a <= b,
            _ => false,
        }
    }

    /// `self == other` between the two doubles.
    pub fn same(self, other: Amount) -> (r: bool)
        ensures
            r == equal(self.value(), other.value()),
    {
        proof {
            lemma_key_orders(self.bits, other.bits);
        }
        match (key(self.bits), key(other.bits)) {
            (Some(a), Some(b)) => a == b,
            _ => false,
        }
    }
}

/// An integer by which the doubles that are numbers are ordered.
spec fn key_spec(bits: u64) -> Option<int> {
    if bits < SIGN {
        if bits > INFINITY {
            None
        } else {
            Some(bits as int)
        }
    } else if bits - SIGN > INFINITY {
        None
    } else {
        Some(-(bits - SIGN))
    }
}

fn key(bits: u64) -> (r: Option<i64>)
    ensures
        match r {
            Some(k) => key_spec(bits) == Some(k as int),
            None => key_spec(bits) is None,
        },
{
    if bits < SIGN {
        if bits > INFINITY {
            None
        } else {
            Some(bits as i64)
        }
    } else if bits - SIGN > INFINITY {
        None
    } else {
        Some(-((bits - SIGN) as i64))
    }
}

/// A larger magnitude stands for a larger number.
proof fn lemma_magnitude_increases(a: int, b: int)
    requires
        0 <= a < b,
    ensures
        0 <= magnitude_value(a) < magnitude_value(b),
{
    let n = FRACTIONS as int;
    let (ea, fa) = (a / n, a % n);
    let (eb, fb) = (b / n, b % n);
    assert(ea <= eb && (ea == eb ==> fa < fb) && 0 <= ea && 0 <= fa < n && 0 <= fb < n) by (nonlinear_arith)
        requires
            0 <= a < b,
            n == 0x10_0000_0000_0000,
            ea == a / n,
            fa == a % n,
            eb == b / n,
            fb == b % n,
    ;
    if eb > 0 {
        let pb = pow2((eb - 1) as nat) as int;
        lemma_pow2_pos((eb - 1) as nat);
        assert((n + fb) * pb >= n * pb && n * pb >= n) by (nonlinear_arith)
            requires
                pb >= 1,
                fb >= 0,
                n > 0,
        ;
        if ea > 0 {
            let pa = pow2((ea - 1) as nat) as int;
            lemma_pow2_pos((ea - 1) as nat);
            assert((n + fa) * pa >= 0) by (nonlinear_arith)
                requires
                    pa >= 1,
                    fa >= 0,
                    n > 0,
            ;
            if ea == eb {
                assert((n + fa) * pa < (n + fb) * pb) by (nonlinear_arith)
                    requires
                        pa == pb,
                        pa >= 1,
                        fa < fb,
                ;
            } else {
                lemma_pow2_unfold(ea as nat);
                if ea < eb - 1 {
                    lemma_pow2_strictly_increases(ea as nat, (eb - 1) as nat);
                }
                assert(2 * pa <= pb);
                assert((n + fa) * pa < n * pb) by (nonlinear_arith)
                    requires
                        2 * pa <= pb,
                        pa >= 1,
                        0 <= fa < n,
                ;
            }
        }
    }
}

/// The keys of two doubles are ordered as the numbers.
proof fn lemma_key_orders(a: u64, b: u64)
    ensures
        key_spec(a) is Some == double_value(a) is Some,
        key_spec(b) is Some == double_value(b) is Some,
        key_spec(a) is Some && key_spec(b) is Some ==> {
            &&& (key_spec(a)->0 < key_spec(b)->0) == (double_value(a)->0 < double_value(b)->0)
            &&& (key_spec(a)->0 == key_spec(b)->0) == (double_value(a)->0 == double_value(b)->0)
        },
{
    let ma = if a < SIGN { a as int } else { a - SIGN };
    let mb = if b < SIGN { b as int } else { b - SIGN };
    if ma < mb {
        lemma_magnitude_increases(ma, mb);
    }
    if mb < ma {
        lemma_magnitude_increases(mb, ma);
    }
    assert(magnitude_value(0) == 0);
    if ma > 0 {
        lemma_magnitude_increases(0, ma);
    }
    if mb > 0 {
        lemma_magnitude_increases(0, mb);
    }
}

/// Which bits stand for numbers, and for which: up to two to the power of 53 the bits count
/// in units; from there on, as from two to the power of 52 on, one exponent more doubles the
/// number; the sign bit turns it round; and what lies beyond infinity is no number.
pub proof fn bits_stand_for_doubles(bits: u64)
    ensures
        double_value(bits) is None <==> 0x7ff0_0000_0000_0000 < bits < 0x8000_0000_0000_0000 || bits
            > 0xfff0_0000_0000_0000,
        bits <= 0x20_0000_0000_0000 ==> double_value(bits) == Some(bits as int),
        0x10_0000_0000_0000 <= bits <= 0x7fe0_0000_0000_0000 ==> double_value(
            (bits + 0x10_0000_0000_0000) as u64,
        ) == Some(2 * double_value(bits)->0),
        bits <= 0x7ff0_0000_0000_0000 ==> double_value((bits + 0x8000_0000_0000_0000) as u64)
            == Some(-double_value(bits)->0),
{
    let n = FRACTIONS as int;
    let b = bits as int;
    if b <= 0x20_0000_0000_0000 {
        let e = b / n;
        let f = b % n;
        assert(b == n * e + f && 0 <= e <= 2);
        if e > 0 {
            let p = pow2((e - 1) as nat) as int;
            assert(p == e) by {
                vstd::arithmetic::power2::lemma2_to64();
            }
            assert((n + f) * p == b) by (nonlinear_arith)
                requires
                    p == e,
                    b == n * e + f,
                    e == 1 || e == 2 && f == 0,
            ;
        }
    }
    if 0x10_0000_0000_0000 <= b <= 0x7fe0_0000_0000_0000 {
        let e = b / n;
        let f = b % n;
        assert(e >= 1 && (b + n) / n == e + 1 && (b + n) % n == f);
        lemma_pow2_unfold(e as nat);
        let p = pow2((e - 1) as nat) as int;
        assert((n + f) * (2 * p) == 2 * ((n + f) * p)) by (nonlinear_arith);
    }
}

/// One amount is greater than another, at most the other, or the same, as their numbers
/// are; and where one of the two is no number, it is none of these.
pub proof fn amounts_compare_as_their_numbers(a: Amount, b: Amount, gt: bool, le: bool, same: bool)
    requires
        call_ensures(Amount::gt, (a, b), gt),
        call_ensures(Amount::le, (a, b), le),
        call_ensures(Amount::same, (a, b), same),
    ensures
        double_value(a.bits) matches Some(x) ==> double_value(b.bits) matches Some(y) ==> {
            &&& gt <==> x > y
            &&& le <==> x <= y
            &&& same <==> x == y
        },
        double_value(a.bits) is None || double_value(b.bits) is None ==> !gt && !le && !same,
{
}

} // verus!
