use vstd::arithmetic::div_mod::{lemma_div_denominator, lemma_fundamental_div_mod_converse_div};
use vstd::arithmetic::power::{lemma_pow_increases, lemma_pow_positive, pow};
use vstd::prelude::*;

verus! {

/// Ten to the power `e`.
pub open spec fn pow10(e: nat) -> nat {
    pow(10, e) as nat
}

/// Ten to the power zero is one; each further power is ten times the one before.
pub proof fn lemma_pow10_step(e: nat)
    ensures
        pow10(0) == 1,
        pow10(e) >= 1,
        pow10(e + 1) == 10 * pow10(e),
        pow10(e) == pow(10, e),
        pow10(e + 1) == pow(10, e + 1),
{
    reveal(pow);
    lemma_pow_positive(10, e);
    lemma_pow_positive(10, e + 1);
}

/// Ten to the power `e`, where it fits in 128 bits.
pub fn pow10_checked(e: u8) -> (r: Option<u128>)
    ensures
        match r {
            Some(p) => p == pow10(e as nat),
            None => pow10(e as nat) > u128::MAX,
        },
{
    let mut p: u128 = 1;
    let mut i: u8 = 0;
    proof {
        lemma_pow10_step(0);
    }
    while i < e
        invariant
            i <= e,
            p == pow10(i as nat),
        decreases e - i,
    {
        proof {
            lemma_pow10_step(i as nat);
        }
        match p.checked_mul(10) {
            Some(q) => {
                p = q;
            },
            None => {
                proof {
                    lemma_pow_increases(10, (i + 1) as nat, e as nat);
                    lemma_pow_positive(10, e as nat);
                }
                return None;
            },
        }
        i += 1;
    }
    Some(p)
}

/// A fixed-point number: `amount` divided by ten to the power `decimals`.
#[derive(Clone, Copy, Debug, PartialEq, Eq, Structural)]
pub struct Rate {
    pub amount: u64,
    pub decimals: u8,
}

impl Rate {
    /// The number that `amount` is divided by.
    pub open spec fn scale(self) -> nat {
        pow10(self.decimals as nat)
    }

    /// Whether the rate is below one.
    pub open spec fn below_one(self) -> bool {
        self.amount < self.scale()
    }

    /// The rate `amount / 10^decimals`.
    pub fn new(amount: u64, decimals: u8) -> (r: Rate)
        ensures
            r == (Rate { amount, decimals }),
    {
        Rate { amount, decimals }
    }
}

/// The part of `total` that stays with the seller under a contribution
/// rate: `(1 - rate) * total`, rounded down; nothing where the rate is one or more.
pub open spec fn spec_deposit(total: u64, rate: Rate) -> nat {
    if rate.below_one() {
        ((rate.scale() - rate.amount) * total / (rate.scale() as int)) as nat
    } else {
        0
    }
}

/// The two parts of `total`: the deposit, and the contribution that is the rest.
pub open spec fn spec_split(total: u64, rate: Rate) -> (u64, u64) {
    (spec_deposit(total, rate) as u64, (total - spec_deposit(total, rate)) as u64)
}

proof fn lemma_product_fits(a: u64, b: u64)
    ensures
        a * b <= 0xffff_ffff_ffff_ffff * 0xffff_ffff_ffff_ffff,
        0 <= a * b,
{
    assert(a * b <= 0xffff_ffff_ffff_ffff * 0xffff_ffff_ffff_ffff && 0 <= a * b)
        by (nonlinear_arith)
        requires
            0 <= a <= 0xffff_ffff_ffff_ffff,
            0 <= b <= 0xffff_ffff_ffff_ffff,
    ;
}

/// With `a * t == q * d + r`, `0 <= r < d` and `a < d`: the deposit is `t`
/// less the quotient, and less one more where a remainder is left.
pub proof fn lemma_split_parts(t: int, a: int, d: int, q: int, r: int)
    requires
        0 <= t,
        0 <= a < d,
        0 <= q,
        0 <= r < d,
        a * t == q * d + r,
    ensures
        r == 0 ==> q <= t && (d - a) * t / d == t - q,
        r > 0 ==> q + 1 <= t && (d - a) * t / d == t - q - 1,
{
    assert((d - a) * t == d * t - a * t) by (nonlinear_arith);
    assert(q < t || (q == t && r == 0 && t == 0) || (r == 0 && q <= t)) by (nonlinear_arith)
        requires
            0 <= t,
            0 <= a < d,
            0 <= q,
            0 <= r < d,
            a * t == q * d + r,
    ;
    if r == 0 {
        assert((d - a) * t == (t - q) * d + 0) by (nonlinear_arith)
            requires
                (d - a) * t == d * t - a * t,
                a * t == q * d + r,
                r == 0,
        ;
        lemma_fundamental_div_mod_converse_div((d - a) * t, d, t - q, 0);
    } else {
        assert((d - a) * t == (t - q - 1) * d + (d - r)) by (nonlinear_arith)
            requires
                (d - a) * t == d * t - a * t,
                a * t == q * d + r,
        ;
        lemma_fundamental_div_mod_converse_div((d - a) * t, d, t - q - 1, d - r);
    }
}

/// Fee/Expansion Calculator, the split: divides `total` into the deposit,
/// `(1 - rate) * total` rounded down, and the contribution, which is what is
/// left of `total`. The two always add up to `total`.
pub fn split(total: u64, rate: Rate) -> (parts: (u64, u64))
    ensures
        parts == spec_split(total, rate),
        parts.0 == spec_deposit(total, rate),
        parts.0 + parts.1 == total,
{
    let x: u128 = {
        proof {
            lemma_product_fits(rate.amount, total);
        }
        (rate.amount as u128) * (total as u128)
    };
    let ghost d: int = rate.scale() as int;
    let (q, rest): (u128, bool) = match pow10_checked(rate.decimals) {
        Some(scale) => {
            if rate.amount as u128 >= scale {
                return (0, total);
            }
            proof {
                vstd::arithmetic::div_mod::lemma_fundamental_div_mod(x as int, scale as int);
                assert(scale * (x / scale) == (x / scale) * scale) by (nonlinear_arith);
            }
            (x / scale, x % scale > 0)
        },
        None => {
            proof {
                assert(0 * d == 0);
            }
            (0, x > 0)
        },
    };
    proof {
        let r: int = x - q * d;
        lemma_split_parts(total as int, rate.amount as int, d, q as int, r);
    }
    let contribution: u64 = if rest {
        (q + 1) as u64
    } else {
        q as u64
    };
    (total - contribution, contribution)
}

/// A product of two fixed-point numbers: `amount` divided by ten to the
/// power `decimals`, both wide enough that no product of two rates is cut.
#[derive(Clone, Copy, Debug, PartialEq, Eq, Structural)]
pub struct Expansion {
    pub amount: u128,
    pub decimals: u16,
}

/// Fee/Expansion Calculator, the expansion: the exact product of a rate and a
/// scalar.
pub fn expansion(rate: Rate, scalar: Rate) -> (e: Expansion)
    ensures
        e.amount == rate.amount * scalar.amount,
        e.decimals == rate.decimals + scalar.decimals,
{
    proof {
        lemma_product_fits(rate.amount, scalar.amount);
    }
    Expansion {
        amount: (rate.amount as u128) * (scalar.amount as u128),
        decimals: rate.decimals as u16 + scalar.decimals as u16,
    }
}

/// A number of up to 192 bits in three limbs of 64 bits.
struct Wide {
    hi: u64,
    mid: u64,
    lo: u64,
}

impl Wide {
    spec fn value(self) -> nat {
        (self.hi * 0x1_0000_0000_0000_0000_0000_0000_0000_0000 + self.mid * 0x1_0000_0000_0000_0000
            + self.lo) as nat
    }

    /// The product of a 128-bit and a 64-bit number.
    fn product(x: u128, y: u64) -> (w: Wide)
        ensures
            w.value() == x * y,
    {
        let xh: u64 = (x / 0x1_0000_0000_0000_0000) as u64;
        let xl: u64 = (x % 0x1_0000_0000_0000_0000) as u64;
        proof {
            lemma_product_fits(xh, y);
            lemma_product_fits(xl, y);
        }
        let a: u128 = (xh as u128) * (y as u128);
        let b: u128 = (xl as u128) * (y as u128);
        let bh: u128 = b / 0x1_0000_0000_0000_0000;
        let bl: u64 = (b % 0x1_0000_0000_0000_0000) as u64;
        let m: u128 = a + bh;
        let w = Wide {
            hi: (m / 0x1_0000_0000_0000_0000) as u64,
            mid: (m % 0x1_0000_0000_0000_0000) as u64,
            lo: bl,
        };
        proof {
            assert(w.value() == a * 0x1_0000_0000_0000_0000 + b);
            assert(x * y == (xh * y) * 0x1_0000_0000_0000_0000 + xl * y) by (nonlinear_arith)
                requires
                    x == xh * 0x1_0000_0000_0000_0000 + xl,
            ;
        }
        w
    }

    /// A tenth of the number, rounded down.
    fn tenth(&self) -> (w: Wide)
        ensures
            w.value() == self.value() / 10,
    {
        let q2: u64 = self.hi / 10;
        let r2: u64 = self.hi % 10;
        let c1: u128 = (r2 as u128) * 0x1_0000_0000_0000_0000 + (self.mid as u128);
        let q1: u64 = (c1 / 10) as u64;
        let r1: u64 = (c1 % 10) as u64;
        let c0: u128 = (r1 as u128) * 0x1_0000_0000_0000_0000 + (self.lo as u128);
        let q0: u64 = (c0 / 10) as u64;
        let w = Wide { hi: q2, mid: q1, lo: q0 };
        proof {
            let r0: int = (c0 % 10) as int;
            assert(self.value() == 10 * w.value() + r0);
        }
        w
    }
}

/// `x * y` divided by ten to the power `decimals`, rounded down.
pub open spec fn spec_scaled_product(x: u128, y: u64, decimals: u16) -> nat {
    (x * y / (pow10(decimals as nat) as int)) as nat
}

/// `x * y` divided by ten to the power `decimals`, rounded down, computed
/// without loss; `None` where that does not fit in 64 bits.
pub fn scaled_product(x: u128, y: u64, decimals: u16) -> (r: Option<u64>)
    ensures
        match r {
            Some(v) => v == spec_scaled_product(x, y, decimals),
            None => spec_scaled_product(x, y, decimals) > u64::MAX,
        },
{
    let mut w = Wide::product(x, y);
    let mut i: u16 = 0;
    proof {
        lemma_pow10_step(0);
    }
    while i < decimals
        invariant
            i <= decimals,
            w.value() == x * y / (pow10(i as nat) as int),
        decreases decimals - i,
    {
        proof {
            lemma_pow10_step(i as nat);
            assert(0 <= x * y) by (nonlinear_arith)
                requires
                    0 <= x,
                    0 <= y,
            ;
            lemma_div_denominator(x * y, pow10(i as nat) as int, 10);
            assert(pow10(i as nat) * 10 == pow10((i + 1) as nat));
        }
        w = w.tenth();
        i += 1;
    }
    if w.hi == 0 && w.mid == 0 {
        Some(w.lo)
    } else {
        None
    }
}

/// The governance tokens that a contribution earns: the contribution times
/// the expansion, rounded down.
pub open spec fn spec_votes(contribution: u64, expansion: Expansion) -> nat {
    spec_scaled_product(expansion.amount, contribution, expansion.decimals)
}

/// The governance tokens that a contribution earns, computed without loss;
/// `None` where they are more than 64 bits hold.
pub fn votes(contribution: u64, expansion: Expansion) -> (r: Option<u64>)
    ensures
        match r {
            Some(v) => v == spec_votes(contribution, expansion),
            None => spec_votes(contribution, expansion) > u64::MAX,
        },
{
    scaled_product(expansion.amount, contribution, expansion.decimals)
}

} // verus!
