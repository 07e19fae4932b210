//! Exact arithmetic on products of 128-bit amounts.
//!
//! Reserves and deposits are `u128`, so their products need up to 256 bits
//! and the fee-scaled products of the swap check up to 512. The numbers are
//! held in 128-bit limbs and every operation is exact.

use vstd::prelude::*;

verus! {

/// Two to the power 64.
pub const HALF: u128 = 0x1_0000_0000_0000_0000;

/// Two to the power 128.
pub open spec fn limb() -> int {
    0x1_0000_0000_0000_0000_0000_0000_0000_0000int
}

/// A natural number below 2^256, in two 128-bit limbs.
#[derive(Clone, Copy, Debug)]
pub struct Wide {
    pub hi: u128,
    pub lo: u128,
}

impl View for Wide {
    type V = int;

    open spec fn view(&self) -> int {
        self.hi * limb() + self.lo
    }
}

/// A natural number below 2^512, in four 128-bit limbs, `l0` the lowest.
#[derive(Clone, Copy, Debug)]
pub struct Quad {
    pub l3: u128,
    pub l2: u128,
    pub l1: u128,
    pub l0: u128,
}

impl View for Quad {
    type V = int;

    open spec fn view(&self) -> int {
        ((self.l3 * limb() + self.l2) * limb() + self.l1) * limb() + self.l0
    }
}

/// The integer square root: the largest `r` with `r * r <= n`.
pub open spec fn is_sqrt_of(r: int, n: int) -> bool {
    0 <= r && r * r <= n && n < (r + 1) * (r + 1)
}

proof fn lemma_mul_le(x: int, y: int, bx: int, by: int)
    by (nonlinear_arith)
    requires
        0 <= x <= bx,
        0 <= y <= by,
    ensures
        0 <= x * y <= bx * by,
{
}

proof fn lemma_schoolbook(a1: int, a0: int, b1: int, b0: int, base: int)
    ensures
        (a1 * base + a0) * (b1 * base + b0) == (a1 * b1) * (base * base) + (a0 * b1 + a1 * b0)
            * base + a0 * b0,
{
    let x: int = a1 * base;
    let y: int = b1 * base;
    assert((x + a0) * (y + b0) == x * y + x * b0 + a0 * y + a0 * b0) by (nonlinear_arith);
    assert(x * y == (a1 * b1) * (base * base)) by (nonlinear_arith)
        requires
            x == a1 * base,
            y == b1 * base,
    ;
    assert(x * b0 == (a1 * b0) * base) by (nonlinear_arith)
        requires
            x == a1 * base,
    ;
    assert(a0 * y == (a0 * b1) * base) by (nonlinear_arith)
        requires
            y == b1 * base,
    ;
    assert((a0 * b1 + a1 * b0) * base == (a0 * b1) * base + (a1 * b0) * base)
        by (nonlinear_arith);
}

proof fn lemma_step(q: int, d: int)
    by (nonlinear_arith)
    ensures
        (q + 1) * d == q * d + d,
        (q + 1) * (q + 1) == q * q + 2 * q + 1,
{
}

proof fn lemma_square_monotone(x: int, y: int)
    by (nonlinear_arith)
    requires
        0 <= x <= y,
    ensures
        x * x <= y * y,
{
}

/// Two numbers that are both the integer square root of `n` are equal.
pub proof fn lemma_sqrt_unique(r: int, s: int, n: int)
    requires
        is_sqrt_of(r, n),
        is_sqrt_of(s, n),
    ensures
        r == s,
{
    if r < s {
        lemma_square_monotone(r + 1, s);
    } else if s < r {
        lemma_square_monotone(s + 1, r);
    }
}

/// A quotient `q` with `q * d <= n < (q + 1) * d` is the floor of `n / d`.
pub proof fn lemma_quotient(n: int, d: int, q: int)
    requires
        d > 0,
        q * d <= n,
        n < (q + 1) * d,
    ensures
        q == n / d,
{
    lemma_step(q, d);
    vstd::arithmetic::div_mod::lemma_fundamental_div_mod_converse(n, d, q, n - q * d);
}

/// The sum of two limbs, as a low limb and a carry of 0 or 1.
pub fn add_carry(a: u128, b: u128) -> (r: (u128, u128))
    ensures
        r.0 + r.1 * limb() == a + b,
        r.1 <= 1,
{
    if a > u128::MAX - b {
        (a - (u128::MAX - b) - 1, 1)
    } else {
        (a + b, 0)
    }
}

/// The exact product of two 128-bit numbers.
pub fn mul_wide(a: u128, b: u128) -> (r: Wide)
    ensures
        r@ == a * b,
{
    let a0: u128 = a % HALF;
    let a1: u128 = a / HALF;
    let b0: u128 = b % HALF;
    let b1: u128 = b / HALF;
    proof {
        lemma_mul_le(a0 as int, b0 as int, HALF - 1, HALF - 1);
        lemma_mul_le(a0 as int, b1 as int, HALF - 1, HALF - 1);
        lemma_mul_le(a1 as int, b0 as int, HALF - 1, HALF - 1);
        lemma_mul_le(a1 as int, b1 as int, HALF - 1, HALF - 1);
        assert((HALF - 1) * (HALF - 1) == 0xffff_ffff_ffff_fffe_0000_0000_0000_0001int);
    }
    let ll: u128 = a0 * b0;
    let lh: u128 = a0 * b1;
    let hl: u128 = a1 * b0;
    let hh: u128 = a1 * b1;
    let cross: u128 = ll / HALF + lh % HALF + hl % HALF;
    let lo: u128 = (cross % HALF) * HALF + ll % HALF;
    let hi: u128 = hh + lh / HALF + hl / HALF + cross / HALF;
    proof {
        lemma_schoolbook(a1 as int, a0 as int, b1 as int, b0 as int, HALF as int);
        assert(HALF * HALF == limb());
        assert(a * b == hh * limb() + (lh + hl) * HALF + ll);
    }
    Wide { hi, lo }
}

impl Wide {
    /// A 128-bit number as a wide one.
    pub fn from_u128(x: u128) -> (r: Wide)
        ensures
            r@ == x,
    {
        Wide { hi: 0, lo: x }
    }

    /// Whether `self` is at most `other`.
    pub fn le(&self, other: &Wide) -> (r: bool)
        ensures
            r == (self@ <= other@),
    {
        self.hi < other.hi || (self.hi == other.hi && self.lo <= other.lo)
    }

    /// The difference of two wide numbers, the larger first.
    pub fn minus(&self, other: &Wide) -> (r: Wide)
        requires
            other@ <= self@,
        ensures
            r@ == self@ - other@,
    {
        if self.lo >= other.lo {
            Wide { hi: self.hi - other.hi, lo: self.lo - other.lo }
        } else {
            Wide { hi: self.hi - other.hi - 1, lo: u128::MAX - other.lo + self.lo + 1 }
        }
    }

    /// The exact product of two wide numbers.
    pub fn times(&self, other: &Wide) -> (r: Quad)
        ensures
            r@ == self@ * other@,
    {
        let p0: Wide = mul_wide(self.lo, other.lo);
        let p1: Wide = mul_wide(self.lo, other.hi);
        let p2: Wide = mul_wide(self.hi, other.lo);
        let p3: Wide = mul_wide(self.hi, other.hi);
        let (s1, c1) = add_carry(p0.hi, p1.lo);
        let (l1, c2) = add_carry(s1, p2.lo);
        let (s2, c3) = add_carry(p1.hi, p2.hi);
        let (s3, c4) = add_carry(s2, p3.lo);
        let (l2, c5) = add_carry(s3, c1 + c2);
        proof {
            lemma_schoolbook(
                self.hi as int,
                self.lo as int,
                other.hi as int,
                other.lo as int,
                limb(),
            );
            lemma_mul_le(self@, other@, limb() * limb() - 1, limb() * limb() - 1);
            let top: int = p3.hi + c3 + c4 + c5;
            assert(self@ * other@ == ((top * limb() + l2) * limb() + l1) * limb() + p0.lo)
                by (nonlinear_arith)
                requires
                    self@ * other@ == (self.hi * other.hi) * (limb() * limb()) + (self.lo
                        * other.hi + self.hi * other.lo) * limb() + self.lo * other.lo,
                    p0.hi * limb() + p0.lo == self.lo * other.lo,
                    p1.hi * limb() + p1.lo == self.lo * other.hi,
                    p2.hi * limb() + p2.lo == self.hi * other.lo,
                    p3.hi * limb() + p3.lo == self.hi * other.hi,
                    s1 + c1 * limb() == p0.hi + p1.lo,
                    l1 + c2 * limb() == s1 + p2.lo,
                    s2 + c3 * limb() == p1.hi + p2.hi,
                    s3 + c4 * limb() == s2 + p3.lo,
                    l2 + c5 * limb() == s3 + (c1 + c2),
                    top == p3.hi + c3 + c4 + c5,
            ;
            assert(top < limb()) by (nonlinear_arith)
                requires
                    self@ * other@ == ((top * limb() + l2) * limb() + l1) * limb() + p0.lo,
                    self@ * other@ <= (limb() * limb() - 1) * (limb() * limb() - 1),
                    0 <= l2,
                    0 <= l1,
                    0 <= p0.lo,
                    limb() == 0x1_0000_0000_0000_0000_0000_0000_0000_0000int,
            ;
        }
        let l3: u128 = p3.hi + c3 + c4 + c5;
        Quad { l3, l2, l1, l0: p0.lo }
    }
}

impl Quad {
    /// Whether `self` is at most `other`.
    pub fn le(&self, other: &Quad) -> (r: bool)
        ensures
            r == (self@ <= other@),
    {
        if self.l3 != other.l3 {
            self.l3 < other.l3
        } else if self.l2 != other.l2 {
            self.l2 < other.l2
        } else if self.l1 != other.l1 {
            self.l1 < other.l1
        } else {
            self.l0 <= other.l0
        }
    }
}

/// The floor of `a * b / d`, or `None` where it does not fit in 128 bits.
pub fn mul_div(a: u128, b: u128, d: u128) -> (r: Option<u128>)
    requires
        d > 0,
    ensures
        match r {
            Some(q) => q == (a * b) / (d as int),
            None => (a * b) / (d as int) > u128::MAX,
        },
{
    let n: Wide = mul_wide(a, b);
    if n.hi >= d {
        proof {
            assert(n@ >= (u128::MAX + 1) * d) by (nonlinear_arith)
                requires
                    n@ == n.hi * limb() + n.lo,
                    n.hi >= d,
                    limb() == u128::MAX + 1,
            ;
            vstd::arithmetic::div_mod::lemma_div_is_ordered((u128::MAX + 1) * d, n@, d as int);
            vstd::arithmetic::div_mod::lemma_div_multiples_vanish(u128::MAX + 1, d as int);
        }
        return None;
    }
    let mut low: u128 = 0;
    let mut high: u128 = u128::MAX;
    proof {
        assert(low * d <= n@) by (nonlinear_arith)
            requires
                low == 0,
                n@ >= 0,
        ;
        assert(n@ < (high + 1) * d) by (nonlinear_arith)
            requires
                n@ == n.hi * limb() + n.lo,
                n.hi < d,
                n.lo < limb(),
                high + 1 == limb(),
        ;
    }
    while low < high
        invariant
            low <= high,
            d > 0,
            low * d <= n@,
            n@ < (high + 1) * d,
        decreases high - low,
    {
        let mid: u128 = low + (high - low - 1) / 2 + 1;
        let p: Wide = mul_wide(mid, d);
        if p.le(&n) {
            low = mid;
        } else {
            high = mid - 1;
        }
    }
    proof {
        lemma_quotient(n@, d as int, low as int);
    }
    Some(low)
}

/// The integer square root of the product `a * b`.
pub fn sqrt_product(a: u128, b: u128) -> (r: u128)
    ensures
        is_sqrt_of(r as int, a * b),
{
    let n: Wide = mul_wide(a, b);
    let mut low: u128 = 0;
    let mut high: u128 = u128::MAX;
    proof {
        assert(low * low <= n@) by (nonlinear_arith)
            requires
                low == 0,
                n@ >= 0,
        ;
        assert((high + 1) * (high + 1) == limb() * limb()) by (nonlinear_arith)
            requires
                high + 1 == limb(),
        ;
        assert(n@ < limb() * limb()) by (nonlinear_arith)
            requires
                n@ == n.hi * limb() + n.lo,
                n.hi < limb(),
                n.lo < limb(),
        ;
    }
    while low < high
        invariant
            low <= high,
            low * low <= n@,
            n@ < (high + 1) * (high + 1),
        decreases high - low,
    {
        let mid: u128 = low + (high - low - 1) / 2 + 1;
        let p: Wide = mul_wide(mid, mid);
        if p.le(&n) {
            low = mid;
        } else {
            high = mid - 1;
        }
    }
    low
}

} // verus!
