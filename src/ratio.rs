use vstd::prelude::*;

verus! {

/// The fraction `numerator / denominator` of two integers, kept exactly.
#[derive(Debug, Clone, Copy, PartialEq, Eq, Structural)]
pub struct Ratio {
    pub numerator: i64,
    pub denominator: i64,
}

impl Ratio {
    /// A fraction has a non-zero denominator.
    pub open spec fn wf(&self) -> bool {
        self.denominator != 0
    }

    /// `self >= other` as rational numbers: both sides of
    /// `n1 / d1 >= n2 / d2` multiplied by `(d1 * d2)^2`, which is positive.
    pub open spec fn spec_at_least(&self, other: Ratio) -> bool {
        self.numerator * self.denominator * other.denominator * other.denominator
            >= other.numerator * other.denominator * self.denominator * self.denominator
    }

    pub fn new(numerator: i64, denominator: i64) -> (r: Ratio)
        requires
            denominator != 0,
        ensures
            r.numerator == numerator,
            r.denominator == denominator,
            r.wf(),
    {
        Ratio { numerator, denominator }
    }

    /// Whether this fraction is at least `other`.
    pub fn at_least(&self, other: &Ratio) -> (r: bool)
        requires
            self.wf(),
            other.wf(),
        ensures
            r == self.spec_at_least(*other),
    {
        let n1 = self.numerator as i128;
        let d1 = self.denominator as i128;
        let n2 = other.numerator as i128;
        let d2 = other.denominator as i128;
        proof {
            lemma_product_fits(n1 as int, d2 as int);
            lemma_product_fits(n2 as int, d1 as int);
        }
        let left = n1 * d2;
        let right = n2 * d1;
        let same_sign = (d1 > 0) == (d2 > 0);
        proof {
            lemma_compare_by_cross_products(n1 as int, d1 as int, n2 as int, d2 as int);
        }
        if same_sign {
            left >= right
        } else {
            left <= right
        }
    }
}

proof fn lemma_product_fits(a: int, b: int)
    requires
        i64::MIN <= a <= i64::MAX,
        i64::MIN <= b <= i64::MAX,
    ensures
        i128::MIN <= a * b <= i128::MAX,
{
    assert(-0x4000_0000_0000_0000_0000_0000_0000_0000 <= a * b <= 0x4000_0000_0000_0000_0000_0000_0000_0000)
        by (nonlinear_arith)
        requires
            -0x8000_0000_0000_0000 <= a <= 0x7fff_ffff_ffff_ffff,
            -0x8000_0000_0000_0000 <= b <= 0x7fff_ffff_ffff_ffff,
    ;
}

proof fn lemma_compare_by_cross_products(n1: int, d1: int, n2: int, d2: int)
    requires
        d1 != 0,
        d2 != 0,
    ensures
        (d1 > 0) == (d2 > 0) ==> (n1 * d1 * d2 * d2 >= n2 * d2 * d1 * d1 <==> n1 * d2 >= n2 * d1),
        (d1 > 0) != (d2 > 0) ==> (n1 * d1 * d2 * d2 >= n2 * d2 * d1 * d1 <==> n1 * d2 <= n2 * d1),
{
    let p = d1 * d2;
    assert(n1 * d1 * d2 * d2 == (n1 * d2) * p) by (nonlinear_arith)
        requires
            p == d1 * d2,
    ;
    assert(n2 * d2 * d1 * d1 == (n2 * d1) * p) by (nonlinear_arith)
        requires
            p == d1 * d2,
    ;
    assert((d1 > 0) == (d2 > 0) ==> p > 0) by (nonlinear_arith)
        requires
            p == d1 * d2,
            d1 != 0,
            d2 != 0,
    ;
    assert((d1 > 0) != (d2 > 0) ==> p < 0) by (nonlinear_arith)
        requires
            p == d1 * d2,
            d1 != 0,
            d2 != 0,
    ;
    lemma_scale_compare(n1 * d2, n2 * d1, p);
}

proof fn lemma_scale_compare(a: int, b: int, p: int)
    requires
        p != 0,
    ensures
        p > 0 ==> (a * p >= b * p <==> a >= b),
        p < 0 ==> (a * p >= b * p <==> a <= b),
{
    assert(p > 0 ==> (a * p >= b * p <==> a >= b)) by (nonlinear_arith);
    assert(p < 0 ==> (a * p >= b * p <==> a <= b)) by (nonlinear_arith);
}

} // verus!
