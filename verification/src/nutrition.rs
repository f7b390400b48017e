//! The nutrition record and the two quantities derived from it.
//!
//! Both derived quantities are quotients. They are rounded up to the next
//! thousandth, which no comparison with a cutoff can tell from the exact
//! quotient.

use crate::category::Category;
use vstd::arithmetic::div_mod::lemma_fundamental_div_mod;
use vstd::arithmetic::div_mod::lemma_fundamental_div_mod_converse;
use vstd::prelude::*;

verus! {

/// The least integer that is not below the exact quotient `num / den`.
pub open spec fn ceil_quotient(num: int, den: int) -> int
    recommends
        den != 0,
{
    if den > 0 {
        -((-num) / den)
    } else {
        -(num / (-den))
    }
}

/// Whether `cutoff` is strictly below the exact quotient `num / den`, stated
/// without dividing.
pub open spec fn below_quotient(cutoff: int, num: int, den: int) -> bool
    recommends
        den != 0,
{
    if den > 0 {
        cutoff * den < num
    } else {
        cutoff * den > num
    }
}

/// `x` where an `i64` can hold it, else the nearest `i64`.
pub open spec fn saturate(x: int) -> i64 {
    if x >= i64::MAX {
        i64::MAX
    } else if x <= i64::MIN {
        i64::MIN
    } else {
        x as i64
    }
}

/// An integer is below the rounded-up quotient exactly when it is below the
/// exact quotient.
pub proof fn lemma_ceil_quotient_threshold(num: int, den: int, cutoff: int)
    requires
        den != 0,
    ensures
        cutoff < ceil_quotient(num, den) <==> below_quotient(cutoff, num, den),
{
    if den > 0 {
        lemma_ceil_of_positive(num, den, cutoff);
    } else {
        lemma_ceil_of_positive(-num, -den, cutoff);
        assert(cutoff * (-den) == -(cutoff * den)) by (nonlinear_arith);
    }
}

proof fn lemma_ceil_of_positive(num: int, den: int, cutoff: int)
    requires
        den > 0,
    ensures
        cutoff < -((-num) / den) <==> cutoff * den < num,
{
    let f = (-num) / den;
    let r = (-num) % den;
    lemma_fundamental_div_mod(-num, den);
    assert(0 <= r < den);
    assert(num == (-f) * den - r) by (nonlinear_arith)
        requires
            -num == den * f + r,
    ;
    if cutoff < -f {
        assert(cutoff * den <= (-f - 1) * den) by (nonlinear_arith)
            requires
                cutoff <= -f - 1,
                den > 0,
        ;
        assert((-f - 1) * den == (-f) * den - den) by (nonlinear_arith);
    } else {
        assert(cutoff * den >= (-f) * den) by (nonlinear_arith)
            requires
                cutoff >= -f,
                den > 0,
        ;
    }
}

/// The nutritional values of a product, each in thousandths of its unit and
/// per 100 g or 100 ml.
#[derive(Clone, Copy, Debug, PartialEq, Eq, Structural)]
pub struct Nutrition {
    /// Energy, in kJ.
    pub energy: i64,
    /// All fat, in g.
    pub fat: i64,
    /// Saturated fat, in g.
    pub saturated_fats: i64,
    /// Sugar, in g.
    pub sugar: i64,
    /// Protein, in g.
    pub proteins: i64,
    /// Salt, in g.
    pub salt: i64,
    /// Fibre, in g.
    pub fibers: i64,
}

impl Nutrition {
    /// Sodium is salt divided by 2.5, rounded up.
    pub open spec fn spec_sodium(self) -> int {
        ceil_quotient(2 * self.salt, 5)
    }

    /// What the saturated-fat table is read with. For oils and fats it is the
    /// percentage of all fat that is saturated, `saturated_fats / fat * 100`,
    /// rounded up; a product of that category without any fat has no such
    /// percentage and is given the value that exceeds every cutoff. Every other
    /// category takes the amount of saturated fat as it is.
    pub open spec fn spec_saturated_fat_value(self, cat: Category) -> int {
        if cat is OilsAndFats {
            if self.fat == 0 {
                i64::MAX as int
            } else {
                ceil_quotient(100_000 * self.saturated_fats, self.fat as int)
            }
        } else {
            self.saturated_fats as int
        }
    }

    /// The sodium that corresponds to the salt: the salt divided by 2.5,
    /// rounded up.
    pub fn sodium(&self) -> (sodium: i64)
        ensures
            sodium == self.spec_sodium(),
    {
        ceil_ratio(2 * (self.salt as i128), 5)
    }

    /// The value that the saturated-fat table of `cat` is read with, held to
    /// the range of `i64`.
    pub fn saturated_fat_value(&self, cat: Category) -> (value: i64)
        ensures
            value == saturate(self.spec_saturated_fat_value(cat)),
    {
        if cat == Category::OilsAndFats {
            if self.fat == 0 {
                i64::MAX
            } else {
                ceil_ratio(100_000 * (self.saturated_fats as i128), self.fat as i128)
            }
        } else {
            self.saturated_fats
        }
    }
}

/// A cutoff is below the sodium exactly when it is below the salt divided by
/// 2.5.
pub proof fn lemma_sodium_threshold(nutrition: Nutrition, cutoff: int)
    ensures
        cutoff < nutrition.spec_sodium() <==> 5 * cutoff < 2 * nutrition.salt,
{
    lemma_ceil_quotient_threshold(2 * nutrition.salt, 5, cutoff);
}

/// For oils and fats with some fat, a cutoff is below the value that the
/// saturated-fat table is read with exactly when it is below
/// `saturated_fats / fat * 100`, a percentage counted in thousandths.
pub proof fn lemma_saturated_share_threshold(nutrition: Nutrition, cutoff: int)
    requires
        nutrition.fat != 0,
    ensures
        cutoff < nutrition.spec_saturated_fat_value(Category::OilsAndFats) <==> below_quotient(
            cutoff,
            100_000 * nutrition.saturated_fats,
            nutrition.fat as int,
        ),
{
    lemma_ceil_quotient_threshold(100_000 * nutrition.saturated_fats, nutrition.fat as int, cutoff);
}

/// The rounded-up quotient of `num` by `den`, held to the range of `i64`.
fn ceil_ratio(num: i128, den: i128) -> (q: i64)
    requires
        den != 0,
        -0x1_0000_0000_0000_0000_0000_0000 <= num <= 0x1_0000_0000_0000_0000_0000_0000,
        -0x1_0000_0000_0000_0000_0000_0000 <= den <= 0x1_0000_0000_0000_0000_0000_0000,
    ensures
        q == saturate(ceil_quotient(num as int, den as int)),
{
    let n: i128 = if den < 0 {
        -num
    } else {
        num
    };
    let d: i128 = if den < 0 {
        -den
    } else {
        den
    };
    assert(ceil_quotient(num as int, den as int) == -((-n) / (d as int)));
    let q: i128 = if n > 0 {
        let below: i128 = (n - 1) / d;
        proof {
            let r = (n - 1) % (d as int);
            lemma_fundamental_div_mod(n - 1, d as int);
            assert(-n == (-below - 1) * d + (d - r - 1)) by (nonlinear_arith)
                requires
                    n - 1 == d * below + r,
            ;
            lemma_fundamental_div_mod_converse(-n, d as int, -below - 1, d - r - 1);
            assert(0 <= below <= n - 1) by (nonlinear_arith)
                requires
                    n - 1 == d * below + r,
                    0 <= r < d,
                    n > 0,
            ;
        }
        below + 1
    } else {
        let above: i128 = (-n) / d;
        proof {
            let r = (-n) % (d as int);
            lemma_fundamental_div_mod(-n, d as int);
            assert(0 <= above <= -n) by (nonlinear_arith)
                requires
                    -n == d * above + r,
                    0 <= r < d,
                    -n >= 0,
            ;
        }
        -above
    };
    if q >= i64::MAX as i128 {
        i64::MAX
    } else if q <= i64::MIN as i128 {
        i64::MIN
    } else {
        q as i64
    }
}

} // verus!
