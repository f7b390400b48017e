//! The cutoff tables, in thousandths of each dimension's unit, and the choice
//! of tables that a category makes.

use crate::category::Category;
use crate::points::ascending;
use vstd::prelude::*;

verus! {

/// A cutoff that no value exceeds: it stands for an infinite threshold.
pub const UNREACHABLE: i64 = i64::MAX;

/// Energy, in kJ.
pub const ENERGY_CUTOFFS: [i64; 10] = [
    335_000,
    670_000,
    1_005_000,
    1_340_000,
    1_675_000,
    2_010_000,
    2_345_000,
    2_680_000,
    3_015_000,
    3_350_000,
];

/// Sugar, in g.
pub const SUGAR_CUTOFFS: [i64; 10] = [
    4_500,
    9_000,
    13_500,
    18_000,
    22_500,
    27_000,
    31_000,
    36_000,
    40_000,
    45_000,
];

/// Saturated fat, in g.
pub const SATURATED_FATS_CUTOFF: [i64; 10] = [
    1_000,
    2_000,
    3_000,
    4_000,
    5_000,
    6_000,
    7_000,
    8_000,
    9_000,
    10_000,
];

/// Sodium. The derived sodium amount is compared with these numbers as it
/// stands, in the unit of the salt amount it was derived from.
pub const SODIUM_CUTOFF: [i64; 10] = [
    90_000,
    180_000,
    270_000,
    360_000,
    450_000,
    540_000,
    630_000,
    720_000,
    810_000,
    900_000,
];

/// Fruit and vegetables, in percent. The last five entries are unreachable, so
/// this table gives at most five points.
pub const FRUITS_CUTOFFS: [i64; 10] = [
    40_000,
    60_000,
    80_000,
    80_000,
    80_000,
    UNREACHABLE,
    UNREACHABLE,
    UNREACHABLE,
    UNREACHABLE,
    UNREACHABLE,
];

/// Fibre, in g.
pub const FIBERS_CUTOFFS: [i64; 5] = [800, 1_900, 2_800, 3_700, 4_700];

/// Protein, in g.
pub const PROTEIN_CUTOFFS: [i64; 5] = [1_600, 3_200, 4_800, 6_400, 8_000];

/// Energy of drinks, in kJ.
pub const DRINKS_ENERGY_CUTOFFS: [i64; 10] = [
    0,
    30_000,
    60_000,
    90_000,
    120_000,
    150_000,
    180_000,
    210_000,
    240_000,
    270_000,
];

/// Sugar of drinks, in g.
pub const DRINKS_SUGAR_CUTOFFS: [i64; 10] = [
    0,
    1_500,
    3_000,
    4_500,
    6_000,
    7_500,
    9_000,
    10_500,
    12_000,
    13_500,
];

/// Fruit and vegetables in drinks, in percent.
pub const DRINKS_FRUITS_CUTOFFS: [i64; 10] = [
    0,
    40_000,
    40_000,
    60_000,
    60_000,
    80_000,
    80_000,
    80_000,
    80_000,
    80_000,
];

/// Saturated fat of oils and fats, as a percentage of all their fat.
pub const OILS_SATURATED_SHARE_CUTOFFS: [i64; 10] = [
    10_000,
    16_000,
    22_000,
    28_000,
    34_000,
    40_000,
    46_000,
    52_000,
    58_000,
    64_000,
];

/// The seven tables that rate one category, one per scored dimension.
#[derive(Clone, Copy, Debug)]
pub struct ThresholdSet {
    pub energy: [i64; 10],
    pub fats: [i64; 10],
    pub sugar: [i64; 10],
    pub protein: [i64; 5],
    pub sodium: [i64; 10],
    pub fibers: [i64; 5],
    pub fruits: [i64; 10],
}

impl ThresholdSet {
    /// Every table is ascending, which is what the point counter needs.
    pub open spec fn wf(self) -> bool {
        &&& ascending(self.energy@)
        &&& ascending(self.fats@)
        &&& ascending(self.sugar@)
        &&& ascending(self.protein@)
        &&& ascending(self.sodium@)
        &&& ascending(self.fibers@)
        &&& ascending(self.fruits@)
    }
}

impl Category {
    /// The tables of this category: drinks have their own energy, sugar and
    /// fruit tables, oils and fats their own saturated-fat table, and all else
    /// is shared.
    pub open spec fn cutoffs(self) -> ThresholdSet {
        ThresholdSet {
            energy: if self is Drinks {
                DRINKS_ENERGY_CUTOFFS
            } else {
                ENERGY_CUTOFFS
            },
            fats: if self is OilsAndFats {
                OILS_SATURATED_SHARE_CUTOFFS
            } else {
                SATURATED_FATS_CUTOFF
            },
            sugar: if self is Drinks {
                DRINKS_SUGAR_CUTOFFS
            } else {
                SUGAR_CUTOFFS
            },
            protein: PROTEIN_CUTOFFS,
            sodium: SODIUM_CUTOFF,
            fibers: FIBERS_CUTOFFS,
            fruits: if self is Drinks {
                DRINKS_FRUITS_CUTOFFS
            } else {
                FRUITS_CUTOFFS
            },
        }
    }

    /// Resolves the seven tables of this category.
    pub fn all_cutoffs(&self) -> (set: ThresholdSet)
        ensures
            set == self.cutoffs(),
            set.wf(),
    {
        let drinks = *self == Category::Drinks;
        let oils = *self == Category::OilsAndFats;
        ThresholdSet {
            energy: if drinks {
                DRINKS_ENERGY_CUTOFFS
            } else {
                ENERGY_CUTOFFS
            },
            fats: if oils {
                OILS_SATURATED_SHARE_CUTOFFS
            } else {
                SATURATED_FATS_CUTOFF
            },
            sugar: if drinks {
                DRINKS_SUGAR_CUTOFFS
            } else {
                SUGAR_CUTOFFS
            },
            protein: PROTEIN_CUTOFFS,
            sodium: SODIUM_CUTOFF,
            fibers: FIBERS_CUTOFFS,
            fruits: if drinks {
                DRINKS_FRUITS_CUTOFFS
            } else {
                FRUITS_CUTOFFS
            },
        }
    }
}

/// Every table of every category is ascending.
pub proof fn lemma_cutoffs_ascending(cat: Category)
    ensures
        cat.cutoffs().wf(),
{
}

} // verus!
