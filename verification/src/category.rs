//! Food categories and the letter each one gives to a score.

use vstd::prelude::*;

verus! {

/// The kind of food being rated. It selects the cutoff tables and the letter
/// scale.
#[derive(Copy, Clone, Debug, PartialEq, Eq, Structural)]
pub enum Category {
    Drinks,
    Cheese,
    OilsAndFats,
    Other,
}

impl Category {
    /// The letter for `score`: drinks have their own scale, on which only water
    /// reaches `'A'`; every other category ignores `is_water`.
    pub open spec fn letter(self, score: int, is_water: bool) -> char {
        if self is Drinks {
            if is_water {
                'A'
            } else if score <= 1 {
                'B'
            } else if score <= 5 {
                'C'
            } else if score <= 9 {
                'D'
            } else {
                'E'
            }
        } else {
            if score <= -1 {
                'A'
            } else if score <= 2 {
                'B'
            } else if score <= 10 {
                'C'
            } else if score <= 18 {
                'D'
            } else {
                'E'
            }
        }
    }

    /// Maps a score to its letter, `'A'` (best) to `'E'` (worst).
    pub fn score_to_letter(self, score: isize, is_water: bool) -> (letter: char)
        ensures
            letter == self.letter(score as int, is_water),
            self is Drinks && is_water ==> letter == 'A',
            'A' <= letter <= 'E',
    {
        match self {
            Category::Drinks => {
                if is_water {
                    'A'
                } else if score <= 1 {
                    'B'
                } else if score <= 5 {
                    'C'
                } else if score <= 9 {
                    'D'
                } else {
                    'E'
                }
            },
            _ => {
                if score <= -1 {
                    'A'
                } else if score <= 2 {
                    'B'
                } else if score <= 10 {
                    'C'
                } else if score <= 18 {
                    'D'
                } else {
                    'E'
                }
            },
        }
    }
}

/// Water is always graded `'A'`, whatever its score.
pub proof fn lemma_water_is_a(score: int)
    ensures
        Category::Drinks.letter(score, true) == 'A',
{
}

/// The water flag plays no part outside drinks.
pub proof fn lemma_water_flag_only_for_drinks(cat: Category, score: int)
    requires
        !(cat is Drinks),
    ensures
        cat.letter(score, true) == cat.letter(score, false),
{
}

/// A higher score never earns a better letter.
pub proof fn lemma_letter_monotonic(cat: Category, low: int, high: int, is_water: bool)
    requires
        low <= high,
    ensures
        cat.letter(low, is_water) <= cat.letter(high, is_water),
{
}

} // verus!
