//! Nutri-Score over fixed-point quantities.
//!
//! A product is rated from its nutritional values and its category. Each
//! dimension earns as many points as it exceeds cutoffs of its table, the
//! points are combined into a score, and the score earns a letter from `'A'`
//! (best) to `'E'` (worst).
//!
//! Every quantity (an amount of a nutrient, a percentage, a cutoff) is an `i64`
//! counting thousandths of its unit, so `4.5 g` is `4_500`.
//!
//! - [`category`]: the categories and their letter scales
//! - [`cutoffs`]: the tables and which of them a category uses
//! - [`points`]: the point counter
//! - [`nutrition`]: the nutrition record and the quantities derived from it
//! - [`score`]: the score, its parts and the gauges to show

pub mod category;
pub mod cutoffs;
pub mod nutrition;
pub mod points;
pub mod score;
