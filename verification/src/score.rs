//! The score: points per dimension, how they combine, and what to show of them.

use crate::category::Category;
use crate::cutoffs::UNREACHABLE;
use crate::nutrition::saturate;
use crate::nutrition::Nutrition;
use crate::points::ascending;
use crate::points::count_below;
use crate::points::lemma_count_above_maximum;
use crate::points::lemma_count_agrees;
use crate::points::lemma_count_at_split;
use crate::points::lemma_count_bounded;
use crate::points::lemma_count_monotonic;
use crate::points::points;
use vstd::prelude::*;

verus! {

/// How a gauge is coloured: green for what improves a score, red for what
/// worsens it.
#[derive(Clone, Copy, Debug, PartialEq, Eq, Structural)]
pub enum Style {
    Green,
    Red,
}

/// One dimension's outcome, ready to be shown as a bar: `position` of the
/// `length` cutoffs are exceeded.
#[derive(Clone, Copy, Debug, PartialEq, Eq)]
pub struct Gauge<'a> {
    pub name: &'a str,
    pub length: usize,
    pub position: usize,
    pub style: Style,
}

/// A score with the point counts it was made of.
#[derive(Debug, PartialEq, Eq)]
pub struct Scorecard {
    /// The score: the lower, the better.
    pub score: isize,
    /// The sum of the points for energy, sugar, saturated fat and sodium.
    pub negative: usize,
    /// The points for the share of fruit and vegetables.
    pub fruits_points: usize,
    /// The points for fibre, counted in the score or not.
    pub fibers_points: usize,
    /// The points for protein, counted in the score or not.
    pub proteins_points: usize,
    /// Whether fibre and protein were left out of the score.
    pub suppressed: bool,
    /// What to show, in order.
    pub gauges: Vec<Gauge<'static>>,
}

/// A score and the letter it earns.
#[derive(Clone, Copy, Debug, PartialEq, Eq, Structural)]
pub struct ScoreResult {
    pub score: isize,
    pub letter: char,
}

/// The gauge of `value` on `table`.
pub open spec fn gauge_of<'a>(
    name: &'a str,
    table: Seq<i64>,
    value: int,
    style: Style,
) -> Gauge<'a> {
    Gauge {
        name,
        length: table.len() as usize,
        position: count_below(table, value) as usize,
        style,
    }
}

/// The points of the four dimensions that worsen a score: energy, sugar,
/// saturated fat and sodium.
pub open spec fn negative_points(cat: Category, nutrition: Nutrition) -> nat {
    let tables = cat.cutoffs();
    count_below(tables.energy@, nutrition.energy as int)
        + count_below(tables.sugar@, nutrition.sugar as int)
        + count_below(tables.fats@, nutrition.spec_saturated_fat_value(cat))
        + count_below(tables.sodium@, nutrition.spec_sodium())
}

/// The points for the share of fruit and vegetables.
pub open spec fn fruits_points(cat: Category, fruits_value: int) -> nat {
    count_below(cat.cutoffs().fruits@, fruits_value)
}

/// The points for fibre.
pub open spec fn fibers_points(cat: Category, nutrition: Nutrition) -> nat {
    count_below(cat.cutoffs().fibers@, nutrition.fibers as int)
}

/// The points for protein.
pub open spec fn proteins_points(cat: Category, nutrition: Nutrition) -> nat {
    count_below(cat.cutoffs().protein@, nutrition.proteins as int)
}

/// Whether fibre and protein are left out of the score: never for cheese, and
/// elsewhere when the negative points reach 11 while fruit and vegetables give
/// fewer than 5.
pub open spec fn suppresses(cat: Category, negative: int, fruits: int) -> bool {
    !(cat is Cheese) && negative >= 11 && fruits < 5
}

/// The score made of the point counts: the negative points less the positive
/// ones that count.
pub open spec fn composed(
    cat: Category,
    negative: int,
    fruits: int,
    fibers: int,
    proteins: int,
) -> int {
    if suppresses(cat, negative, fruits) {
        negative - fruits
    } else {
        negative - (fruits + fibers + proteins)
    }
}

/// The score of a product.
pub open spec fn nutriscore(cat: Category, nutrition: Nutrition, fruits_value: int) -> int {
    composed(
        cat,
        negative_points(cat, nutrition) as int,
        fruits_points(cat, fruits_value) as int,
        fibers_points(cat, nutrition) as int,
        proteins_points(cat, nutrition) as int,
    )
}

/// The gauges of a product in the order they are shown: energy, sugar, fats,
/// sodium, fruit and vegetables, and then fibre and protein unless they are
/// left out of the score.
pub open spec fn gauges_of(
    cat: Category,
    nutrition: Nutrition,
    fruits_value: int,
) -> Seq<Gauge<'static>> {
    let tables = cat.cutoffs();
    let negative = negative_points(cat, nutrition) as int;
    let fruits = fruits_points(cat, fruits_value) as int;
    let always = seq![
        gauge_of("Energy", tables.energy@, nutrition.energy as int, Style::Red),
        gauge_of("Sugar", tables.sugar@, nutrition.sugar as int, Style::Red),
        gauge_of("Fats", tables.fats@, nutrition.spec_saturated_fat_value(cat), Style::Red),
        gauge_of("Sodium", tables.sodium@, nutrition.spec_sodium(), Style::Red),
        gauge_of("Fruits & Vegs", tables.fruits@, fruits_value, Style::Green),
    ];
    let counted = seq![
        gauge_of("Fibers", tables.fibers@, nutrition.fibers as int, Style::Green),
        gauge_of("Protein", tables.protein@, nutrition.proteins as int, Style::Green),
    ];
    if suppresses(cat, negative, fruits) {
        always
    } else {
        always + counted
    }
}

/// Rates `value` on the ascending table `arr` and describes the bar for it.
pub fn draw<'a>(name: &'a str, arr: &[i64], value: &i64, style: Style) -> (gauge: Gauge<'a>)
    requires
        ascending(arr@),
    ensures
        gauge == gauge_of(name, arr@, *value as int, style),
        gauge.length == arr@.len(),
        gauge.position == count_below(arr@, *value as int),
        gauge.position <= gauge.length,
{
    let p = points(arr, value);
    Gauge { name, length: arr.len(), position: p, style }
}

/// The gauge of a dimension that improves the score.
pub fn draw_positive<'a>(name: &'a str, arr: &[i64], value: &i64) -> (gauge: Gauge<'a>)
    requires
        ascending(arr@),
    ensures
        gauge == gauge_of(name, arr@, *value as int, Style::Green),
        gauge.length == arr@.len(),
        gauge.position == count_below(arr@, *value as int),
        gauge.position <= gauge.length,
{
    draw(name, arr, value, Style::Green)
}

/// The gauge of a dimension that worsens the score.
pub fn draw_negative<'a>(name: &'a str, arr: &[i64], value: &i64) -> (gauge: Gauge<'a>)
    requires
        ascending(arr@),
    ensures
        gauge == gauge_of(name, arr@, *value as int, Style::Red),
        gauge.length == arr@.len(),
        gauge.position == count_below(arr@, *value as int),
        gauge.position <= gauge.length,
{
    draw(name, arr, value, Style::Red)
}

/// Combines point counts into a score.
pub fn compose(
    cat: Category,
    negative: usize,
    fruits: usize,
    fibers: usize,
    proteins: usize,
) -> (score: isize)
    requires
        negative <= isize::MAX,
        fruits + fibers + proteins <= isize::MAX,
    ensures
        score == composed(cat, negative as int, fruits as int, fibers as int, proteins as int),
        suppresses(cat, negative as int, fruits as int) ==> score == negative - fruits,
        !suppresses(cat, negative as int, fruits as int)
            ==> score == negative - (fruits + fibers + proteins),
{
    if cat == Category::Cheese {
        negative as isize - (fruits + fibers + proteins) as isize
    } else if negative >= 11 && fruits < 5 {
        negative as isize - fruits as isize
    } else {
        negative as isize - (fruits + fibers + proteins) as isize
    }
}

/// Rates a product: each dimension gets its points from the tables of `cat`,
/// and the points are combined into the score.
pub fn calculate_nutriscore(
    cat: Category,
    nutrition: &Nutrition,
    fruits_value: i64,
) -> (card: Scorecard)
    ensures
        card.score == nutriscore(cat, *nutrition, fruits_value as int),
        card.score == composed(
            cat,
            card.negative as int,
            card.fruits_points as int,
            card.fibers_points as int,
            card.proteins_points as int,
        ),
        card.negative == negative_points(cat, *nutrition),
        card.fruits_points == fruits_points(cat, fruits_value as int),
        card.fibers_points == fibers_points(cat, *nutrition),
        card.proteins_points == proteins_points(cat, *nutrition),
        card.suppressed == suppresses(cat, card.negative as int, card.fruits_points as int),
        card.gauges@ == gauges_of(cat, *nutrition, fruits_value as int),
        -20 <= card.score <= 40,
{
    let tables = cat.all_cutoffs();
    let fat_value = nutrition.saturated_fat_value(cat);
    proof {
        lemma_count_of_saturated(tables.fats@, nutrition.spec_saturated_fat_value(cat));
    }
    let energy = draw_negative("Energy", tables.energy.as_slice(), &nutrition.energy);
    let sugar = draw_negative("Sugar", tables.sugar.as_slice(), &nutrition.sugar);
    let fats = draw_negative("Fats", tables.fats.as_slice(), &fat_value);
    let sodium = draw_negative("Sodium", tables.sodium.as_slice(), &nutrition.sodium());
    let fruits = draw_positive("Fruits & Vegs", tables.fruits.as_slice(), &fruits_value);
    let fibers = draw_positive("Fibers", tables.fibers.as_slice(), &nutrition.fibers);
    let proteins = draw_positive("Protein", tables.protein.as_slice(), &nutrition.proteins);
    let negative = energy.position + sugar.position + fats.position + sodium.position;
    let score = compose(cat, negative, fruits.position, fibers.position, proteins.position);
    let suppressed = cat != Category::Cheese && negative >= 11 && fruits.position < 5;
    let mut gauges: Vec<Gauge<'static>> = Vec::new();
    gauges.push(energy);
    gauges.push(sugar);
    gauges.push(fats);
    gauges.push(sodium);
    gauges.push(fruits);
    if !suppressed {
        gauges.push(fibers);
        gauges.push(proteins);
    }
    Scorecard {
        score,
        negative,
        fruits_points: fruits.position,
        fibers_points: fibers.position,
        proteins_points: proteins.position,
        suppressed,
        gauges,
    }
}

/// Rates a product and grades the score.
pub fn evaluate(
    cat: Category,
    nutrition: &Nutrition,
    fruits_value: i64,
    is_water: bool,
) -> (result: ScoreResult)
    ensures
        result.score == nutriscore(cat, *nutrition, fruits_value as int),
        result.letter == cat.letter(result.score as int, is_water),
{
    let card = calculate_nutriscore(cat, nutrition, fruits_value);
    ScoreResult { score: card.score, letter: cat.score_to_letter(card.score, is_water) }
}

/// Outside cheese, fibre and protein count when the negative points stay under
/// 11 or fruit and vegetables give at least 5 points, and are absent from the
/// score otherwise, whatever they are.
pub proof fn lemma_suppression_rule(
    cat: Category,
    negative: int,
    fruits: int,
    fibers: int,
    proteins: int,
)
    requires
        !(cat is Cheese),
    ensures
        negative < 11 || fruits >= 5
            ==> composed(cat, negative, fruits, fibers, proteins)
                == negative - (fruits + fibers + proteins),
        negative >= 11 && fruits < 5
            ==> composed(cat, negative, fruits, fibers, proteins) == negative - fruits,
{
}

/// Cheese always counts fibre and protein.
pub proof fn lemma_cheese_counts_all(negative: int, fruits: int, fibers: int, proteins: int)
    ensures
        !suppresses(Category::Cheese, negative, fruits),
        composed(Category::Cheese, negative, fruits, fibers, proteins)
            == negative - (fruits + fibers + proteins),
{
}

/// The score of any product lies between -20 and 40.
pub proof fn lemma_score_range(cat: Category, nutrition: Nutrition, fruits_value: int)
    ensures
        -20 <= nutriscore(cat, nutrition, fruits_value) <= 40,
{
    let tables = cat.cutoffs();
    lemma_count_bounded(tables.energy@, nutrition.energy as int);
    lemma_count_bounded(tables.sugar@, nutrition.sugar as int);
    lemma_count_bounded(tables.fats@, nutrition.spec_saturated_fat_value(cat));
    lemma_count_bounded(tables.sodium@, nutrition.spec_sodium());
    lemma_count_bounded(tables.fruits@, fruits_value);
    lemma_count_bounded(tables.fibers@, nutrition.fibers as int);
    lemma_count_bounded(tables.protein@, nutrition.proteins as int);
}

/// Outside drinks, fruit and vegetables give at most 5 points: the other five
/// cutoffs of their table are unreachable.
pub proof fn lemma_fruits_points_capped(cat: Category, fruits_value: i64)
    requires
        !(cat is Drinks),
    ensures
        fruits_points(cat, fruits_value as int) <= 5,
{
    let table = cat.cutoffs().fruits@;
    lemma_count_monotonic(table, fruits_value as int, UNREACHABLE as int);
    lemma_count_at_split(table, UNREACHABLE as int, 5);
}

/// Holding a value to the range of `i64` changes no count on a table whose
/// entries can all be exceeded.
pub proof fn lemma_count_of_saturated(table: Seq<i64>, value: int)
    requires
        forall|i: int| 0 <= i < table.len() ==> table[i] < UNREACHABLE,
    ensures
        count_below(table, value) == count_below(table, saturate(value) as int),
{
    lemma_count_agrees(table, value, saturate(value) as int);
}

/// Oils and fats without any fat get every point of the saturated-fat table.
pub proof fn lemma_oils_without_fat(nutrition: Nutrition)
    requires
        nutrition.fat == 0,
    ensures
        count_below(
            Category::OilsAndFats.cutoffs().fats@,
            nutrition.spec_saturated_fat_value(Category::OilsAndFats),
        ) == 10,
{
    lemma_count_above_maximum(
        Category::OilsAndFats.cutoffs().fats@,
        nutrition.spec_saturated_fat_value(Category::OilsAndFats),
    );
}

} // verus!
