use nutriscore::category::Category;
use nutriscore::cutoffs::{OILS_SATURATED_SHARE_CUTOFFS, SODIUM_CUTOFF};
use nutriscore::nutrition::Nutrition;
use nutriscore::points::points;

fn with_salt(salt: i64) -> Nutrition {
    Nutrition { energy: 0, fat: 0, saturated_fats: 0, sugar: 0, proteins: 0, salt, fibers: 0 }
}

fn with_fats(saturated_fats: i64, fat: i64) -> Nutrition {
    Nutrition { energy: 0, fat, saturated_fats, sugar: 0, proteins: 0, salt: 0, fibers: 0 }
}

#[test]
fn sodium_is_salt_divided_by_two_and_a_half() {
    assert_eq!(with_salt(1_000).sodium(), 400);
    assert_eq!(with_salt(2_500).sodium(), 1_000);
    assert_eq!(with_salt(0).sodium(), 0);
    assert_eq!(with_salt(-1_000).sodium(), -400);
    assert_eq!(with_salt(225_000).sodium(), 90_000);
}

#[test]
fn sodium_rounds_up() {
    assert_eq!(with_salt(999).sodium(), 400);
    assert_eq!(with_salt(1_001).sodium(), 401);
    assert_eq!(with_salt(1_004).sodium(), 402);
    assert_eq!(with_salt(1).sodium(), 1);
    assert_eq!(with_salt(-1).sodium(), 0);
    assert_eq!(with_salt(-1_001).sodium(), -400);
    assert_eq!(with_salt(-1_004).sodium(), -401);
}

#[test]
fn sodium_of_the_extremes() {
    assert_eq!(with_salt(i64::MAX).sodium(), 3_689_348_814_741_910_323);
    assert_eq!(with_salt(i64::MIN).sodium(), -3_689_348_814_741_910_323);
}

#[test]
fn sodium_rounding_is_invisible_to_the_cutoffs() {
    let mut salt = -50;
    while salt <= 2_400_000 {
        let counted = points(&SODIUM_CUTOFF, &with_salt(salt).sodium());
        let exact = SODIUM_CUTOFF.iter().filter(|cutoff| 5 * **cutoff < 2 * salt).count();
        assert_eq!(counted, exact);
        salt += 49;
    }
    assert_eq!(points(&SODIUM_CUTOFF, &with_salt(225_000).sodium()), 0);
    assert_eq!(points(&SODIUM_CUTOFF, &with_salt(225_001).sodium()), 1);
}

#[test]
fn saturated_fat_value_is_the_amount_outside_oils_and_fats() {
    let nutrition = with_fats(5_000, 20_000);
    assert_eq!(nutrition.saturated_fat_value(Category::Other), 5_000);
    assert_eq!(nutrition.saturated_fat_value(Category::Cheese), 5_000);
    assert_eq!(nutrition.saturated_fat_value(Category::Drinks), 5_000);
    assert_eq!(with_fats(7_000, 0).saturated_fat_value(Category::Other), 7_000);
    assert_eq!(with_fats(-7_000, 0).saturated_fat_value(Category::Cheese), -7_000);
    assert_eq!(with_fats(i64::MAX, 1).saturated_fat_value(Category::Drinks), i64::MAX);
    assert_eq!(with_fats(i64::MIN, 1).saturated_fat_value(Category::Other), i64::MIN);
}

#[test]
fn saturated_fat_value_of_oils_is_the_saturated_share() {
    let oils = Category::OilsAndFats;
    assert_eq!(with_fats(5_000, 20_000).saturated_fat_value(oils), 25_000);
    assert_eq!(with_fats(32_000, 100_000).saturated_fat_value(oils), 32_000);
    assert_eq!(with_fats(100_000, 100_000).saturated_fat_value(oils), 100_000);
    assert_eq!(with_fats(0, 100_000).saturated_fat_value(oils), 0);
}

#[test]
fn saturated_share_rounds_up() {
    let oils = Category::OilsAndFats;
    assert_eq!(with_fats(1, 3).saturated_fat_value(oils), 33_334);
    assert_eq!(with_fats(2, 3).saturated_fat_value(oils), 66_667);
    assert_eq!(with_fats(-1, 3).saturated_fat_value(oils), -33_333);
    assert_eq!(with_fats(1, -3).saturated_fat_value(oils), -33_333);
    assert_eq!(with_fats(-1, -3).saturated_fat_value(oils), 33_334);
    assert_eq!(with_fats(1, 7_000_000).saturated_fat_value(oils), 1);
    assert_eq!(with_fats(-1, 7_000_000).saturated_fat_value(oils), 0);
}

#[test]
fn oils_without_fat_take_the_worst_value() {
    let oils = Category::OilsAndFats;
    assert_eq!(with_fats(5_000, 0).saturated_fat_value(oils), i64::MAX);
    assert_eq!(with_fats(0, 0).saturated_fat_value(oils), i64::MAX);
    assert_eq!(with_fats(-5_000, 0).saturated_fat_value(oils), i64::MAX);
    assert_eq!(points(&OILS_SATURATED_SHARE_CUTOFFS, &i64::MAX), 10);
}

#[test]
fn saturated_share_is_held_to_the_range() {
    let oils = Category::OilsAndFats;
    assert_eq!(with_fats(i64::MAX, 1).saturated_fat_value(oils), i64::MAX);
    assert_eq!(with_fats(i64::MIN, 1).saturated_fat_value(oils), i64::MIN);
    assert_eq!(with_fats(i64::MAX, -1).saturated_fat_value(oils), i64::MIN);
    assert_eq!(with_fats(i64::MIN, -1).saturated_fat_value(oils), i64::MAX);
    assert_eq!(with_fats(i64::MAX, i64::MAX).saturated_fat_value(oils), 100_000);
    assert_eq!(with_fats(i64::MIN, i64::MIN).saturated_fat_value(oils), 100_000);
    assert_eq!(with_fats(i64::MAX, i64::MIN).saturated_fat_value(oils), -99_999);
}

#[test]
fn saturated_share_rounding_is_invisible_to_the_cutoffs() {
    let oils = Category::OilsAndFats;
    for fat in [1i64, 3, 7, 999, 100_000, -3, -100_000] {
        let mut saturated = -20;
        while saturated <= 70_000 {
            let value = with_fats(saturated, fat).saturated_fat_value(oils);
            let counted = points(&OILS_SATURATED_SHARE_CUTOFFS, &value);
            let exact = OILS_SATURATED_SHARE_CUTOFFS
                .iter()
                .filter(|cutoff| {
                    let left = (**cutoff as i128) * (fat as i128);
                    let right = 100_000 * (saturated as i128);
                    if fat > 0 {
                        left < right
                    } else {
                        left > right
                    }
                })
                .count();
            assert_eq!(counted, exact);
            saturated += 13;
        }
    }
}
