use nutriscore::category::Category;

const SOLIDS: [Category; 3] = [Category::Cheese, Category::OilsAndFats, Category::Other];

#[test]
fn grade_boundaries_outside_drinks() {
    for cat in SOLIDS {
        assert_eq!(cat.score_to_letter(-1, false), 'A');
        assert_eq!(cat.score_to_letter(0, false), 'B');
        assert_eq!(cat.score_to_letter(2, false), 'B');
        assert_eq!(cat.score_to_letter(3, false), 'C');
        assert_eq!(cat.score_to_letter(10, false), 'C');
        assert_eq!(cat.score_to_letter(11, false), 'D');
        assert_eq!(cat.score_to_letter(18, false), 'D');
        assert_eq!(cat.score_to_letter(19, false), 'E');
    }
}

#[test]
fn grade_boundaries_of_drinks() {
    let cat = Category::Drinks;
    assert_eq!(cat.score_to_letter(1, false), 'B');
    assert_eq!(cat.score_to_letter(2, false), 'C');
    assert_eq!(cat.score_to_letter(5, false), 'C');
    assert_eq!(cat.score_to_letter(6, false), 'D');
    assert_eq!(cat.score_to_letter(9, false), 'D');
    assert_eq!(cat.score_to_letter(10, false), 'E');
}

#[test]
fn drinks_never_reach_a_without_being_water() {
    let cat = Category::Drinks;
    assert_eq!(cat.score_to_letter(-1, false), 'B');
    assert_eq!(cat.score_to_letter(-20, false), 'B');
    assert_eq!(cat.score_to_letter(isize::MIN, false), 'B');
}

#[test]
fn water_is_always_a() {
    let cat = Category::Drinks;
    assert_eq!(cat.score_to_letter(15, true), 'A');
    assert_eq!(cat.score_to_letter(-3, true), 'A');
    assert_eq!(cat.score_to_letter(0, true), 'A');
    assert_eq!(cat.score_to_letter(isize::MAX, true), 'A');
    assert_eq!(cat.score_to_letter(isize::MIN, true), 'A');
}

#[test]
fn water_flag_is_ignored_outside_drinks() {
    for cat in SOLIDS {
        for score in -25..45 {
            assert_eq!(cat.score_to_letter(score, true), cat.score_to_letter(score, false));
        }
        assert_eq!(cat.score_to_letter(15, true), 'D');
    }
}

#[test]
fn grades_are_total_over_the_extremes() {
    for cat in SOLIDS {
        assert_eq!(cat.score_to_letter(isize::MIN, false), 'A');
        assert_eq!(cat.score_to_letter(isize::MAX, false), 'E');
    }
    assert_eq!(Category::Drinks.score_to_letter(isize::MAX, false), 'E');
}

#[test]
fn a_higher_score_never_earns_a_better_letter() {
    let all = [Category::Drinks, Category::Cheese, Category::OilsAndFats, Category::Other];
    for cat in all {
        for is_water in [false, true] {
            let mut before = cat.score_to_letter(-30, is_water);
            for score in -29..50 {
                let now = cat.score_to_letter(score, is_water);
                assert!(before <= now);
                assert!(('A'..='E').contains(&now));
                before = now;
            }
        }
    }
}
