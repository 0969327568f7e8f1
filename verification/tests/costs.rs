use death_inc::growth::compound_cost;
use death_inc::items::Item;
use death_inc::items::ItemSpec;
use death_inc::units::Souls;

fn priced(cost: i64) -> ItemSpec {
    ItemSpec { cost: Souls(cost), ..ItemSpec::new(100) }
}

fn holding(cost: i64, quantity: i64) -> Item {
    priced(cost).instantiate(quantity)
}

#[test]
fn first_units_of_a_fifteen_soul_item() {
    let spec = priced(15);
    assert_eq!(spec.ith_cost(0), Souls(15));
    assert_eq!(spec.ith_cost(1), Souls(16));
    assert_eq!(spec.ith_cost(2), Souls(18));
}

#[test]
fn three_units_of_a_fifteen_soul_item_cost_forty_nine() {
    let item = holding(15, 0);
    assert_eq!(item.cost_n(3), Souls(49));
    assert_eq!(item.checked_cost_n(3), Some(Souls(49)));
}

#[test]
fn bulk_cost_is_the_sum_of_the_unit_costs() {
    let item = holding(1_500, 7);
    let mut sum = 0i64;
    for k in 0..10 {
        sum += item.spec.ith_cost(7 + k).0;
    }
    assert_eq!(item.cost_n(10), Souls(sum));
}

#[test]
fn bulk_cost_of_no_units_is_zero() {
    let item = holding(25, 3);
    assert_eq!(item.cost_n(0), Souls(0));
    assert_eq!(item.cost_n(-4), Souls(0));
}

#[test]
fn cost_of_the_next_unit_follows_the_quantity() {
    let item = holding(25, 2);
    // 25 * 1.2544 = 31.36
    assert_eq!(item.cost(), Souls(31));
    assert_eq!(item.name(), "<missing>");
}

#[test]
fn costs_rise_strictly_from_a_base_of_nine() {
    let spec = priced(9);
    let mut last = spec.ith_cost(0);
    for i in 1..200 {
        let next = spec.ith_cost(i);
        assert!(next > last, "cost({}) = {:?} is not above {:?}", i, next, last);
        last = next;
    }
}

#[test]
fn costs_of_a_small_base_can_stall() {
    let spec = priced(8);
    assert_eq!(spec.ith_cost(0), Souls(8));
    assert_eq!(spec.ith_cost(1), Souls(8));
    let spec = priced(1);
    assert_eq!(spec.ith_cost(0), Souls(1));
    assert_eq!(spec.ith_cost(1), Souls(1));
    assert_eq!(spec.ith_cost(7), Souls(2));
}

#[test]
fn whole_products_are_not_rounded_away() {
    // 625 * 1.12^2 is 784 exactly.
    assert_eq!(compound_cost(625, 2), Some(784));
    // 100^3 * 1.12^3 is 1,404,928 exactly.
    assert_eq!(compound_cost(1_000_000, 3), Some(1_404_928));
}

#[test]
fn later_units_match_the_exact_power() {
    // 1.12^10 = 3.1058482083...
    assert_eq!(compound_cost(1_000_000_000, 10), Some(3_105_848_208));
    // 1.12^20 = 9.6462930926...
    assert_eq!(compound_cost(1_000_000_000, 20), Some(9_646_293_093));
    assert_eq!(compound_cost(25, 10), Some(77));
}

#[test]
fn a_free_item_stays_free() {
    assert_eq!(compound_cost(0, 0), Some(0));
    assert_eq!(compound_cost(0, 1_000_000_000), Some(0));
}

#[test]
fn a_negative_base_is_rounded_down() {
    // -15 * 1.12 = -16.8
    assert_eq!(compound_cost(-15, 1), Some(-17));
    assert_eq!(compound_cost(-25, 0), Some(-25));
    // -625 * 1.2544 = -784 exactly
    assert_eq!(compound_cost(-625, 2), Some(-784));
}

#[test]
fn a_cost_beyond_the_range_is_none() {
    let spec = priced(1);
    assert!(spec.checked_ith_cost(380).is_some());
    assert_eq!(spec.checked_ith_cost(400), None);
    assert_eq!(compound_cost(i64::MAX, 1), None);
    assert_eq!(compound_cost(i64::MAX, 0), Some(i64::MAX));
    assert_eq!(compound_cost(i64::MIN, 0), Some(i64::MIN));
    assert_eq!(compound_cost(i64::MIN, 1), None);
    assert_eq!(compound_cost(-1, 400), None);
}

#[test]
fn a_bulk_cost_beyond_the_range_is_none() {
    let item = holding(i64::MAX / 2, 0);
    assert!(item.checked_cost_n(1).is_some());
    assert_eq!(item.checked_cost_n(2), None);
    let item = holding(0, i64::MAX);
    assert_eq!(item.checked_cost_n(1), Some(Souls(0)));
    assert_eq!(item.checked_cost_n(2), None);
}

#[test]
fn an_item_is_revealed_when_owned() {
    let spec = priced(15);
    assert!(!spec.instantiate(0).revealed);
    assert!(spec.instantiate(1).revealed);
    assert_eq!(spec.instantiate(3).quantity, 3);
    assert_eq!(spec.instantiate(3).spec.id, 100);
}

#[test]
fn specifications_are_the_same_by_identity() {
    let a = ItemSpec { cost: Souls(15), ..ItemSpec::new(7) };
    let b = ItemSpec { cost: Souls(99), name: "other", ..ItemSpec::new(7) };
    let c = ItemSpec { cost: Souls(15), ..ItemSpec::new(8) };
    assert!(a == b);
    assert!(a != c);
}

#[test]
fn costs_match_the_power_worked_out_in_wide_integers() {
    for base in [1i64, 2, 7, 8, 9, 15, 25, 99, 100, 625, 1_500, 120_000, 999_999] {
        let mut num: u128 = base as u128;
        let mut den: u128 = 1;
        for i in 0..=15 {
            let expected = (num / den) as i64;
            assert_eq!(compound_cost(base, i), Some(expected), "base {} step {}", base, i);
            let below = (num + den - 1) / den;
            assert_eq!(compound_cost(-base, i), Some(-(below as i64)), "base -{} step {}", base, i);
            num *= 112;
            den *= 100;
        }
    }
}

#[test]
fn costs_never_fall_while_they_fit() {
    for base in [1i64, 3, 8, 9, 1_000_003] {
        let mut last = 0i64;
        let mut i = 0i64;
        while let Some(cost) = compound_cost(base, i) {
            assert!(cost >= last, "base {} step {}", base, i);
            last = cost;
            i += 1;
        }
        assert!(i > 200 && i < 400);
        assert_eq!(compound_cost(base, i + 1), None);
    }
}
