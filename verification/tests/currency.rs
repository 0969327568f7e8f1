use death_inc::idgen::idgen;
use death_inc::permille::delta_perc;
use death_inc::permille::Permille;
use death_inc::units::Souls;

#[test]
fn small_amounts_have_thousands_separators() {
    assert_eq!(Souls(0).to_string(), "0");
    assert_eq!(Souls(7).to_string(), "7");
    assert_eq!(Souls(999).to_string(), "999");
    assert_eq!(Souls(1_000).to_string(), "1,000");
    assert_eq!(Souls(12_345).to_string(), "12,345");
    assert_eq!(Souls(100_000).to_string(), "100,000");
    assert_eq!(Souls(999_999).to_string(), "999,999");
}

#[test]
fn negative_amounts_keep_their_sign() {
    assert_eq!(Souls(-1).to_string(), "-1");
    assert_eq!(Souls(-1_000).to_string(), "-1,000");
    assert_eq!(Souls(-1_234_567).to_string(), "-1,234,567");
    assert_eq!(Souls(i64::MIN).to_string(), "-9,223,372,036,854,775,808");
}

#[test]
fn millions_have_two_decimal_places() {
    assert_eq!(Souls(1_000_000).to_string(), "1.00 M");
    assert_eq!(Souls(1_500_000).to_string(), "1.50 M");
    assert_eq!(Souls(1_234_567).to_string(), "1.23 M");
    assert_eq!(Souls(1_236_000).to_string(), "1.24 M");
    assert_eq!(Souls(999_999_999).to_string(), "1000.00 M");
}

#[test]
fn a_tie_is_rounded_to_the_even_hundredth() {
    assert_eq!(Souls(1_005_000).to_string(), "1.00 M");
    assert_eq!(Souls(1_015_000).to_string(), "1.02 M");
    assert_eq!(Souls(1_025_000).to_string(), "1.02 M");
}

#[test]
fn billions_and_trillions_switch_units() {
    assert_eq!(Souls(1_000_000_000).to_string(), "1.00 B");
    assert_eq!(Souls(2_500_000_000).to_string(), "2.50 B");
    assert_eq!(Souls(999_999_999_999).to_string(), "1000.00 B");
    assert_eq!(Souls(1_000_000_000_000).to_string(), "1.00 T");
    assert_eq!(Souls(7_000_000_000_000).to_string(), "7.00 T");
    assert_eq!(Souls(i64::MAX).to_string(), "9223372.04 T");
}

#[test]
fn changes_are_written_with_their_sign() {
    assert_eq!(Souls(0).to_signed_string(), "+0");
    assert_eq!(Souls(9).to_signed_string(), "+9");
    assert_eq!(Souls(1_200).to_signed_string(), "+1,200");
    assert_eq!(Souls(-3).to_signed_string(), "-3");
}

#[test]
fn units_are_powers_of_a_thousand() {
    assert_eq!(Souls::K, 1_000);
    assert_eq!(Souls::M, 1_000 * Souls::K);
    assert_eq!(Souls::B, 1_000 * Souls::M);
    assert_eq!(Souls::T, 1_000 * Souls::B);
}

#[test]
fn souls_add_subtract_and_multiply() {
    assert_eq!(Souls(3) + Souls(4), Souls(7));
    assert_eq!(Souls(3) - Souls(4), Souls(-1));
    assert_eq!(Souls(3) * Souls(4), Souls(12));
    assert_eq!(Souls(3) * 5, Souls(15));
    assert_eq!(800 * Souls(Souls::K), Souls(800_000));
    assert_eq!(Souls(6).times(-7), Souls(-42));
}

#[test]
fn division_rounds_toward_zero() {
    assert_eq!(Souls(7) / 2, Souls(3));
    assert_eq!(Souls(-7) / 2, Souls(-3));
    assert_eq!(Souls(7) / -2, Souls(-3));
    assert_eq!(Souls(-7) / -2, Souls(3));
    assert_eq!(Souls(3) / 4, Souls(0));
    assert_eq!(Souls(i64::MIN) / 1, Souls(i64::MIN));
}

#[test]
fn souls_are_ordered_by_their_count() {
    assert!(Souls(1) < Souls(2));
    assert!(Souls(-5) < Souls(0));
    assert_eq!(std::cmp::min(Souls(9), Souls(4)), Souls(4));
    assert_eq!(std::cmp::max(Souls(9), Souls(4)), Souls(9));
}

#[test]
fn souls_convert_from_and_to_integers() {
    assert_eq!(Souls::from(12), Souls(12));
    let n: i64 = Souls(34).into();
    assert_eq!(n, 34);
    let s: Souls = 56.into();
    assert_eq!(s, Souls(56));
}

#[test]
fn identities_are_drawn_in_sequence() {
    let mut seed = 0i64;
    assert_eq!(idgen(&mut seed), 1);
    assert_eq!(idgen(&mut seed), 2);
    assert_eq!(idgen(&mut seed), 3);
    assert_eq!(seed, 3);
}

#[test]
fn factors_are_written_in_thousandths() {
    assert_eq!(Permille(1_500).to_string(), "1.500");
    assert_eq!(Permille(1_000).to_string(), "1.000");
    assert_eq!(Permille(5).to_string(), "0.005");
    assert_eq!(Permille(0).to_string(), "0.000");
    assert_eq!(Permille(-2_050).to_string(), "-2.050");
    assert_eq!(Permille(i64::MIN).to_string(), "-9223372036854775.808");
}

#[test]
fn factors_are_rounded_to_the_places_asked() {
    assert_eq!(Permille(6_000).fixed(2), "6.00");
    assert_eq!(Permille(6_126).fixed(2), "6.13");
    assert_eq!(Permille(6_125).fixed(2), "6.12");
    assert_eq!(Permille(6_135).fixed(2), "6.14");
    assert_eq!(Permille(6_950).fixed(1), "7.0");
    assert_eq!(Permille(6_500).fixed(0), "6");
    assert_eq!(Permille(7_500).fixed(0), "8");
    assert_eq!(Permille(-400).fixed(0), "-0");
    assert_eq!(Permille(999).fixed(0), "1");
}

#[test]
fn shares_are_written_as_whole_percent() {
    assert_eq!(Permille(1_000).percent(), "100");
    assert_eq!(Permille(10).percent(), "1");
    assert_eq!(Permille(15).percent(), "2");
    assert_eq!(Permille(25).percent(), "2");
    assert_eq!(Permille(-990).percent(), "-99");
}

#[test]
fn a_rise_has_a_plus_and_a_percent_sign() {
    assert_eq!(delta_perc(Permille(10)), "+1%");
    assert_eq!(delta_perc(Permille(500)), "+50%");
    assert_eq!(delta_perc(Permille(0)), "+0%");
    assert_eq!(delta_perc(Permille(-250)), "-25");
}

fn with_separators(n: i64) -> String {
    let digits = n.unsigned_abs().to_string();
    let mut text = String::new();
    if n < 0 {
        text.push('-');
    }
    for (i, c) in digits.chars().enumerate() {
        if i > 0 && (digits.len() - i) % 3 == 0 {
            text.push(',');
        }
        text.push(c);
    }
    text
}

#[test]
fn amounts_below_a_million_are_grouped_by_three() {
    let mut n: i64 = -1_000_003;
    while n < 1_000_000 {
        assert_eq!(Souls(n).to_string(), with_separators(n));
        n += 9_973;
    }
    for n in [-999_999_999_999i64, -1_000_000, -100, 10, 100, 1_001, 10_000, 99_999] {
        assert_eq!(Souls(n).to_string(), with_separators(n));
    }
}
