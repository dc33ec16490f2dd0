use calmonth::{days_in_month, days_in_year, name_of_month};

#[test]
fn year_divisible_by_400_is_leap() {
    assert_eq!(days_in_year(2000), 366);
}

#[test]
fn century_year_is_not_leap() {
    assert_eq!(days_in_year(1900), 365);
}

#[test]
fn year_divisible_by_4_is_leap() {
    assert_eq!(days_in_year(2024), 366);
}

#[test]
fn ordinary_year_is_not_leap() {
    assert_eq!(days_in_year(2023), 365);
}

#[test]
fn leap_year_rule_matches_divisibility() {
    for year in -500..500 {
        let leap = year % 400 == 0 || (year % 4 == 0 && year % 100 != 0);
        let expected = if leap { 366 } else { 365 };
        assert_eq!(days_in_year(year), expected);
    }
}

#[test]
fn negative_years_follow_the_same_rule() {
    assert_eq!(days_in_year(-4), 366);
    assert_eq!(days_in_year(-100), 365);
    assert_eq!(days_in_year(-400), 366);
    assert_eq!(days_in_year(-1), 365);
    assert_eq!(days_in_year(0), 366);
}

#[test]
fn february_has_29_days_in_a_leap_year() {
    assert_eq!(days_in_month(2024, 2), 29);
}

#[test]
fn february_has_28_days_in_a_century_year() {
    assert_eq!(days_in_month(1900, 2), 28);
}

#[test]
fn february_length_follows_the_year_length() {
    for year in 1890..2110 {
        let expected = if days_in_year(year) == 366 { 29 } else { 28 };
        assert_eq!(days_in_month(year, 2), expected);
    }
}

#[test]
fn long_months_have_31_days_in_every_year() {
    for year in [2000, 1900, 2023, 2024, -44] {
        for month in [1, 3, 5, 7, 8, 10, 12] {
            assert_eq!(days_in_month(year, month), 31);
        }
    }
}

#[test]
fn short_months_have_30_days_in_every_year() {
    for year in [2000, 1900, 2023, 2024, -44] {
        for month in [4, 6, 9, 11] {
            assert_eq!(days_in_month(year, month), 30);
        }
    }
}

#[test]
fn out_of_range_months_have_zero_days() {
    assert_eq!(days_in_month(2023, 0), 0);
    assert_eq!(days_in_month(2023, 13), 0);
    assert_eq!(days_in_month(2024, 0), 0);
    assert_eq!(days_in_month(2024, 13), 0);
    assert_eq!(days_in_month(2023, 100), 0);
    assert_eq!(days_in_month(2023, u32::MAX), 0);
}

#[test]
fn first_month_is_january() {
    assert_eq!(name_of_month(1), "January");
}

#[test]
fn last_month_is_december() {
    assert_eq!(name_of_month(12), "December");
}

#[test]
fn every_valid_month_has_a_distinct_nonempty_name() {
    let names: Vec<&str> = (1..=12).map(name_of_month).collect();
    for (i, name) in names.iter().enumerate() {
        assert!(!name.is_empty());
        for other in names.iter().skip(i + 1) {
            assert_ne!(name, other);
        }
    }
}

#[test]
fn out_of_range_months_share_one_invalid_label() {
    let label = name_of_month(0);
    assert_eq!(name_of_month(13), label);
    assert_eq!(name_of_month(100), label);
    assert_eq!(name_of_month(u32::MAX), label);
    for month in 1..=12 {
        assert_ne!(name_of_month(month), label);
    }
}

#[test]
fn month_names_are_the_fixed_calendar_names() {
    let expected = [
        "January",
        "February",
        "March",
        "April",
        "May",
        "June",
        "July",
        "August",
        "September",
        "October",
        "November",
        "December",
    ];
    for (i, name) in expected.iter().enumerate() {
        assert_eq!(name_of_month(i as u32 + 1), *name);
    }
}

#[test]
fn month_lengths_of_a_leap_year() {
    let expected = [31, 29, 31, 30, 31, 30, 31, 31, 30, 31, 30, 31];
    for (i, days) in expected.iter().enumerate() {
        assert_eq!(days_in_month(2024, i as u32 + 1), *days);
    }
}

#[test]
fn month_lengths_of_an_ordinary_year() {
    let expected = [31, 28, 31, 30, 31, 30, 31, 31, 30, 31, 30, 31];
    for (i, days) in expected.iter().enumerate() {
        assert_eq!(days_in_month(2023, i as u32 + 1), *days);
    }
}
