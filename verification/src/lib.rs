//! Calendar math for a Gregorian month view.
//!
//! The library computes how many days a year and a month have, and the
//! display name of a month. All functions are total: out-of-range months
//! yield sentinel values (a day count of 0, a fixed invalid-month label)
//! rather than an error.

use vstd::prelude::*;

verus! {

/// The Gregorian leap-year rule: divisible by 400, or divisible by 4 but
/// not by 100.
pub open spec fn is_leap_year(year: int) -> bool {
    year % 400 == 0 || (year % 4 == 0 && year % 100 != 0)
}

/// Number of days in a year: 366 in a leap year, 365 otherwise.
pub open spec fn spec_days_in_year(year: int) -> int {
    if is_leap_year(year) {
        366
    } else {
        365
    }
}

/// Number of days in a month of a year; 0 for a month outside 1..=12.
pub open spec fn spec_days_in_month(year: int, month: int) -> int {
    if month == 2 {
        if is_leap_year(year) {
            29
        } else {
            28
        }
    } else if month == 4 || month == 6 || month == 9 || month == 11 {
        30
    } else if 1 <= month <= 12 {
        31
    } else {
        0
    }
}

/// A number and its negation leave remainder 0 by the same divisors.
proof fn lemma_neg_mod_zero(a: int, d: int)
    requires
        d > 0,
    ensures
        ((-a) % d == 0) <==> (a % d == 0),
{
    if a % d == 0 {
        vstd::arithmetic::div_mod::lemma_fundamental_div_mod(a, d);
        assert(-a == (-(a / d)) * d) by (nonlinear_arith)
            requires
                a == d * (a / d) + (a % d),
                a % d == 0,
        ;
        vstd::arithmetic::div_mod::lemma_mod_multiples_basic(-(a / d), d);
    }
    if (-a) % d == 0 {
        vstd::arithmetic::div_mod::lemma_fundamental_div_mod(-a, d);
        assert(a == (-((-a) / d)) * d) by (nonlinear_arith)
            requires
                -a == d * ((-a) / d) + ((-a) % d),
                (-a) % d == 0,
        ;
        vstd::arithmetic::div_mod::lemma_mod_multiples_basic(-((-a) / d), d);
    }
}

/// Whether `d` divides `year`; the Euclidean and the truncating remainder
/// agree on being zero, so this holds for negative years as well.
fn divisible_by(year: i32, d: i32) -> (r: bool)
    requires
        0 < d,
    ensures
        r <==> (year as int) % (d as int) == 0,
{
    let m: i32 = year % d;
    proof {
        lemma_neg_mod_zero(year as int, d as int);
    }
    m == 0
}

/// Returns the number of days in the given year: 366 exactly when the
/// Gregorian leap-year rule holds, 365 otherwise. Defined for every year.
pub fn days_in_year(year: i32) -> (r: i32)
    ensures
        r == spec_days_in_year(year as int),
        r == 366 <==> is_leap_year(year as int),
        r == 365 || r == 366,
{
    if divisible_by(year, 400) {
        366
    } else if divisible_by(year, 100) {
        365
    } else if divisible_by(year, 4) {
        366
    } else {
        365
    }
}

/// Returns the canonical day count of the given month: 31 or 30 for the
/// fixed-length months, 29 or 28 for February depending on the leap year,
/// and the sentinel 0 for a month outside 1..=12. Defined for every input.
pub fn days_in_month(year: i32, month: u32) -> (r: u32)
    ensures
        r == spec_days_in_month(year as int, month as int),
{
    match month {
        1 => 31,
        2 => {
            if days_in_year(year) == 366 {
                29
            } else {
                28
            }
        },
        3 => 31,
        4 => 30,
        5 => 31,
        6 => 30,
        7 => 31,
        8 => 31,
        9 => 30,
        10 => 31,
        11 => 30,
        12 => 31,
        _ => 0,
    }
}

/// In every year February has 29 days exactly when the year has 366 days,
/// and 28 days otherwise.
pub proof fn lemma_february_days(year: int)
    ensures
        (spec_days_in_month(year, 2) == 29) <==> (spec_days_in_year(year) == 366),
        (spec_days_in_month(year, 2) == 28) <==> (spec_days_in_year(year) == 365),
{
}

/// The length of every month but February does not depend on the year:
/// 31 days for the seven long months, 30 for the four short ones.
pub proof fn lemma_fixed_month_days(year: int, month: int)
    ensures
        month == 1 || month == 3 || month == 5 || month == 7 || month == 8 || month == 10
            || month == 12 ==> spec_days_in_month(year, month) == 31,
        month == 4 || month == 6 || month == 9 || month == 11 ==> spec_days_in_month(
            year,
            month,
        ) == 30,
{
}

/// A valid month has between 28 and 31 days in every year; any month
/// outside 1..=12 has the sentinel day count 0.
pub proof fn lemma_day_count_range(year: int, month: int)
    ensures
        1 <= month <= 12 ==> 28 <= spec_days_in_month(year, month) <= 31,
        !(1 <= month <= 12) ==> spec_days_in_month(year, month) == 0,
{
}

/// The fixed label returned for a month outside 1..=12.
pub open spec fn invalid_month_label() -> Seq<char> {
    "Mês Inválido"@
}

/// The display name of a month, as a sequence of characters; the fixed
/// invalid-month label for a month outside 1..=12.
pub open spec fn spec_month_name(month: int) -> Seq<char> {
    if month == 1 {
        "January"@
    } else if month == 2 {
        "February"@
    } else if month == 3 {
        "March"@
    } else if month == 4 {
        "April"@
    } else if month == 5 {
        "May"@
    } else if month == 6 {
        "June"@
    } else if month == 7 {
        "July"@
    } else if month == 8 {
        "August"@
    } else if month == 9 {
        "September"@
    } else if month == 10 {
        "October"@
    } else if month == 11 {
        "November"@
    } else if month == 12 {
        "December"@
    } else {
        invalid_month_label()
    }
}

/// Returns the fixed display name of the given month, and the fixed
/// invalid-month label for a month outside 1..=12. Defined for every input.
pub fn name_of_month(month: u32) -> (r: &'static str)
    ensures
        r@ == spec_month_name(month as int),
{
    match month {
        1 => "January",
        2 => "February",
        3 => "March",
        4 => "April",
        5 => "May",
        6 => "June",
        7 => "July",
        8 => "August",
        9 => "September",
        10 => "October",
        11 => "November",
        12 => "December",
        _ => "Mês Inválido",
    }
}

/// Every valid month has a non-empty name, and every month outside 1..=12
/// gets the one fixed invalid-month label.
pub proof fn lemma_month_name_total(month: int)
    ensures
        1 <= month <= 12 ==> spec_month_name(month).len() > 0,
        !(1 <= month <= 12) ==> spec_month_name(month) == invalid_month_label(),
{
    reveal_strlit("January");
    reveal_strlit("February");
    reveal_strlit("March");
    reveal_strlit("April");
    reveal_strlit("May");
    reveal_strlit("June");
    reveal_strlit("July");
    reveal_strlit("August");
    reveal_strlit("September");
    reveal_strlit("October");
    reveal_strlit("November");
    reveal_strlit("December");
}

/// No two valid months share a name.
pub proof fn lemma_month_names_distinct(m1: int, m2: int)
    requires
        1 <= m1 <= 12,
        1 <= m2 <= 12,
        m1 != m2,
    ensures
        spec_month_name(m1) != spec_month_name(m2),
{
    reveal_strlit("January");
    reveal_strlit("February");
    reveal_strlit("March");
    reveal_strlit("April");
    reveal_strlit("May");
    reveal_strlit("June");
    reveal_strlit("July");
    reveal_strlit("August");
    reveal_strlit("September");
    reveal_strlit("October");
    reveal_strlit("November");
    reveal_strlit("December");
    assert("January"@.len() == 7);
    assert("February"@.len() == 8);
    assert("March"@.len() == 5);
    assert("April"@.len() == 5);
    assert("May"@.len() == 3);
    assert("June"@.len() == 4);
    assert("July"@.len() == 4);
    assert("August"@.len() == 6);
    assert("September"@.len() == 9);
    assert("October"@.len() == 7);
    assert("November"@.len() == 8);
    assert("December"@.len() == 8);
    assert("March"@ != "April"@) by {
        assert("March"@[0] != "April"@[0]);
    }
    assert("June"@ != "July"@) by {
        assert("June"@[2] != "July"@[2]);
    }
    assert("January"@ != "October"@) by {
        assert("January"@[0] != "October"@[0]);
    }
    assert("February"@ != "November"@) by {
        assert("February"@[0] != "November"@[0]);
    }
    assert("February"@ != "December"@) by {
        assert("February"@[0] != "December"@[0]);
    }
    assert("November"@ != "December"@) by {
        assert("November"@[0] != "December"@[0]);
    }
}

} // verus!
