//! Civil dates for the `{date}` rename token: the proleptic Gregorian date of a day count since
//! 1970-01-01, computed with era arithmetic (400-year cycles of 146097 days, years starting on
//! 1 March so the leap day comes last), and its `YYYY-MM-DD` text.
use vstd::prelude::*;
use crate::text::{decimal, pad_zeros, padded_decimal, push_all, string_of};

verus! {

/// A Gregorian leap year.
pub open spec fn is_leap_year(y: int) -> bool {
    (y % 4 == 0 && y % 100 != 0) || y % 400 == 0
}

/// The number of days in month `m` (1..=12) of year `y`.
pub open spec fn month_length(y: int, m: int) -> int {
    if m == 2 {
        if is_leap_year(y) {
            29
        } else {
            28
        }
    } else if m == 4 || m == 6 || m == 9 || m == 11 {
        30
    } else {
        31
    }
}

/// A real calendar date.
pub open spec fn valid_date(y: int, m: int, d: int) -> bool {
    1 <= m <= 12 && 1 <= d <= month_length(y, m)
}

/// Days from 1970-01-01 to `y-m-d`. Counted in years that start on 1 March (so January and
/// February belong to the year before): whole 400-year eras of 146097 days, then whole years of
/// the era (365 days plus the era's leap days so far), then the days of the year since 1 March
/// (the months from March on have 31, 30, 31, 30, 31, 31, 30, 31, 30, 31, 31 days, which
/// `(153 * months + 2) / 5` sums), less the 719468 days from 0000-03-01 to 1970-01-01.
pub open spec fn days_from_civil(y: int, m: int, d: int) -> int {
    let yy = if m <= 2 {
        y - 1
    } else {
        y
    };
    let era = yy / 400;
    let yoe = yy - era * 400;
    let mp = if m > 2 {
        m - 3
    } else {
        m + 9
    };
    let doy = (153 * mp + 2) / 5 + d - 1;
    let doe = yoe * 365 + yoe / 4 - yoe / 100 + doy;
    era * 146097 + doe - 719468
}

/// The year of the era (0..=399) that day `doe` of the era (0..=146096) falls in.
spec fn year_of_era(doe: int) -> int {
    (doe - doe / 1460 + doe / 36524 - doe / 146096) / 365
}

/// The first day of year `k` of an era.
spec fn year_start(k: int) -> int {
    365 * k + k / 4 - k / 100
}

/// The day after the last day of year `k` of an era.
spec fn year_end(k: int) -> int {
    if k == 399 {
        146097
    } else {
        year_start(k + 1)
    }
}

/// The month (counted from March, 0..=11) that day `doy` of a March-based year falls in.
spec fn month_of_year(doy: int) -> int {
    (5 * doy + 2) / 153
}

/// The day of the month of day `doy` of a March-based year.
spec fn day_of_month(doy: int) -> int {
    doy - (153 * month_of_year(doy) + 2) / 5 + 1
}

/// The calendar month (1..=12) of a month counted from March.
spec fn civil_month(mp: int) -> int {
    if mp < 10 {
        mp + 3
    } else {
        mp - 9
    }
}

/// Day `doy` (0..=365) of a March-based year lies in month `month_of_year(doy)` (0..=11) at day
/// `day_of_month(doy)`, within that month's length (February has a 29th only on day 365).
proof fn lemma_day_of_year(doy: int)
    requires
        0 <= doy <= 365,
    ensures
        0 <= month_of_year(doy) <= 11,
        1 <= day_of_month(doy),
        civil_month(month_of_year(doy)) == 2 ==> day_of_month(doy) <= if doy == 365 {
            29int
        } else {
            28int
        },
        civil_month(month_of_year(doy)) != 2 ==> day_of_month(doy) <= month_length(
            1,
            civil_month(month_of_year(doy)),
        ),
{
    let x = 5 * doy + 2;
    if doy < 31 {
        assert(x / 153 == 0);
    } else if doy < 61 {
        assert(x / 153 == 1);
    } else if doy < 92 {
        assert(x / 153 == 2);
    } else if doy < 122 {
        assert(x / 153 == 3);
    } else if doy < 153 {
        assert(x / 153 == 4);
    } else if doy < 184 {
        assert(x / 153 == 5);
    } else if doy < 214 {
        assert(x / 153 == 6);
    } else if doy < 245 {
        assert(x / 153 == 7);
    } else if doy < 275 {
        assert(x / 153 == 8);
    } else if doy < 306 {
        assert(x / 153 == 9);
    } else if doy < 337 {
        assert(x / 153 == 10);
    } else {
        assert(x / 153 == 11);
    }
}

/// Day `doe` of an era falls in year `year_of_era(doe)`, between that year's first day and the
/// next year's.
#[verifier::spinoff_prover]
#[verifier::rlimit(50)]
proof fn lemma_year_of_day(doe: int)
    requires
        0 <= doe <= 146096,
    ensures
        0 <= year_of_era(doe) <= 399,
        year_start(year_of_era(doe)) <= doe < year_end(year_of_era(doe)),
        year_end(year_of_era(doe)) - year_start(year_of_era(doe)) == if is_leap_year(
            year_of_era(doe) + 1,
        ) {
            366int
        } else {
            365int
        },
{
}

/// The date of day `days` since 1970-01-01 (Howard Hinnant's `civil_from_days`): a real date that
/// is `days` days after 1970-01-01, in 1970 or later for a non-negative count. The day count may not
/// come within 719468 of `i64::MAX`, where the era arithmetic overflows.
pub fn ymd_from_days(days: i64) -> (r: (i64, u32, u32))
    requires
        days <= i64::MAX - 719468,
    ensures
        valid_date(r.0 as int, r.1 as int, r.2 as int),
        days_from_civil(r.0 as int, r.1 as int, r.2 as int) == days,
        days >= -719468 ==> r.0 >= 0,
        days >= 0 ==> r.0 >= 1970,
{
    let z: i64 = days + 719468;
    let era: i64 = if z >= 0 {
        (z as u64 / 146097) as i64
    } else {
        let up: i64 = 146096 - z;
        -((up as u64 / 146097) as i64)
    };
    proof {
        let q = z as int / 146097;
        vstd::arithmetic::div_mod::lemma_fundamental_div_mod(z as int, 146097);
        if z < 0 {
            let rem = z as int - q * 146097;
            assert((146096 - z) as int == (146096 - rem) + (-q) * 146097);
            vstd::arithmetic::div_mod::lemma_fundamental_div_mod_converse(
                (146096 - z) as int,
                146097,
                -q,
                146096 - rem,
            );
        }
        assert(era as int == q);
        assert(era * 400 <= i64::MAX && era * 400 >= i64::MIN) by (nonlinear_arith)
            requires
                q == era,
                q * 146097 <= z,
                z < q * 146097 + 146097,
                i64::MIN <= z <= i64::MAX,
        ;
    }
    let doe: i64 = z - era * 146097;
    let d0: u64 = doe as u64;
    let yoe_u: u64 = (d0 - d0 / 1460 + d0 / 36524 - d0 / 146096) / 365;
    proof {
        lemma_year_of_day(doe as int);
        assert(yoe_u as int == year_of_era(doe as int));
    }
    let yoe: i64 = yoe_u as i64;
    let y: i64 = yoe + era * 400;
    let doy: i64 = doe - (365 * yoe + yoe / 4 - yoe / 100);
    proof {
        assert(0 <= doy < 366);
        lemma_day_of_year(doy as int);
    }
    let mp: i64 = (5 * doy + 2) / 153;
    let d: i64 = doy - (153 * mp + 2) / 5 + 1;
    let m: i64 = if mp < 10 {
        mp + 3
    } else {
        mp - 9
    };
    let y: i64 = if m <= 2 {
        y + 1
    } else {
        y
    };
    proof {
        let e = era as int;
        let k = yoe as int;
        let yy = if m <= 2 {
            y - 1
        } else {
            y as int
        };
        assert(yy == k + e * 400);
        vstd::arithmetic::div_mod::lemma_fundamental_div_mod_converse(yy, 400, e, k);
        assert(yy / 400 == e);
        if m == 2 {
            assert(y == k + 1 + 400 * e);
            vstd::arithmetic::div_mod::lemma_mod_multiples_vanish(100 * e, k + 1, 4);
            vstd::arithmetic::div_mod::lemma_mod_multiples_vanish(4 * e, k + 1, 100);
            vstd::arithmetic::div_mod::lemma_mod_multiples_vanish(e, k + 1, 400);
            assert(is_leap_year(y as int) == is_leap_year(k + 1));
            if doy == 365 {
                assert(is_leap_year(k + 1));
            }
        }
        assert(month_length(y as int, m as int) == month_length(1, m as int) || m == 2);
        if days >= -719468 {
            assert(era >= 0);
        }
        if days >= 0 {
            // 1970-01-01 is day 135080 of the era starting 1600-03-01, in its year 369.
            assert(e >= 4);
            if e == 4 {
                assert(doe >= 135080);
                if k <= 368 {
                    assert(year_end(k) <= year_start(369));
                }
                assert(k >= 369);
                if k == 369 {
                    assert(doy >= 306);
                    assert(mp >= 10);
                }
            }
        }
    }
    (y, m as u32, d as u32)
}

/// The `YYYY-MM-DD` text of a date (each part zero-padded; a longer year keeps all its digits).
pub open spec fn date_text(y: nat, m: nat, d: nat) -> Seq<char> {
    pad_zeros(decimal(y), 4) + seq!['-'] + pad_zeros(decimal(m), 2) + seq!['-'] + pad_zeros(
        decimal(d),
        2,
    )
}

/// The UTC date, as `YYYY-MM-DD`, of the moment `secs` seconds after 1970-01-01T00:00:00Z.
pub fn date_stamp(secs: u64) -> (r: String)
    ensures
        exists|y: int, m: int, d: int|
            y >= 1970 && valid_date(y, m, d) && days_from_civil(y, m, d) == secs / 86400 && r@
                == date_text(y as nat, m as nat, d as nat),
{
    let days: u64 = secs / 86400;
    let (y, m, d) = ymd_from_days(days as i64);
    let mut out = padded_decimal(y as u64, 4);
    out.push('-');
    let mm = padded_decimal(m as u64, 2);
    push_all(&mut out, &mm);
    out.push('-');
    let dd = padded_decimal(d as u64, 2);
    push_all(&mut out, &dd);
    let r = string_of(&out);
    assert(r@ =~= date_text(y as nat, m as nat, d as nat));
    r
}

} // verus!
