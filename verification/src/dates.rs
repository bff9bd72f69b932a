//! Proleptic Gregorian calendar arithmetic: days since 1970-01-01 and back.

use vstd::prelude::*;

use crate::text::{
    all_digits, append, byte_len, byte_prefix, char_len, dec, dec_pad, decimal_padded, digit_char,
    digit_value, digits_value, is_digit, is_ws, parse_i64, parse_i64_spec, split_chars, split_on,
    string_of, take_bytes, trim, trim_end, trim_start, trim_str, utf8_len,
};

verus! {

/// Gregorian leap-year rule.
pub open spec fn is_leap(y: int) -> bool {
    y % 4 == 0 && (y % 100 != 0 || y % 400 == 0)
}

/// Number of days in month `m` (1..=12) of year `y`.
pub open spec fn days_in_month(y: int, m: int) -> int {
    if m == 2 {
        if is_leap(y) { 29 } else { 28 }
    } else if m == 4 || m == 6 || m == 9 || m == 11 {
        30
    } else {
        31
    }
}

/// A real calendar date.
pub open spec fn is_valid_date(y: int, m: int, d: int) -> bool {
    1 <= m <= 12 && 1 <= d <= days_in_month(y, m)
}

/// Leap years in 1..=n (counting year 0 backwards for negative `n`).
pub open spec fn leaps_through(n: int) -> int {
    n / 4 - n / 100 + n / 400
}

/// Days from 1970-01-01 to January 1st of year `y`.
pub open spec fn days_before_year(y: int) -> int {
    365 * (y - 1970) + leaps_through(y - 1) - leaps_through(1969)
}

/// Days from January 1st to the first day of month `m` (1..=12) of year `y`.
pub open spec fn days_before_month(y: int, m: int) -> int {
    let feb = if is_leap(y) { 29int } else { 28int };
    if m <= 1 { 0 }
    else if m == 2 { 31 }
    else if m == 3 { 31 + feb }
    else if m == 4 { 62 + feb }
    else if m == 5 { 92 + feb }
    else if m == 6 { 123 + feb }
    else if m == 7 { 153 + feb }
    else if m == 8 { 184 + feb }
    else if m == 9 { 215 + feb }
    else if m == 10 { 245 + feb }
    else if m == 11 { 276 + feb }
    else { 306 + feb }
}

/// Day number (days since 1970-01-01) of the date `y-m-d`; a day past the
/// end of the month counts on into the next.
pub open spec fn civil_days(y: int, m: int, d: int) -> int {
    days_before_year(y) + days_before_month(y, m) + d - 1
}

// ---- the era/March-year formulation that the executable code follows ----

spec fn march_doy(mp: int) -> int {
    (153 * mp + 2) / 5
}

spec fn year_start_in_era(yoe: int) -> int {
    365 * yoe + yoe / 4 - yoe / 100
}

spec fn yoe_of_doe(doe: int) -> int {
    (doe - doe / 1460 + doe / 36524 - doe / 146096) / 365
}

spec fn days_algo(y: int, m: int, d: int) -> int {
    let yy = if m <= 2 { y - 1 } else { y };
    let mm = if m <= 2 { m + 12 } else { m };
    let era = yy / 400;
    let yoe = yy - era * 400;
    let doe = year_start_in_era(yoe) + march_doy(mm - 3) + d - 1;
    era * 146097 + doe - 719468
}

spec fn civil_algo(z: int) -> (int, int, int) {
    let z2 = z + 719468;
    let era = z2 / 146097;
    let doe = z2 - era * 146097;
    let yoe = yoe_of_doe(doe);
    let doy = doe - year_start_in_era(yoe);
    let mp = (5 * doy + 2) / 153;
    let d = doy - march_doy(mp) + 1;
    let m = if mp < 10 { mp + 3 } else { mp - 9 };
    let y = yoe + era * 400;
    (if m <= 2 { y + 1 } else { y }, m, d)
}

/// Length of March-based month `mp` (0 = March .. 11 = February) in the
/// March-based year `yoe` of an era, whose February lies in year `yoe + 1`.
spec fn march_month_len(yoe: int, mp: int) -> int {
    if mp == 11 {
        if is_leap(yoe + 1) { 29 } else { 28 }
    } else if mp == 1 || mp == 3 || mp == 6 || mp == 8 {
        30
    } else {
        31
    }
}

/// The day of a March-based year `doy` (0..=365) splits into a month and day.
#[verifier::spinoff_prover]
#[verifier::rlimit(60)]
proof fn lemma_doy_split(doy: int)
    requires
        0 <= doy <= 365,
    ensures
        0 <= (5 * doy + 2) / 153 <= 11,
        1 <= doy - march_doy((5 * doy + 2) / 153) + 1,
        doy - march_doy((5 * doy + 2) / 153) + 1 <= if (5 * doy + 2) / 153 == 11 { doy - 336 } else {
            march_month_len(0, (5 * doy + 2) / 153)
        },
        (5 * doy + 2) / 153 == 11 ==> doy - march_doy(11) + 1 == doy - 336,
{
}

/// From a day of an era to its March-based year, month and day.
#[verifier::spinoff_prover]
#[verifier::rlimit(60)]
proof fn lemma_era_day_split(doe: int)
    requires
        0 <= doe <= 146096,
    ensures
        0 <= yoe_of_doe(doe) <= 399,
        year_start_in_era(yoe_of_doe(doe)) <= doe,
        doe - year_start_in_era(yoe_of_doe(doe)) <= 365,
        doe - year_start_in_era(yoe_of_doe(doe)) == 365 ==> is_leap(yoe_of_doe(doe) + 1),
{
    let yoe = yoe_of_doe(doe);
    assert(0 <= yoe <= 399);
    assert(year_start_in_era(yoe) <= doe);
    assert(doe - year_start_in_era(yoe) <= 365);
    if doe - year_start_in_era(yoe) == 365 {
        assert(is_leap(yoe + 1));
    }
}

/// From a March-based year, month and day of an era to its day of the era.
#[verifier::spinoff_prover]
#[verifier::rlimit(60)]
proof fn lemma_era_day_join(yoe: int, mp: int, d: int)
    requires
        0 <= yoe <= 399,
        0 <= mp <= 11,
        1 <= d <= march_month_len(yoe, mp),
    ensures
        0 <= year_start_in_era(yoe) + march_doy(mp) + d - 1 <= 146096,
        yoe_of_doe(year_start_in_era(yoe) + march_doy(mp) + d - 1) == yoe,
        (5 * (march_doy(mp) + d - 1) + 2) / 153 == mp,
{
    let doy = march_doy(mp) + d - 1;
    let doe = year_start_in_era(yoe) + doy;
    assert(0 <= doy <= 365);
    assert((5 * doy + 2) / 153 == mp);
    assert(0 <= doe <= 146096);
    assert(yoe_of_doe(doe) == yoe);
}

/// The era formulation counts the same days as the calendar definition.
#[verifier::spinoff_prover]
#[verifier::rlimit(60)]
proof fn lemma_days_algo_is_civil(y: int, m: int, d: int)
    requires
        1 <= m <= 12,
    ensures
        days_algo(y, m, d) == civil_days(y, m, d),
{
    let yy = if m <= 2 { y - 1 } else { y };
    let era = yy / 400;
    let yoe = yy - era * 400;
    assert(0 <= yoe < 400);
    assert((y - 1) / 4 == if m <= 2 { era * 100 + (yoe) / 4 } else { era * 100 + (yoe - 1) / 4 });
    assert((y - 1) / 100 == if m <= 2 { era * 4 + (yoe) / 100 } else { era * 4 + (yoe - 1) / 100 });
    assert((y - 1) / 400 == if m <= 2 { era + (yoe) / 400 } else { era + (yoe - 1) / 400 });
    assert(is_leap(y) == if m <= 2 { is_leap(yoe + 1) } else { is_leap(yoe) });
}

/// Every day number names a real date, and that date counts back to it.
#[verifier::spinoff_prover]
#[verifier::rlimit(60)]
proof fn lemma_civil_algo_inverts(z: int)
    ensures
        is_valid_date(civil_algo(z).0, civil_algo(z).1, civil_algo(z).2),
        days_algo(civil_algo(z).0, civil_algo(z).1, civil_algo(z).2) == z,
{
    let z2 = z + 719468;
    let era = z2 / 146097;
    let doe = z2 - era * 146097;
    lemma_era_day_split(doe);
    let yoe = yoe_of_doe(doe);
    let doy = doe - year_start_in_era(yoe);
    lemma_doy_split(doy);
    let mp = (5 * doy + 2) / 153;
    let (y, m, d) = civil_algo(z);
    assert(m == if mp < 10 { mp + 3 } else { mp - 9 });
    assert(y == if m <= 2 { yoe + era * 400 + 1 } else { yoe + era * 400 });
    assert(m <= 2 ==> (is_leap(y) == is_leap(yoe + 1)));
    let yy = if m <= 2 { y - 1 } else { y };
    assert(yy / 400 == era);
}

/// A real date's day number leads back to the same date.
#[verifier::spinoff_prover]
#[verifier::rlimit(60)]
proof fn lemma_days_algo_inverts(y: int, m: int, d: int)
    requires
        is_valid_date(y, m, d),
    ensures
        civil_algo(days_algo(y, m, d)) == (y, m, d),
{
    let yy = if m <= 2 { y - 1 } else { y };
    let mm = if m <= 2 { m + 12 } else { m };
    let era = yy / 400;
    let yoe = yy - era * 400;
    let mp = mm - 3;
    assert(0 <= yoe < 400);
    assert(0 <= mp <= 11);
    assert(m <= 2 ==> (is_leap(y) == is_leap(yoe + 1)));
    assert(d <= march_month_len(yoe, mp));
    lemma_era_day_join(yoe, mp, d);
    let doy = march_doy(mp) + d - 1;
    let doe = year_start_in_era(yoe) + doy;
    let z = days_algo(y, m, d);
    assert(z == era * 146097 + doe - 719468);
    let z2 = z + 719468;
    assert(0 <= doe < 146097);
    assert(z2 / 146097 == era);
    assert(z2 - era * 146097 == doe);
    assert(yoe_of_doe(doe) == yoe);
    assert(doe - year_start_in_era(yoe) == doy);
    assert((5 * doy + 2) / 153 == mp);
    assert(doy - march_doy(mp) + 1 == d);
    assert(yoe + era * 400 == yy);
}

/// The date that day number `z` falls on.
pub closed spec fn date_of_day(z: int) -> (int, int, int) {
    civil_algo(z)
}

/// Every day number falls on a real date that counts back to it.
pub proof fn lemma_date_of_day(z: int)
    ensures
        is_valid_date(date_of_day(z).0, date_of_day(z).1, date_of_day(z).2),
        civil_days(date_of_day(z).0, date_of_day(z).1, date_of_day(z).2) == z,
        z >= 0 ==> date_of_day(z).0 >= 1970,
{
    lemma_civil_algo_inverts(z);
    let (y, m, d) = civil_algo(z);
    lemma_days_algo_is_civil(y, m, d);
}

/// Law: distinct real dates have distinct day numbers, so a day number
/// names exactly one date.
pub proof fn law_civil_days_injective(y1: int, m1: int, d1: int, y2: int, m2: int, d2: int)
    requires
        is_valid_date(y1, m1, d1),
        is_valid_date(y2, m2, d2),
        civil_days(y1, m1, d1) == civil_days(y2, m2, d2),
    ensures
        y1 == y2 && m1 == m2 && d1 == d2,
{
    lemma_days_algo_is_civil(y1, m1, d1);
    lemma_days_algo_is_civil(y2, m2, d2);
    lemma_days_algo_inverts(y1, m1, d1);
    lemma_days_algo_inverts(y2, m2, d2);
}

/// Law: the date of the day number of a real date is that date.
pub proof fn law_date_roundtrip(y: int, m: int, d: int)
    requires
        is_valid_date(y, m, d),
    ensures
        date_of_day(civil_days(y, m, d)) == (y, m, d),
{
    lemma_days_algo_is_civil(y, m, d);
    lemma_days_algo_inverts(y, m, d);
}

/// The calendar date after `y-m-d`.
pub open spec fn next_date(y: int, m: int, d: int) -> (int, int, int) {
    if d < days_in_month(y, m) {
        (y, m, d + 1)
    } else if m < 12 {
        (y, m + 1, 1)
    } else {
        (y + 1, 1, 1)
    }
}

proof fn lemma_year_length(y: int)
    ensures
        days_before_year(y + 1) - days_before_year(y) == if is_leap(y) { 366int } else { 365int },
{
    assert(y / 4 - (y - 1) / 4 == if y % 4 == 0 { 1int } else { 0int });
    assert(y / 100 - (y - 1) / 100 == if y % 100 == 0 { 1int } else { 0int });
    assert(y / 400 - (y - 1) / 400 == if y % 400 == 0 { 1int } else { 0int });
    assert(y % 400 == 0 ==> y % 100 == 0 && y % 4 == 0);
    assert(y % 100 == 0 ==> y % 4 == 0);
}

/// Law: 1970-01-01 is day 0, and the day after a real date is a real date
/// whose day number is one more.
pub proof fn law_consecutive_days(y: int, m: int, d: int)
    requires
        is_valid_date(y, m, d),
    ensures
        civil_days(1970, 1, 1) == 0,
        is_valid_date(next_date(y, m, d).0, next_date(y, m, d).1, next_date(y, m, d).2),
        civil_days(next_date(y, m, d).0, next_date(y, m, d).1, next_date(y, m, d).2) == civil_days(y, m, d) + 1,
{
    lemma_year_length(y);
}

/// Days since 1970-01-01 of `y-m-d`; `None` unless `1 <= m <= 12` and
/// `1 <= d <= 31` (a day past the month's end counts on into the next month).
/// Years are bounded so that the day count fits in an `i64`.
pub fn unix_days_from_ymd(y: i64, m: i64, d: i64) -> (r: Option<i64>)
    requires
        -25_000_000_000_000_000 <= y <= 25_000_000_000_000_000,
    ensures
        match r {
            Some(z) => 1 <= m <= 12 && 1 <= d <= 31 && z == civil_days(y as int, m as int, d as int),
            None => !(1 <= m <= 12 && 1 <= d <= 31),
        },
{
    if !(1 <= m && m <= 12) || !(1 <= d && d <= 31) {
        return None;
    }
    proof {
        lemma_days_algo_is_civil(y as int, m as int, d as int);
    }
    let mut yy = y;
    let mut mm = m;
    if mm <= 2 {
        yy -= 1;
        mm += 12;
    }
    let era = if yy >= 0 { yy / 400 } else { (yy - 399) / 400 };
    assert(era == (yy as int) / 400);
    let yoe = yy - era * 400;
    let doy = (153 * (mm - 3) + 2) / 5 + d - 1;
    let doe = yoe * 365 + yoe / 4 - yoe / 100 + doy;
    Some(era * 146097 + doe - 719468)
}

/// The date (year, month, day) of day number `z` (days since 1970-01-01).
pub fn ymd_from_unix_days(z: i64) -> (r: (i64, i64, i64))
    requires
        i64::MIN + 146096 <= z <= i64::MAX - 719468,
    ensures
        (r.0 as int, r.1 as int, r.2 as int) == date_of_day(z as int),
        is_valid_date(r.0 as int, r.1 as int, r.2 as int),
        civil_days(r.0 as int, r.1 as int, r.2 as int) == z,
{
    proof {
        lemma_date_of_day(z as int);
        lemma_civil_algo_inverts(z as int);
        let z2 = z + 719468;
        let era = z2 / 146097;
        let doe = z2 - era * 146097;
        lemma_era_day_split(doe);
        lemma_doy_split(doe - year_start_in_era(yoe_of_doe(doe)));
    }
    let z = z + 719468;
    let era = if z >= 0 { z / 146097 } else { (z - 146096) / 146097 };
    assert(era == (z as int) / 146097);
    let doe = z - era * 146097;
    let yoe = (doe - doe / 1460 + doe / 36524 - doe / 146096) / 365;
    let y = yoe + era * 400;
    let doy = doe - (365 * yoe + yoe / 4 - yoe / 100);
    let mp = (5 * doy + 2) / 153;
    let d = doy - (153 * mp + 2) / 5 + 1;
    let m = mp + if mp < 10 { 3 } else { -9 };
    let y = y + if m <= 2 { 1 } else { 0 };
    (y, m, d)
}

/// Powers of ten.
pub open spec fn pow10(n: nat) -> nat
    decreases n,
{
    if n == 0 { 1 } else { 10 * pow10((n - 1) as nat) }
}

proof fn lemma_digits_value_bound(s: Seq<char>)
    requires
        all_digits(s),
    ensures
        digits_value(s) < pow10(s.len()),
    decreases s.len(),
{
    if s.len() > 0 {
        assert(all_digits(s.drop_last())) by {
            assert forall|i: int| 0 <= i < s.drop_last().len() implies is_digit(#[trigger] s.drop_last()[i]) by {
                assert(s.drop_last()[i] == s[i]);
            }
        }
        assert(is_digit(s[s.len() - 1]));
        lemma_digits_value_bound(s.drop_last());
    }
}

proof fn lemma_pow10_mono(a: nat, b: nat)
    requires
        a <= b,
    ensures
        pow10(a) <= pow10(b),
    decreases b,
{
    if a < b {
        lemma_pow10_mono(a, (b - 1) as nat);
    }
}

/// A number written in at most ten characters lies within ten decimal digits.
proof fn lemma_short_i64_bound(s: Seq<char>)
    requires
        s.len() <= 10,
        parse_i64_spec(s) is Some,
    ensures
        -10_000_000_000 < parse_i64_spec(s)->0 < 10_000_000_000,
{
    let body = if s.len() > 0 && (s[0] == '-' || s[0] == '+') { s.drop_first() } else { s };
    lemma_digits_value_bound(body);
    lemma_pow10_mono(body.len(), 10);
    assert(pow10(10) == 10_000_000_000) by {
        reveal_with_fuel(pow10, 11);
    }
}

/// `"T00:00:00Z"`.
pub open spec fn midnight_utc_suffix() -> Seq<char> {
    seq!['T', '0', '0', ':', '0', '0', ':', '0', '0', 'Z']
}

/// `YYYY-MM-DD` for a date (zero-padded; years past 9999 take more digits).
pub open spec fn iso_date_text(y: int, m: int, d: int) -> Seq<char> {
    dec_pad(y as nat, 4) + seq!['-'] + dec_pad(m as nat, 2) + seq!['-'] + dec_pad(d as nat, 2)
}

/// The timestamp text for midnight (UTC) of the day holding second `secs`
/// after the epoch.
pub open spec fn iso_timestamp(secs: nat) -> Seq<char> {
    let (y, m, d) = date_of_day((secs / 86400) as int);
    iso_date_text(y, m, d) + midnight_utc_suffix()
}

/// Midnight UTC of the day holding `secs` (seconds since the epoch), as
/// `YYYY-MM-DDT00:00:00Z`.
#[verifier::spinoff_prover]
#[verifier::rlimit(40)]
pub fn format_iso8601(secs: u64) -> (r: String)
    ensures
        r@ == iso_timestamp(secs as nat),
{
    let days = (secs / 86400) as i64;
    let (y, m, d) = ymd_from_unix_days(days);
    proof {
        lemma_date_of_day(days as int);
    }
    let mut v = decimal_padded(y as u64, 4);
    v.push('-');
    let mv = decimal_padded(m as u64, 2);
    append(&mut v, &mv);
    v.push('-');
    let dv = decimal_padded(d as u64, 2);
    append(&mut v, &dv);
    v.push('T');
    v.push('0');
    v.push('0');
    v.push(':');
    v.push('0');
    v.push('0');
    v.push(':');
    v.push('0');
    v.push('0');
    v.push('Z');
    assert(v@ =~= iso_timestamp(secs as nat));
    string_of(&v)
}

/// The day number of the `YYYY-MM-DD` date that opens `s` (after trimming):
/// the first ten bytes split at `-` into exactly three integers, a month in
/// 1..=12 and a day in 1..=31. `None` for anything else.
pub open spec fn date_prefix_days(s: Seq<char>) -> Option<int> {
    let t = trim(s);
    if utf8_len(t) < 10 {
        None
    } else {
        match byte_prefix(t, 10) {
            None => None,
            Some(p) => {
                let parts = split_on(p, '-');
                if parts.len() != 3 {
                    None
                } else {
                    match (parse_i64_spec(parts[0]), parse_i64_spec(parts[1]), parse_i64_spec(parts[2])) {
                        (Some(y), Some(m), Some(d)) => {
                            if 1 <= m <= 12 && 1 <= d <= 31 {
                                Some(civil_days(y, m, d))
                            } else {
                                None
                            }
                        },
                        _ => None,
                    }
                }
            },
        }
    }
}

/// Whether cutting `s` after its first `n` bytes is possible: either it is
/// shorter than that or the cut falls between characters.
pub open spec fn cut_ok(s: Seq<char>, n: nat) -> bool {
    utf8_len(s) < n || byte_prefix(s, n) is Some
}

proof fn lemma_split_parts_short(p: Seq<char>, sep: char, i: int)
    requires
        0 <= i < split_on(p, sep).len(),
    ensures
        split_on(p, sep)[i].len() <= p.len(),
    decreases p.len(),
{
    if p.len() > 0 {
        let w = split_on(p.drop_last(), sep);
        if p.last() == sep {
            if i < w.len() {
                lemma_split_parts_short(p.drop_last(), sep, i);
            }
        } else {
            lemma_split_on_len(p.drop_last(), sep);
            lemma_split_parts_short(p.drop_last(), sep, i);
        }
    }
}

proof fn lemma_split_on_len(p: Seq<char>, sep: char)
    ensures
        split_on(p, sep).len() >= 1,
    decreases p.len(),
{
    if p.len() > 0 {
        lemma_split_on_len(p.drop_last(), sep);
    }
}

proof fn lemma_byte_prefix_len(s: Seq<char>, n: nat)
    requires
        byte_prefix(s, n) is Some,
    ensures
        byte_prefix(s, n)->0.len() <= n,
    decreases s.len(),
{
    if n > 0 {
        lemma_byte_prefix_len(s.drop_first(), (n - char_len(s[0])) as nat);
    }
}

/// The day number of the date that opens `s` (`YYYY-MM-DD...`), as the
/// license file stores expiry and validation times. Cutting the first ten
/// bytes of `s` must be possible.
pub fn parse_rfc3339(s: &str) -> (r: Option<i64>)
    requires
        cut_ok(trim(s@), 10),
    ensures
        match r {
            Some(z) => date_prefix_days(s@) == Some(z as int),
            None => date_prefix_days(s@) is None,
        },
{
    day_of_timestamp(s)
}

/// The day number of the date that opens `s`; `None` also where the first
/// ten bytes of `s` end inside a character.
pub fn day_of_timestamp(s: &str) -> (r: Option<i64>)
    ensures
        match r {
            Some(z) => date_prefix_days(s@) == Some(z as int),
            None => date_prefix_days(s@) is None,
        },
{
    let t = trim_str(s);
    if byte_len(&t) < 10 {
        return None;
    }
    let p = match take_bytes(&t, 10) {
        Some(p) => p,
        None => {
            return None;
        },
    };
    proof {
        lemma_byte_prefix_len(t@, 10);
    }
    let parts = split_chars(&p, '-');
    if parts.len() != 3 {
        return None;
    }
    proof {
        lemma_split_parts_short(p@, '-', 0);
        lemma_split_parts_short(p@, '-', 1);
        lemma_split_parts_short(p@, '-', 2);
        assert(parts@[0]@ == split_on(p@, '-')[0]);
        assert(parts@[1]@ == split_on(p@, '-')[1]);
        assert(parts@[2]@ == split_on(p@, '-')[2]);
    }
    let y = match parse_i64(&parts[0]) {
        Some(v) => v,
        None => {
            return None;
        },
    };
    let m = match parse_i64(&parts[1]) {
        Some(v) => v,
        None => {
            return None;
        },
    };
    let d = match parse_i64(&parts[2]) {
        Some(v) => v,
        None => {
            return None;
        },
    };
    proof {
        lemma_short_i64_bound(parts@[0]@);
    }
    unix_days_from_ymd(y, m, d)
}


// ---- reading back a stored timestamp ----

proof fn lemma_digit_char(k: int)
    requires
        0 <= k <= 9,
    ensures
        is_digit(digit_char(k)),
        digit_value(digit_char(k)) == k,
{
}

pub(crate) proof fn lemma_dec_digits(n: nat)
    ensures
        all_digits(dec(n)),
        digits_value(dec(n)) == n,
        dec(n).len() >= 1,
        n >= 10 ==> dec(n).len() == dec(n / 10).len() + 1,
        n < 10 ==> dec(n).len() == 1,
    decreases n,
{
    if n < 10 {
        lemma_digit_char(n as int);
        assert(dec(n).drop_last() =~= Seq::<char>::empty());
        assert(digits_value(Seq::<char>::empty()) == 0);
        assert(digits_value(dec(n)) == 10 * digits_value(dec(n).drop_last()) + digit_value(dec(n).last()));
    } else {
        lemma_dec_digits(n / 10);
        lemma_digit_char((n % 10) as int);
        let d = dec(n);
        assert(d.drop_last() =~= dec(n / 10));
        assert(d.last() == digit_char((n % 10) as int));
        assert(digits_value(d) == 10 * digits_value(d.drop_last()) + digit_value(d.last()));
        assert forall|i: int| 0 <= i < d.len() implies is_digit(#[trigger] d[i]) by {
            if i < d.len() - 1 {
                assert(d[i] == dec(n / 10)[i]);
            }
        }
    }
}

proof fn lemma_dec_len(n: nat, w: nat)
    requires
        w >= 1,
        n < pow10(w),
    ensures
        dec(n).len() <= w,
    decreases w,
{
    lemma_dec_digits(n);
    if n >= 10 {
        assert(w >= 2) by {
            if w == 1 {
                assert(pow10(1) == 10) by {
                    reveal_with_fuel(pow10, 2);
                }
            }
        }
        assert(n / 10 < pow10((w - 1) as nat));
        lemma_dec_len(n / 10, (w - 1) as nat);
    }
}

proof fn lemma_zeros_value(k: nat)
    ensures
        all_digits(Seq::new(k, |i: int| '0')),
        digits_value(Seq::new(k, |i: int| '0')) == 0,
    decreases k,
{
    if k > 0 {
        lemma_zeros_value((k - 1) as nat);
        assert(Seq::new(k, |i: int| '0').drop_last() =~= Seq::new((k - 1) as nat, |i: int| '0'));
    }
}

proof fn lemma_zeros_prefix(k: nat, x: Seq<char>)
    ensures
        digits_value(Seq::new(k, |i: int| '0') + x) == digits_value(x),
    decreases x.len(),
{
    let z = Seq::new(k, |i: int| '0');
    if x.len() == 0 {
        assert(z + x =~= z);
        lemma_zeros_value(k);
    } else {
        lemma_zeros_prefix(k, x.drop_last());
        assert((z + x).drop_last() =~= z + x.drop_last());
        assert((z + x).last() == x.last());
    }
}

/// `dec_pad(n, w)` is `w` digits worth `n` when `n` has at most `w` digits.
proof fn lemma_dec_pad(n: nat, w: nat)
    requires
        w >= 1,
        n < pow10(w),
    ensures
        dec_pad(n, w).len() == w,
        all_digits(dec_pad(n, w)),
        digits_value(dec_pad(n, w)) == n,
{
    lemma_dec_digits(n);
    lemma_dec_len(n, w);
    let d = dec(n);
    if d.len() < w {
        let k = (w - d.len()) as nat;
        let z = Seq::new(k, |i: int| '0');
        lemma_zeros_value(k);
        lemma_zeros_prefix(k, d);
        assert forall|i: int| 0 <= i < (z + d).len() implies is_digit(#[trigger] (z + d)[i]) by {
            if i < k {
                assert((z + d)[i] == z[i]);
            } else {
                assert((z + d)[i] == d[i - k]);
            }
        }
    }
}

proof fn lemma_digits_parse(s: Seq<char>)
    requires
        s.len() >= 1,
        all_digits(s),
        digits_value(s) < 10_000,
    ensures
        parse_i64_spec(s) == Some(digits_value(s) as int),
{
    assert(is_digit(s[0]));
}

proof fn lemma_ascii_len(s: Seq<char>)
    requires
        forall|i: int| 0 <= i < s.len() ==> (#[trigger] s[i] as u32) < 0x80,
    ensures
        utf8_len(s) == s.len(),
    decreases s.len(),
{
    if s.len() > 0 {
        assert((s.last() as u32) < 0x80);
        lemma_ascii_len(s.drop_last());
    }
}

proof fn lemma_ascii_prefix(s: Seq<char>, n: nat)
    requires
        n <= s.len(),
        forall|i: int| 0 <= i < s.len() ==> (#[trigger] s[i] as u32) < 0x80,
    ensures
        byte_prefix(s, n) == Some(s.take(n as int)),
    decreases n,
{
    if n == 0 {
        assert(s.take(0) =~= Seq::<char>::empty());
    } else {
        assert((s[0] as u32) < 0x80);
        let t = s.drop_first();
        assert forall|i: int| 0 <= i < t.len() implies (#[trigger] t[i] as u32) < 0x80 by {
            assert(t[i] == s[i + 1]);
        }
        lemma_ascii_prefix(t, (n - 1) as nat);
        assert(seq![s[0]] + t.take(n - 1) =~= s.take(n as int));
    }
}

proof fn lemma_split_plain(s: Seq<char>, sep: char)
    requires
        !s.contains(sep),
    ensures
        split_on(s, sep) == seq![s],
    decreases s.len(),
{
    if s.len() == 0 {
        assert(s =~= Seq::<char>::empty());
        assert(split_on(s, sep) =~~= seq![s]);
    } else {
        assert(!s.drop_last().contains(sep)) by {
            if s.drop_last().contains(sep) {
                let i = choose|i: int| 0 <= i < s.drop_last().len() && s.drop_last()[i] == sep;
                assert(s[i] == sep);
            }
        }
        lemma_split_plain(s.drop_last(), sep);
        assert(s.last() != sep) by {
            if s.last() == sep {
                assert(s[s.len() - 1] == sep);
            }
        }
        assert(s.drop_last().push(s.last()) =~= s);
        assert(split_on(s, sep) =~= seq![s]);
    }
}

proof fn lemma_split_after(s: Seq<char>, t: Seq<char>, sep: char)
    requires
        !t.contains(sep),
    ensures
        split_on(s + seq![sep] + t, sep) == split_on(s, sep).push(t),
    decreases t.len(),
{
    let u = s + seq![sep] + t;
    if t.len() == 0 {
        assert(u.drop_last() =~= s);
        assert(u.last() == sep);
        assert(t =~= Seq::<char>::empty());
        assert(split_on(u, sep) == split_on(u.drop_last(), sep).push(seq![]));
        assert(split_on(u, sep) =~~= split_on(s, sep).push(t));
    } else {
        assert(!t.drop_last().contains(sep)) by {
            if t.drop_last().contains(sep) {
                let i = choose|i: int| 0 <= i < t.drop_last().len() && t.drop_last()[i] == sep;
                assert(t[i] == sep);
            }
        }
        lemma_split_after(s, t.drop_last(), sep);
        assert(u.drop_last() =~= s + seq![sep] + t.drop_last());
        assert(u.last() == t.last());
        assert(t.last() != sep) by {
            if t.last() == sep {
                assert(t[t.len() - 1] == sep);
            }
        }
        assert(t.drop_last().push(t.last()) =~= t);
        let w = split_on(u.drop_last(), sep);
        assert(split_on(u, sep) == w.update(w.len() - 1, w.last().push(u.last())));
        assert(split_on(u, sep) =~~= split_on(s, sep).push(t));
    }
}

proof fn lemma_digits_plain(s: Seq<char>)
    requires
        all_digits(s),
    ensures
        !s.contains('-'),
        forall|i: int| 0 <= i < s.len() ==> (#[trigger] s[i] as u32) < 0x80,
{
    assert forall|i: int| 0 <= i < s.len() implies (#[trigger] s[i] as u32) < 0x80 by {
        assert(is_digit(s[i]));
    }
    if s.contains('-') {
        let i = choose|i: int| 0 <= i < s.len() && s[i] == '-';
        assert(is_digit(s[i]));
    }
}

/// Law: a timestamp written for second `secs` reads back as the day holding
/// `secs`, for dates with four-digit years.
pub proof fn law_timestamp_day_roundtrip(secs: nat)
    requires
        date_of_day((secs / 86400) as int).0 <= 9999,
    ensures
        date_prefix_days(iso_timestamp(secs)) == Some((secs / 86400) as int),
{
    let z = (secs / 86400) as int;
    lemma_date_of_day(z);
    let (y, m, d) = date_of_day(z);
    assert(pow10(4) == 10_000 && pow10(2) == 100) by {
        reveal_with_fuel(pow10, 5);
    }
    lemma_dec_pad(y as nat, 4);
    lemma_dec_pad(m as nat, 2);
    lemma_dec_pad(d as nat, 2);
    let ys = dec_pad(y as nat, 4);
    let ms = dec_pad(m as nat, 2);
    let ds = dec_pad(d as nat, 2);
    lemma_digits_plain(ys);
    lemma_digits_plain(ms);
    lemma_digits_plain(ds);
    let t = iso_timestamp(secs);
    let p = ys + seq!['-'] + ms + seq!['-'] + ds;
    assert(t =~= p + midnight_utc_suffix());
    assert(t.len() == 20);
    assert forall|i: int| 0 <= i < t.len() implies (#[trigger] t[i] as u32) < 0x80 by {
        if i < 4 {
            assert(t[i] == ys[i]);
        } else if 5 <= i < 7 {
            assert(t[i] == ms[i - 5]);
        } else if 8 <= i < 10 {
            assert(t[i] == ds[i - 8]);
        }
    }
    assert(!is_ws(t[0])) by {
        assert(t[0] == ys[0]);
        assert(is_digit(ys[0]));
    }
    assert(t.last() == 'Z');
    assert(trim_start(t) == t);
    assert(trim_end(t) == t);
    assert(trim(t) == t);
    lemma_ascii_len(t);
    lemma_ascii_prefix(t, 10);
    assert(t.take(10) =~= p);
    lemma_split_plain(ys, '-');
    lemma_split_after(ys, ms, '-');
    lemma_split_after(ys + seq!['-'] + ms, ds, '-');
    assert(split_on(p, '-') =~= seq![ys, ms, ds]);
    lemma_digits_parse(ys);
    lemma_digits_parse(ms);
    lemma_digits_parse(ds);
}

} // verus!
