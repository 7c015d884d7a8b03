use vstd::prelude::*;

use crate::text::{decimal_string, digit_char};

verus! {

/// The proleptic Gregorian date `(year, month, day)` of the day `days` days after
/// 1970-01-01, with astronomical year numbers (year 0 is 1 BCE).
pub open spec fn civil_from_days(days: int) -> (int, int, int) {
    let z = days + 719468;
    let era = z / 146097;
    let doe = z - era * 146097;
    let yoe = (doe - doe / 1460 + doe / 36524 - doe / 146096) / 365;
    let doy = doe - (365 * yoe + yoe / 4 - yoe / 100);
    let mp = (5 * doy + 2) / 153;
    let d = doy - (153 * mp + 2) / 5 + 1;
    let m = if mp < 10 {
        mp + 3
    } else {
        mp - 9
    };
    let y = yoe + era * 400 + if m <= 2 {
        1int
    } else {
        0int
    };
    (y, m, d)
}

/// `n` (from 0 to 99) written with two digits.
pub open spec fn two_digits(n: int) -> Seq<char> {
    seq![digit_char((n / 10) as nat), digit_char((n % 10) as nat)]
}

/// `s` with `'0'`s put in front until it has at least `width` characters.
pub open spec fn zero_padded(s: Seq<char>, width: nat) -> Seq<char> {
    if s.len() >= width {
        s
    } else {
        Seq::new((width - s.len()) as nat, |i: int| '0') + s
    }
}

/// The year `y` as chrono's `%Y` writes it: four digits from 0 to 9999, and otherwise a
/// sign (`+` or `-`) and at least four digits.
pub open spec fn year_text(y: int) -> Seq<char> {
    if 0 <= y <= 9999 {
        zero_padded(decimal_string(y as nat), 4)
    } else if y < 0 {
        seq!['-'] + zero_padded(decimal_string((-y) as nat), 4)
    } else {
        seq!['+'] + zero_padded(decimal_string(y as nat), 4)
    }
}

/// The date-time `secs` seconds after 1970-01-01 00:00:00 written as `%d/%m/%Y %H:%M`:
/// day and month with two digits, the year as `year_text`, hour and minute with two
/// digits.
pub open spec fn clock_text(secs: int) -> Seq<char> {
    let days = secs / 86400;
    let of_day = secs % 86400;
    let (y, m, d) = civil_from_days(days);
    two_digits(d) + seq!['/'] + two_digits(m) + seq!['/'] + year_text(y) + seq![' '] + two_digits(
        of_day / 3600,
    ) + seq![':'] + two_digits((of_day % 3600) / 60)
}

} // verus!
