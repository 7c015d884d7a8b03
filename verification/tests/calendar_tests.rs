use chrono::{FixedOffset, TimeZone};
use hkg::bindings::{FIRST_SECOND, LAST_SECOND};

// The same arithmetic as the spec `clock_text` (Euclidean division throughout).
fn civil_from_days(days: i64) -> (i64, i64, i64) {
    let z = days + 719468;
    let era = z.div_euclid(146097);
    let doe = z - era * 146097;
    let yoe = (doe - doe / 1460 + doe / 36524 - doe / 146096) / 365;
    let doy = doe - (365 * yoe + yoe / 4 - yoe / 100);
    let mp = (5 * doy + 2) / 153;
    let d = doy - (153 * mp + 2) / 5 + 1;
    let m = if mp < 10 { mp + 3 } else { mp - 9 };
    let y = yoe + era * 400 + if m <= 2 { 1 } else { 0 };
    (y, m, d)
}

fn zero_padded(s: String, width: usize) -> String {
    if s.len() >= width {
        s
    } else {
        format!("{}{}", "0".repeat(width - s.len()), s)
    }
}

fn year_text(y: i64) -> String {
    if (0..=9999).contains(&y) {
        zero_padded(y.to_string(), 4)
    } else if y < 0 {
        format!("-{}", zero_padded((-y).to_string(), 4))
    } else {
        format!("+{}", zero_padded(y.to_string(), 4))
    }
}

fn clock_text(secs: i64) -> String {
    let days = secs.div_euclid(86400);
    let of_day = secs.rem_euclid(86400);
    let (y, m, d) = civil_from_days(days);
    format!("{:02}/{:02}/{} {:02}:{:02}", d, m, year_text(y), of_day / 3600, (of_day % 3600) / 60)
}

fn chrono_text(secs: i64, offset: i32) -> String {
    FixedOffset::east_opt(offset).unwrap().timestamp_opt(secs, 0).single().unwrap().format("%d/%m/%Y %H:%M").to_string()
}

#[test]
fn clock_text_is_what_chrono_writes() {
    let mut secs: Vec<i64> = vec![
        0, 1, 59, 86399, 86400, -1, -86400, -86401, 951782400, 951868800, 1480612472, 1500000000,
        253402300799, 253402300800, -62135596800, -62135596801, -62167219200, -62167219201,
        FIRST_SECOND, FIRST_SECOND + 1, LAST_SECOND, LAST_SECOND - 1,
    ];
    let mut x: i64 = 88172645463325252;
    for _ in 0..2000 {
        x ^= x << 13;
        x ^= x >> 7;
        x ^= x << 17;
        secs.push(x.rem_euclid(LAST_SECOND - FIRST_SECOND + 1) + FIRST_SECOND);
    }
    for &s in &secs {
        for &o in &[0i32, 3600, -3600, 28800, 86399, -86399, 19800] {
            assert_eq!(clock_text(s + o as i64), chrono_text(s, o), "secs {} offset {}", s, o);
        }
    }
}
