use syswatch::format_uptime;
use syswatch::number::parse_u32;
use syswatch::text::{
    chars_in_bytes, decimal_text, eq_ignore_ascii_case, latin1_text, same_text, starts_with_text,
    trim_text, utf8_len_capped,
};
use syswatch::timestamp::{format_timestamp, stamped_log_line, LocalTime};
use syswatch::session::log_line;

#[test]
fn uptime_of_a_day_an_hour_a_minute() {
    assert_eq!(format_uptime(90061), "1j 1h 1m");
}

#[test]
fn uptime_of_zero() {
    assert_eq!(format_uptime(0), "0j 0h 0m");
}

#[test]
fn uptime_drops_seconds_below_a_minute() {
    assert_eq!(format_uptime(59), "0j 0h 0m");
    assert_eq!(format_uptime(3599), "0j 0h 59m");
    assert_eq!(format_uptime(86399), "0j 23h 59m");
}

#[test]
fn uptime_of_many_days() {
    // 400 days, 5 hours, 7 minutes, 9 seconds
    let secs = 400 * 86400 + 5 * 3600 + 7 * 60 + 9;
    assert_eq!(format_uptime(secs), "400j 5h 7m");
}

#[test]
fn uptime_matches_the_arithmetic_for_samples() {
    for secs in [1u64, 61, 3600, 3661, 86400, 123456, 9_999_999, u64::MAX] {
        let expected = format!(
            "{}j {}h {}m",
            secs / 86400,
            (secs % 86400) / 3600,
            (secs % 3600) / 60
        );
        assert_eq!(format_uptime(secs), expected);
    }
}

#[test]
fn decimal_rendering() {
    assert_eq!(decimal_text(0), "0");
    assert_eq!(decimal_text(7), "7");
    assert_eq!(decimal_text(1234), "1234");
    assert_eq!(decimal_text(u64::MAX), u64::MAX.to_string());
}

#[test]
fn parse_accepts_digits_and_plus() {
    assert_eq!(parse_u32("1234"), Some(1234));
    assert_eq!(parse_u32("+5"), Some(5));
    assert_eq!(parse_u32("007"), Some(7));
    assert_eq!(parse_u32("4294967295"), Some(u32::MAX));
}

#[test]
fn parse_rejects_what_std_rejects() {
    for s in ["", "+", "-5", "-0", "12a", " 1", "4294967296", "99999999999", "1 2", "++1"] {
        assert_eq!(parse_u32(s), None, "input {:?}", s);
        assert!(s.parse::<u32>().is_err());
    }
}

#[test]
fn parse_agrees_with_std_on_samples() {
    for s in ["0", "+0", "42", "4294967295", "4294967296", "abc", "", "+", "-", "١٢"] {
        assert_eq!(parse_u32(s), s.parse::<u32>().ok(), "input {:?}", s);
    }
}

#[test]
fn parse_round_trips_rendering() {
    for n in [0u32, 1, 9, 10, 65535, 1234567, u32::MAX] {
        assert_eq!(parse_u32(&decimal_text(n as u64)), Some(n));
    }
}

#[test]
fn trim_removes_unicode_whitespace() {
    assert_eq!(trim_text("  hi \t\n"), "hi");
    assert_eq!(trim_text("\u{3000}x y\u{a0}"), "x y");
    assert_eq!(trim_text("   "), "");
    assert_eq!(trim_text(""), "");
    for s in ["\u{85}a\u{2028}", " \r\nabc\u{205f}", "a", "\u{200b}a"] {
        assert_eq!(trim_text(s), s.trim());
    }
}

#[test]
fn trim_twice_is_trim_once() {
    for s in ["  a b  ", "\tq\n", "x"] {
        assert_eq!(trim_text(&trim_text(s)), trim_text(s));
    }
}

#[test]
fn ascii_case_insensitive_equality() {
    assert!(eq_ignore_ascii_case("QuIt", "quit"));
    assert!(eq_ignore_ascii_case("EXIT", "exit"));
    assert!(!eq_ignore_ascii_case("quits", "quit"));
    assert!(!eq_ignore_ascii_case("qüit", "quit"));
    assert!(!eq_ignore_ascii_case("É", "é"));
}

#[test]
fn text_equality_and_prefix() {
    assert!(same_text("abc", "abc"));
    assert!(!same_text("abc", "abd"));
    assert!(starts_with_text("kill 12", "kill "));
    assert!(!starts_with_text("kil", "kill "));
    assert!(starts_with_text("x", ""));
}

#[test]
fn byte_offsets_follow_utf8() {
    assert_eq!(chars_in_bytes("héllo", 1), Some(1));
    assert_eq!(chars_in_bytes("héllo", 2), None);
    assert_eq!(chars_in_bytes("héllo", 3), Some(2));
    assert_eq!(chars_in_bytes("ab", 3), None);
    assert_eq!(chars_in_bytes("ab", 2), Some(2));
    assert_eq!(chars_in_bytes("", 0), Some(0));
}

#[test]
fn byte_length_capped() {
    assert_eq!(utf8_len_capped("hi", 38), 2);
    assert_eq!(utf8_len_capped("é€😀", 38), 2 + 3 + 4);
    assert_eq!(utf8_len_capped(&"x".repeat(50), 38), 38);
}

#[test]
fn latin1_bytes_become_characters() {
    assert_eq!(latin1_text(&vec![101, 120, 116, 52]), "ext4");
    assert_eq!(latin1_text(&vec![0xe9]), "é");
    assert_eq!(latin1_text(&vec![]), "");
}

#[test]
fn timestamp_is_zero_padded() {
    let t = LocalTime { year: 2026, month: 1, day: 15, hour: 14, minute: 32, second: 1 };
    assert_eq!(format_timestamp(&t).unwrap(), "2026-01-15 14:32:01");
    let t = LocalTime { year: 7, month: 3, day: 4, hour: 0, minute: 0, second: 9 };
    assert_eq!(format_timestamp(&t).unwrap(), "0007-03-04 00:00:09");
}

#[test]
fn timestamp_years_outside_four_digits_carry_a_sign() {
    let t = LocalTime { year: 12345, month: 12, day: 31, hour: 23, minute: 59, second: 59 };
    assert_eq!(format_timestamp(&t).unwrap(), "+12345-12-31 23:59:59");
    let t = LocalTime { year: -44, month: 3, day: 15, hour: 12, minute: 0, second: 0 };
    assert_eq!(format_timestamp(&t).unwrap(), "-0044-03-15 12:00:00");
}

#[test]
fn timestamp_rejects_dates_that_do_not_exist() {
    let feb29 = |year| LocalTime { year, month: 2, day: 29, hour: 0, minute: 0, second: 0 };
    assert!(format_timestamp(&feb29(2024)).is_some());
    assert!(format_timestamp(&feb29(2000)).is_some());
    assert!(format_timestamp(&feb29(2023)).is_none());
    assert!(format_timestamp(&feb29(1900)).is_none());
    let bad = LocalTime { year: 2026, month: 4, day: 31, hour: 0, minute: 0, second: 0 };
    assert!(format_timestamp(&bad).is_none());
    let bad = LocalTime { year: 2026, month: 13, day: 1, hour: 0, minute: 0, second: 0 };
    assert!(format_timestamp(&bad).is_none());
    let bad = LocalTime { year: 2026, month: 1, day: 1, hour: 24, minute: 0, second: 0 };
    assert!(format_timestamp(&bad).is_none());
    let bad = LocalTime { year: 2026, month: 1, day: 1, hour: 0, minute: 0, second: 60 };
    assert!(format_timestamp(&bad).is_none());
}

#[test]
fn log_lines_are_stamped() {
    assert_eq!(log_line("2026-01-15 14:32:01", "[+] Connexion de 1.2.3.4:5"), "[2026-01-15 14:32:01] [+] Connexion de 1.2.3.4:5\n");
    let t = LocalTime { year: 2026, month: 1, day: 15, hour: 14, minute: 32, second: 10 };
    assert_eq!(
        stamped_log_line(&t, "[-] Déconnexion de 192.168.1.42:54321").unwrap(),
        "[2026-01-15 14:32:10] [-] Déconnexion de 192.168.1.42:54321\n"
    );
}
