use auth_core::format_dt_difference;
use auth_core::format_duration;
use auth_core::text::i64_to_string;
use auth_core::text::replace_all;
use auth_core::text::u64_to_string;
use auth_core::validate_password_form;
use auth_core::validate_username;
use auth_core::PasswordResetEmail;

#[test]
fn decimal_rendering_is_exact() {
    assert_eq!(u64_to_string(0), "0");
    assert_eq!(u64_to_string(7), "7");
    assert_eq!(u64_to_string(10), "10");
    assert_eq!(u64_to_string(65535), "65535");
    assert_eq!(u64_to_string(u64::MAX), "18446744073709551615");
    assert_eq!(i64_to_string(-1), "-1");
    assert_eq!(i64_to_string(i64::MIN), "-9223372036854775808");
    assert_eq!(i64_to_string(12345), "12345");
}

#[test]
fn format_duration_joins_nonzero_parts() {
    assert_eq!(format_duration(0, 0), "0 milliseconds");
    assert_eq!(format_duration(1, 0), "1 second");
    assert_eq!(format_duration(0, 1), "1 millisecond");
    assert_eq!(format_duration(61, 5), "1 minute, 1 second, 5 milliseconds");
    assert_eq!(
        format_duration(90_061, 0),
        "1 day, 1 hour, 1 minute, 1 second"
    );
    assert_eq!(
        format_duration(31_536_000 + 2 * 86_400 + 3, 250),
        "1 year, 2 days, 3 seconds, 250 milliseconds"
    );
    assert_eq!(format_duration(2 * 31_536_000, 0), "2 years");
    assert_eq!(format_duration(3_600, 0), "1 hour");
}

#[test]
fn format_dt_difference_always_names_every_unit() {
    let start: i64 = 1_700_000_000_000;
    assert_eq!(
        format_dt_difference(start, start),
        "0 days, 0 hours, 0 minutes, 0 seconds, 0 milliseconds"
    );
    let end = start + 86_400_000 + 2 * 3_600_000 + 3 * 60_000 + 4_000 + 5;
    assert_eq!(
        format_dt_difference(start, end),
        "1 days, 2 hours, 3 minutes, 4 seconds, 5 milliseconds"
    );
    // a reversed difference prints negative components, zeros unsigned
    assert_eq!(
        format_dt_difference(end, start),
        "-1 days, -2 hours, -3 minutes, -4 seconds, -5 milliseconds"
    );
    assert_eq!(
        format_dt_difference(start + 500, start),
        "0 days, 0 hours, 0 minutes, 0 seconds, -500 milliseconds"
    );
}

#[test]
fn replace_all_rewrites_every_occurrence() {
    assert_eq!(replace_all("a$1b$1c", "$1", "X"), "aXbXc");
    assert_eq!(replace_all("no marker", "$1", "X"), "no marker");
    assert_eq!(replace_all("$1", "$1", ""), "");
    assert_eq!(replace_all("aaaa", "aa", "b"), "bb");
}

#[test]
fn password_reset_email_gets_its_link() {
    let mut email = PasswordResetEmail::new();
    assert!(email.email.contains("$1"));
    email.set_link("https://example.com/reset?token=abc");
    assert!(!email.email.contains("$1"));
    assert!(email.email.contains("https://example.com/reset?token=abc"));
}

#[test]
fn clock_reads_are_epoch_milliseconds() {
    let first = auth_core::now_millis();
    let second = auth_core::now_millis();
    assert!(first >= 0);
    assert!(second >= first);
    // a plausible wall clock reads later than 2020 and before 2100
    assert!(first > 1_577_836_800_000);
    assert!(first < 4_102_444_800_000);
    let started = auth_core::std_now();
    assert!(started.elapsed().as_secs() < 60);
}

#[test]
fn username_validation_bounds_and_charset() {
    assert!(validate_username("alice"));
    assert!(validate_username("a1b2c3"));
    assert!(!validate_username(""));
    assert!(!validate_username("has space"));
    assert!(!validate_username("dash-ed"));
    assert!(validate_username("aaaaaaaaaaaaaaaaaaaa")); // 20 bytes
    assert!(!validate_username("aaaaaaaaaaaaaaaaaaaaa")); // 21 bytes
}

#[test]
fn username_length_counts_utf8_bytes() {
    // Hangul syllables are alphanumeric and three UTF-8 bytes each
    assert!(validate_username("가나다라마바")); // 6 characters, 18 bytes
    assert!(!validate_username("가나다라마바사")); // 7 characters, 21 bytes
}

#[test]
fn password_validation_needs_length_and_three_classes() {
    assert!(validate_password_form("Abcdef12"));
    assert!(!validate_password_form("Abcdef1")); // 7 characters
    assert!(!validate_password_form("abcdef12")); // no uppercase
    assert!(!validate_password_form("ABCDEF12")); // no lowercase
    assert!(!validate_password_form("Abcdefgh")); // no digit
}
