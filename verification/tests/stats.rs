use anyserver::stats::{clock_ticks_or_default, cpu_ticks_fit, cpu_ticks_from_stat, kb_line_kilobytes, parse_kb_line, signal_target};

#[test]
fn test_parse_kb_line() {
    assert_eq!(parse_kb_line("   12345 kB"), Some(12345 * 1024));
    assert_eq!(parse_kb_line("0 kB"), Some(0));
    assert_eq!(parse_kb_line("   "), None);
    assert_eq!(parse_kb_line("abc kB"), None);
}

#[test]
fn kb_line_kilobytes_reads_first_word() {
    assert_eq!(kb_line_kilobytes("\t42\tkB"), Some(42));
    assert_eq!(kb_line_kilobytes("+7 kB"), Some(7));
    assert_eq!(kb_line_kilobytes("99999999999999999999999 kB"), None);
}

#[test]
fn cpu_ticks_are_user_plus_system_time() {
    let stat = "1234 (my (odd) server) S 1 1234 1234 0 -1 4194304 500 0 0 0 150 25 0 0 20 0 12 0 100 0 0";
    assert!(cpu_ticks_fit(stat));
    assert_eq!(cpu_ticks_from_stat(stat), Some(175));
}

#[test]
fn cpu_ticks_need_enough_fields() {
    assert_eq!(cpu_ticks_from_stat("1 (x) S 1 2 3"), None);
    assert_eq!(cpu_ticks_from_stat("no parenthesis here at all 1 2 3 4 5 6 7 8 9 10 11 12 13"), None);
    assert_eq!(cpu_ticks_from_stat("1 (x) S 1 1 1 0 -1 0 0 0 0 0 abc 25 0"), None);
}

#[test]
fn cpu_ticks_that_overflow_do_not_fit() {
    let stat = "1 (x) S 1 1 1 0 -1 0 0 0 0 0 18446744073709551615 1 0";
    assert!(!cpu_ticks_fit(stat));
}

#[test]
fn signal_target_only_positive_pids() {
    assert_eq!(signal_target(1234), Some(1234));
    assert_eq!(signal_target(0), None);
    assert_eq!(signal_target(u32::MAX), None);
    assert_eq!(signal_target(2147483647), Some(2147483647));
    assert_eq!(signal_target(2147483648), None);
}

#[test]
fn clock_ticks_fall_back_to_one_hundred() {
    assert_eq!(clock_ticks_or_default(250), 250);
    assert_eq!(clock_ticks_or_default(0), 100);
    assert_eq!(clock_ticks_or_default(-1), 100);
}
