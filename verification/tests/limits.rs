use safeexec::error::SafeExecError;
use safeexec::runtime::{
    duration_in_range, parse_duration, parse_memory, parse_unit_limit, try_parse_memory,
    unit_limit_in_range,
};
use safeexec::time::Duration;

fn secs(s: u64) -> Duration {
    Duration { secs: s, nanos: 0 }
}

#[test]
fn duration_seconds_suffix() {
    assert_eq!(parse_duration("30s"), Ok(secs(30)));
    assert_eq!(parse_duration("2s"), Ok(secs(2)));
}

#[test]
fn duration_millis_suffix() {
    assert_eq!(parse_duration("500ms"), Ok(Duration { secs: 0, nanos: 500_000_000 }));
    assert_eq!(parse_duration("1500ms"), Ok(Duration { secs: 1, nanos: 500_000_000 }));
}

#[test]
fn duration_minutes_suffix() {
    assert_eq!(parse_duration("2m"), Ok(secs(120)));
}

#[test]
fn duration_bare_number_is_seconds() {
    assert_eq!(parse_duration("45"), Ok(secs(45)));
    assert_eq!(parse_duration("+7"), Ok(secs(7)));
}

#[test]
fn duration_ignores_surrounding_whitespace() {
    assert_eq!(parse_duration("  10s \n"), Ok(secs(10)));
    assert_eq!(parse_duration("\t250ms "), parse_duration("250ms"));
}

#[test]
fn duration_rejects_non_numbers() {
    assert_eq!(
        parse_duration(" abc "),
        Err(SafeExecError::InvalidArgument("invalid duration: abc".to_string()))
    );
    assert_eq!(
        parse_duration("s"),
        Err(SafeExecError::InvalidArgument("invalid duration: s".to_string()))
    );
    assert_eq!(
        parse_duration("-5s"),
        Err(SafeExecError::InvalidArgument("invalid duration: -5s".to_string()))
    );
    assert_eq!(
        parse_duration(""),
        Err(SafeExecError::InvalidArgument("invalid duration: ".to_string()))
    );
}

#[test]
fn duration_minutes_range() {
    assert!(duration_in_range("307445734561825860m"));
    assert!(!duration_in_range("307445734561825861m"));
    assert!(duration_in_range("18446744073709551615s"));
    assert!(duration_in_range("nonsense"));
    assert_eq!(parse_duration("307445734561825860m"), Ok(secs(18446744073709551600)));
}

#[test]
fn memory_read_by_byte_unit() {
    assert_eq!(parse_memory("64MB"), Ok(64_000_000));
    assert_eq!(parse_memory("64mb"), Ok(64_000_000));
    assert_eq!(parse_memory("8 KiB"), Ok(8192));
    assert_eq!(parse_memory("1.5GiB"), Ok(1_610_612_736));
    assert_eq!(parse_memory("123"), Ok(123));
}

#[test]
fn memory_fallback_uses_binary_units() {
    assert_eq!(parse_memory("+2MB"), Ok(2 * 1024 * 1024));
    assert_eq!(parse_memory("+2mb"), Ok(2 * 1024 * 1024));
    assert_eq!(parse_memory("+3GB"), Ok(3 * 1024 * 1024 * 1024));
    assert_eq!(parse_memory("+4kb"), Ok(4096));
    assert_eq!(parse_memory("+5B"), Ok(5));
    assert_eq!(parse_memory("+5"), Ok(5));
}

#[test]
fn memory_fallback_uppercases() {
    assert_eq!(parse_memory("+3kB"), Ok(3072));
    assert_eq!(
        parse_memory("+3 zb"),
        Err(SafeExecError::InvalidArgument("invalid memory limit: +3 ZB".to_string()))
    );
}

#[test]
fn memory_rejects_non_numbers() {
    assert_eq!(
        parse_memory(" abc "),
        Err(SafeExecError::InvalidArgument("invalid memory limit: ABC".to_string()))
    );
}

#[test]
fn memory_overflow_is_reported() {
    assert_eq!(try_parse_memory("+17179869184GB"), None);
    assert_eq!(try_parse_memory("+17179869183GB"), Some(Ok(17179869183 * 1024 * 1024 * 1024)));
    assert_eq!(try_parse_memory("64MB"), Some(Ok(64_000_000)));
}

#[test]
fn unit_limit_values() {
    assert_eq!(parse_unit_limit("12KB"), Ok(12288));
    assert_eq!(parse_unit_limit("7 B"), Ok(7));
    assert_eq!(parse_unit_limit("9 MB"), Ok(9 * 1048576));
    assert_eq!(
        parse_unit_limit("12XB"),
        Err(SafeExecError::InvalidArgument("invalid memory limit: 12XB".to_string()))
    );
    assert!(unit_limit_in_range("17179869183GB"));
    assert!(!unit_limit_in_range("17179869184GB"));
}

#[test]
fn memory_megabytes_law_example() {
    for n in [0u64, 1, 64, 4096] {
        let text = format!("{}MB", n);
        assert_eq!(parse_unit_limit(&text), Ok(n * 1048576));
    }
}

#[test]
fn duration_unit_laws_examples() {
    for n in [0u64, 9, 10, 12345] {
        assert_eq!(parse_duration(&format!("{}s", n)), Ok(secs(n)));
        assert_eq!(parse_duration(&format!("{}", n)), Ok(secs(n)));
        assert_eq!(parse_duration(&format!("{}m", n)), Ok(secs(n * 60)));
        assert_eq!(
            parse_duration(&format!("{}ms", n)),
            Ok(Duration { secs: n / 1000, nanos: ((n % 1000) * 1_000_000) as u32 })
        );
    }
}

#[test]
fn duration_constructors() {
    assert_eq!(Duration::from_secs(3), secs(3));
    assert_eq!(Duration::from_millis(2001), Duration { secs: 2, nanos: 1_000_000 });
}
