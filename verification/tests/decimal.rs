use lfp::decimal::{parse_u32, parse_u64, parse_usize, push_decimal, IntErrorKind};

fn std_kind(e: std::num::ParseIntError) -> IntErrorKind {
    match e.kind() {
        std::num::IntErrorKind::Empty => IntErrorKind::Empty,
        std::num::IntErrorKind::InvalidDigit => IntErrorKind::InvalidDigit,
        std::num::IntErrorKind::PosOverflow => IntErrorKind::PosOverflow,
        other => panic!("unexpected kind {other:?}"),
    }
}

const SAMPLES: &[&str] = &[
    "",
    "+",
    "-",
    "0",
    "+0",
    "-0",
    "7",
    "42",
    "+42",
    "++42",
    "-42",
    " 42",
    "42 ",
    "4_2",
    "0042",
    "12a",
    "a12",
    "٣",
    "4294967295",
    "4294967296",
    "99999999999",
    "18446744073709551615",
    "18446744073709551616",
    "99999999999999999999999x",
    "1844674407370955161x",
    "00000000000000000000000000000001",
];

#[test]
fn parse_u32_agrees_with_std() {
    for s in SAMPLES {
        let expected = s.parse::<u32>().map_err(std_kind);
        assert_eq!(parse_u32(s), expected, "input {s:?}");
    }
}

#[test]
fn parse_u64_agrees_with_std() {
    for s in SAMPLES {
        let expected = s.parse::<u64>().map_err(std_kind);
        assert_eq!(parse_u64(s), expected, "input {s:?}");
    }
}

#[test]
fn parse_usize_agrees_with_std() {
    for s in SAMPLES {
        let expected = s.parse::<usize>().map_err(std_kind);
        assert_eq!(parse_usize(s), expected, "input {s:?}");
    }
}

#[test]
fn parse_exact_values() {
    assert_eq!(parse_u32("4096"), Ok(4096));
    assert_eq!(parse_u64("+30"), Ok(30));
    assert_eq!(parse_usize(""), Err(IntErrorKind::Empty));
    assert_eq!(parse_u32("4294967296"), Err(IntErrorKind::PosOverflow));
    assert_eq!(parse_u64("3O"), Err(IntErrorKind::InvalidDigit));
}

#[test]
fn push_decimal_renders_like_display() {
    for n in [0u128, 1, 9, 10, 11, 99, 100, 404, 65535, 1_700_000_000_123, u64::MAX as u128, u128::MAX] {
        let mut out = String::from("x=");
        push_decimal(&mut out, n);
        assert_eq!(out, format!("x={n}"));
    }
}
