use proxy_balancer::text::{
    i64_to_string, parse_i64, parse_u32, parse_u64, parse_u8, split_str, starts_with, str_eq,
    to_chars, u64_to_string, IntErrorKind,
};

fn kind_of(k: &std::num::IntErrorKind) -> IntErrorKind {
    match k {
        std::num::IntErrorKind::Empty => IntErrorKind::Empty,
        std::num::IntErrorKind::InvalidDigit => IntErrorKind::InvalidDigit,
        std::num::IntErrorKind::PosOverflow => IntErrorKind::PosOverflow,
        std::num::IntErrorKind::NegOverflow => IntErrorKind::NegOverflow,
        _ => unreachable!(),
    }
}

const SAMPLES: [&str; 32] = [
    "",
    "0",
    "7",
    "007",
    "+5",
    "-5",
    "+",
    "-",
    "+-5",
    "--5",
    "255",
    "256",
    "-0",
    "+0",
    " 5",
    "5 ",
    "5x",
    "x5",
    "4294967295",
    "4294967296",
    "18446744073709551615",
    "18446744073709551616",
    "9223372036854775807",
    "9223372036854775808",
    "-9223372036854775808",
    "-9223372036854775809",
    "99999999999999999999999999x",
    "-99999999999999999999999999x",
    "1_000",
    "\u{0661}",
    "12.5",
    "0x10",
];

#[test]
fn split_keeps_empty_pieces() {
    assert_eq!(split_str("/api/tile/ds1/5/10/15.png", '/'), vec!["", "api", "tile", "ds1", "5", "10", "15.png"]);
    assert_eq!(split_str("", '/'), vec![""]);
    assert_eq!(split_str("/", '/'), vec!["", ""]);
    assert_eq!(split_str("a//b/", '/'), vec!["a", "", "b", ""]);
    assert_eq!(split_str("no separator", '/'), vec!["no separator"]);
}

#[test]
fn split_agrees_with_std() {
    for s in ["", "/", "//", "a/b", "/a/b/", "é/ü/", "15.png", "a.b.c", "..."] {
        for sep in ['/', '.', ':'] {
            let ours = split_str(s, sep);
            let std: Vec<&str> = s.split(sep).collect();
            assert_eq!(ours, std);
        }
    }
}

#[test]
fn characters_and_prefixes() {
    assert_eq!(to_chars("aé/"), vec!['a', 'é', '/']);
    assert!(str_eq("png", "png"));
    assert!(!str_eq("png", "PNG"));
    assert!(!str_eq("png", "pn"));
    assert!(starts_with("/api/tile/x", "/api/tile"));
    assert!(starts_with("/api/tile", "/api/tile"));
    assert!(!starts_with("/api/til", "/api/tile"));
    assert!(starts_with("anything", ""));
}

#[test]
fn parse_u8_agrees_with_std() {
    for s in SAMPLES {
        match (parse_u8(s), s.parse::<u8>()) {
            (Ok(a), Ok(b)) => assert_eq!(a, b),
            (Err(a), Err(b)) => assert_eq!(a, kind_of(b.kind())),
            (a, b) => panic!("{:?}: {:?} against {:?}", s, a, b),
        }
    }
}

#[test]
fn parse_u32_agrees_with_std() {
    for s in SAMPLES {
        match (parse_u32(s), s.parse::<u32>()) {
            (Ok(a), Ok(b)) => assert_eq!(a, b),
            (Err(a), Err(b)) => assert_eq!(a, kind_of(b.kind())),
            (a, b) => panic!("{:?}: {:?} against {:?}", s, a, b),
        }
    }
}

#[test]
fn parse_u64_agrees_with_std() {
    for s in SAMPLES {
        match (parse_u64(s), s.parse::<u64>()) {
            (Ok(a), Ok(b)) => assert_eq!(a, b),
            (Err(a), Err(b)) => assert_eq!(a, kind_of(b.kind())),
            (a, b) => panic!("{:?}: {:?} against {:?}", s, a, b),
        }
    }
}

#[test]
fn parse_i64_agrees_with_std() {
    for s in SAMPLES {
        match (parse_i64(s), s.parse::<i64>()) {
            (Ok(a), Ok(b)) => assert_eq!(a, b),
            (Err(a), Err(b)) => assert_eq!(a, kind_of(b.kind())),
            (a, b) => panic!("{:?}: {:?} against {:?}", s, a, b),
        }
    }
}

#[test]
fn error_messages_are_those_of_std() {
    for s in ["", "x", "256", "-129"] {
        if let (Err(ours), Err(std)) = (parse_u8(s), s.parse::<u8>()) {
            assert_eq!(ours.message(), std.to_string());
        } else {
            panic!("{:?} must not parse", s);
        }
    }
    let ours = parse_i64("-9223372036854775809").unwrap_err();
    let std = "-9223372036854775809".parse::<i64>().unwrap_err();
    assert_eq!(ours.message(), std.to_string());
}

#[test]
fn decimal_numbers_are_printed_as_std_prints_them() {
    for n in [0u64, 1, 9, 10, 11, 99, 100, 255, 65535, 4070908800, u64::MAX] {
        assert_eq!(u64_to_string(n), n.to_string());
    }
    for i in [0i64, 1, -1, 10, -10, 2147483647, -2147483648, i64::MAX, i64::MIN] {
        assert_eq!(i64_to_string(i), i.to_string());
    }
    assert_eq!(u64_to_string(8196), "8196");
    assert_eq!(i64_to_string(-5), "-5");
}
