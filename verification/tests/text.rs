use rizzo_pii::text::{
    contains_text, decimal_text, parse_port, push_decimal, same_text, signed_decimal_text,
    three_digits_text, to_chars,
};

#[test]
fn decimals_are_written_like_the_standard_library_does() {
    for n in [0u64, 7, 10, 99, 100, 5005, 65535, 1_700_000_000, u64::MAX] {
        assert_eq!(decimal_text(n), n.to_string());
    }
    for n in [0i32, 1, 76, -1, -10, i32::MAX, i32::MIN] {
        assert_eq!(signed_decimal_text(n), n.to_string());
    }
    for n in [0u32, 5, 42, 100, 999, 1000, u32::MAX] {
        assert_eq!(three_digits_text(n), format!("{:03}", n));
    }
}

#[test]
fn decimals_are_appended() {
    let mut s = String::from("port ");
    push_decimal(&mut s, 5005);
    assert_eq!(s, "port 5005");
}

#[test]
fn ports_are_read_like_the_standard_library_does() {
    let samples = [
        "", "+", "-", "0", "-0", "+0", "80", "+80", "++80", "080", "65535", "65536", "99999",
        "00000000000065535", "00000000000065536", "18446744073709551617", " 80", "80 ", "8_0",
        "8a", "a8", "\u{664}", "5005\u{e8}", "4294967376",
    ];
    for s in samples {
        assert_eq!(parse_port(s), s.parse::<u16>().ok(), "{:?}", s);
    }
}

#[test]
fn every_port_reads_back() {
    for port in 0..=u16::MAX {
        assert_eq!(parse_port(&decimal_text(port as u64)), Some(port));
    }
}

#[test]
fn texts_are_compared_by_character() {
    assert!(same_text("", ""));
    assert!(same_text("perch\u{e9}", "perch\u{e9}"));
    assert!(!same_text("--host", "--hosts"));
    assert!(!same_text("--host", "--port"));
    assert_eq!(to_chars("\u{e8} ok"), vec!['\u{e8}', ' ', 'o', 'k']);
}

#[test]
fn parts_are_found_like_the_standard_library_does() {
    let texts = ["", "a", "ab", "aab", "aaab", "config_pat", "xconfig_path", "\u{fffd}config_path"];
    let parts = ["", "a", "ab", "aab", "b", "config_path", "\u{fffd}"];
    for t in texts {
        for p in parts {
            assert_eq!(contains_text(t, p), t.contains(p), "{:?} in {:?}", p, t);
        }
    }
}
