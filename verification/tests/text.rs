use rlirsh::text::{decimal_text, hex_byte_text, join, signed_decimal_text, split};

#[test]
fn numbers_are_written_in_decimal() {
    for n in [0, 9, 10, 42, 100, 1048577, u64::MAX] {
        assert_eq!(decimal_text(n), n.to_string());
    }
}

#[test]
fn negative_numbers_are_written_with_a_sign() {
    assert_eq!(signed_decimal_text(-1), "-1");
    assert_eq!(signed_decimal_text(i32::MIN), "-2147483648");
    assert_eq!(signed_decimal_text(0), "0");
    assert_eq!(signed_decimal_text(137), "137");
}

#[test]
fn bytes_are_written_in_hexadecimal() {
    assert_eq!(hex_byte_text(0), "00");
    assert_eq!(hex_byte_text(0x0f), "0f");
    assert_eq!(hex_byte_text(0xa0), "a0");
    assert_eq!(hex_byte_text(255), "ff");
}

#[test]
fn joining_puts_the_separator_between() {
    let parts = |list: &[&str]| list.iter().map(|s| s.to_string()).collect::<Vec<String>>();
    assert_eq!(join(&parts(&[]), " "), "");
    assert_eq!(join(&parts(&["ls"]), " "), "ls");
    assert_eq!(join(&parts(&["ls", "-l", ""]), " "), "ls -l ");
}

#[test]
fn splitting_and_joining_gives_the_text_back() {
    for s in ["", ":", "a", "a:b", "::x:\u{e9}:", "1:2:3:4:5"] {
        let parts = split(s, ':');
        assert_eq!(parts, s.split(':').map(String::from).collect::<Vec<_>>());
        assert!(parts.iter().all(|part| !part.contains(':')));
        assert_eq!(join(&parts, ":"), s);
    }
}
