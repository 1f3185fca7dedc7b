use codewhale::text::{
    eq_ignore_ascii_case, is_blank, is_white_space, parse_u32, push_decimal, push_padded, same_text, trim,
};

#[test]
fn white_space_agrees_with_std_on_every_character() {
    for code in 0..=0x10_ffff_u32 {
        if let Some(c) = char::from_u32(code) {
            assert_eq!(is_white_space(c), c.is_whitespace(), "{code:x}");
        }
    }
}

#[test]
fn trimming_agrees_with_std() {
    for s in ["", " ", "a", " a ", "\t\u{a0}a b\u{3000}\n", "é\u{2028}", " \u{200b} "] {
        assert_eq!(trim(s), s.trim());
        assert_eq!(is_blank(s), s.trim().is_empty());
    }
}

#[test]
fn ascii_case_agrees_with_std() {
    for (a, b) in [("true", "TRUE"), ("é", "É"), ("[", "{"), ("@", "`"), ("a", "ab"), ("Zz", "zZ")] {
        assert_eq!(eq_ignore_ascii_case(a, b), a.eq_ignore_ascii_case(b));
    }
    assert!(same_text("abc", "abc"));
    assert!(!same_text("abc", "abd"));
    assert!(!same_text("abc", "ab"));
}

#[test]
fn numbers_are_read_as_std_reads_them() {
    for s in [
        "", "0", "7", "+7", "++7", "-7", "+", "00012", "4294967295", "4294967296", "1 ", "a", "1_0",
        "٣", "99999999999999999999999",
    ] {
        assert_eq!(parse_u32(s), s.parse::<u32>().ok(), "{s}");
    }
}

#[test]
fn written_numbers_read_back() {
    for n in [0_u32, 9, 10, 99, 100, 4_294_967_295] {
        let mut out = String::new();
        push_decimal(&mut out, u128::from(n));
        assert_eq!(out, n.to_string());
        assert_eq!(parse_u32(&out), Some(n));
    }
    let mut out = String::from("n=");
    push_decimal(&mut out, u128::MAX);
    assert_eq!(out, format!("n={}", u128::MAX));
}

#[test]
fn padding_fills_to_width() {
    let mut out = String::new();
    push_padded(&mut out, "ab", 4);
    push_padded(&mut out, "abcdef", 4);
    assert_eq!(out, "ab  abcdef");
}
