use registration_bridge::validate::{validate_password, validate_username, whitespace};

#[test]
fn username_of_letters_and_digits_is_accepted() {
    assert!(validate_username("alice"));
    assert!(validate_username("Bob42"));
    assert!(validate_username("0"));
    assert!(validate_username("ZzAa09"));
}

#[test]
fn empty_username_is_refused() {
    assert!(!validate_username(""));
}

#[test]
fn username_with_punctuation_is_refused() {
    assert!(!validate_username("alice!"));
    assert!(!validate_username("al.ice"));
    assert!(!validate_username("al ice"));
    assert!(!validate_username("alice_1"));
    assert!(!validate_username("-alice"));
    assert!(!validate_username("@alice:example.org"));
}

#[test]
fn username_with_control_or_line_end_is_refused() {
    assert!(!validate_username("alice\n"));
    assert!(!validate_username("\nalice"));
    assert!(!validate_username("ali\0ce"));
}

#[test]
fn username_with_letters_beyond_ascii_is_refused() {
    assert!(!validate_username("ålice"));
    assert!(!validate_username("алиса"));
    assert!(!validate_username("alice１"));
    assert!(!validate_username("ªlice"));
}

#[test]
fn username_characters_next_to_the_ranges_are_refused() {
    for c in ['/', ':', '@', '[', '`', '{'] {
        let name = format!("a{}b", c);
        assert!(!validate_username(&name), "{:?}", name);
    }
}

#[test]
fn every_single_ascii_character_agrees_with_std() {
    for v in 0u8..128 {
        let c = v as char;
        let name = c.to_string();
        assert_eq!(validate_username(&name), c.is_ascii_alphanumeric(), "{:?}", c);
    }
}

#[test]
fn password_of_three_characters_is_accepted() {
    assert!(validate_password("abc"));
    assert!(validate_password("a!?"));
    assert!(validate_password("correcthorsebatterystaple"));
}

#[test]
fn short_password_is_refused() {
    assert!(!validate_password(""));
    assert!(!validate_password("a"));
    assert!(!validate_password("ab"));
}

#[test]
fn password_length_counts_bytes() {
    assert!(!validate_password("é"));
    assert!(validate_password("éé"));
    assert!(validate_password("€"));
    assert!(validate_password("a€"));
    assert!(validate_password("𝄞"));
}

#[test]
fn password_with_whitespace_is_refused() {
    assert!(!validate_password("pass word"));
    assert!(!validate_password(" password"));
    assert!(!validate_password("password "));
    assert!(!validate_password("pass\tword"));
    assert!(!validate_password("pass\nword"));
    assert!(!validate_password("pass\rword"));
    assert!(!validate_password("pass\u{a0}word"));
    assert!(!validate_password("pass\u{3000}word"));
    assert!(!validate_password("pass\u{2028}word"));
}

#[test]
fn password_has_no_upper_bound_and_no_charset() {
    let long = "x".repeat(10_000);
    assert!(validate_password(&long));
    assert!(validate_password("pässwörd"));
    assert!(validate_password("密码密码"));
    assert!(validate_password("\u{200b}\u{200b}"));
}

#[test]
fn whitespace_agrees_with_std_on_every_character() {
    for v in 0u32..=0x10ffff {
        if let Some(c) = char::from_u32(v) {
            assert_eq!(whitespace(c), c.is_whitespace(), "U+{:04X}", v);
        }
    }
}

#[test]
fn password_agrees_with_the_plain_rule_on_samples() {
    for s in ["", "ab", "abc", "a b", "ab ", "\tab", "abcd", "éa", "a\u{85}b", "a\u{1680}bc"] {
        let plain = s.len() >= 3 && !s.chars().any(char::is_whitespace);
        assert_eq!(validate_password(s), plain, "{:?}", s);
    }
}
