use lilypad::charset::{
    alphanumeric, digit, lowercase, special, uppercase, whitespace, DIGITS, LOWERCASE, SYMBOLS,
    UPPERCASE,
};

fn every_char() -> Vec<char> {
    let mut all = Vec::new();
    let mut code: u32 = 0;
    while code <= 0x10FFFF {
        if let Some(c) = char::from_u32(code) {
            all.push(c);
        }
        code += 1;
    }
    all
}

#[test]
fn lowercase_agrees_with_std_on_every_char() {
    for c in every_char() {
        assert_eq!(lowercase(c), c.is_ascii_lowercase(), "{:?}", c);
    }
}

#[test]
fn uppercase_agrees_with_std_on_every_char() {
    for c in every_char() {
        assert_eq!(uppercase(c), c.is_ascii_uppercase(), "{:?}", c);
    }
}

#[test]
fn digit_agrees_with_std_on_every_char() {
    for c in every_char() {
        assert_eq!(digit(c), c.is_ascii_digit(), "{:?}", c);
    }
}

#[test]
fn alphanumeric_agrees_with_std_on_every_char() {
    for c in every_char() {
        assert_eq!(alphanumeric(c), c.is_ascii_alphanumeric(), "{:?}", c);
    }
}

#[test]
fn whitespace_agrees_with_std_on_every_char() {
    for c in every_char() {
        assert_eq!(whitespace(c), c.is_whitespace(), "{:?}", c);
    }
}

#[test]
fn special_agrees_with_std_on_every_char() {
    for c in every_char() {
        assert_eq!(special(c), !c.is_ascii_alphanumeric() && !c.is_whitespace(), "{:?}", c);
    }
}

#[test]
fn whitespace_edges() {
    assert!(whitespace(' '));
    assert!(whitespace('\t'));
    assert!(whitespace('\n'));
    assert!(whitespace('\u{b}'));
    assert!(whitespace('\u{c}'));
    assert!(whitespace('\r'));
    assert!(!whitespace('\u{8}'));
    assert!(!whitespace('\u{e}'));
    assert!(whitespace('\u{85}'));
    assert!(whitespace('\u{a0}'));
    assert!(whitespace('\u{1680}'));
    assert!(!whitespace('\u{180e}'));
    assert!(!whitespace('\u{1fff}'));
    assert!(whitespace('\u{2000}'));
    assert!(whitespace('\u{200a}'));
    assert!(!whitespace('\u{200b}'));
    assert!(whitespace('\u{2028}'));
    assert!(whitespace('\u{2029}'));
    assert!(whitespace('\u{202f}'));
    assert!(whitespace('\u{205f}'));
    assert!(whitespace('\u{3000}'));
    assert!(!whitespace('\u{feff}'));
}

#[test]
fn class_edges() {
    assert!(lowercase('a') && lowercase('z'));
    assert!(!lowercase('`') && !lowercase('{'));
    assert!(uppercase('A') && uppercase('Z'));
    assert!(!uppercase('@') && !uppercase('['));
    assert!(digit('0') && digit('9'));
    assert!(!digit('/') && !digit(':'));
    assert!(!lowercase('\u{e9}'));
    assert!(!uppercase('\u{c9}'));
    assert!(!digit('\u{661}'));
}

#[test]
fn special_examples() {
    assert!(special('!'));
    assert!(special('_'));
    assert!(special('"'));
    assert!(special('\u{e9}'));
    assert!(special('\u{0}'));
    assert!(!special(' '));
    assert!(!special('\n'));
    assert!(!special('\u{a0}'));
    assert!(!special('a'));
    assert!(!special('Z'));
    assert!(!special('5'));
}

#[test]
fn fixed_sets_are_as_documented() {
    assert_eq!(LOWERCASE, "abcdefghijklmnopqrstuvwxyz");
    assert_eq!(UPPERCASE, "ABCDEFGHIJKLMNOPQRSTUVWXYZ");
    assert_eq!(DIGITS, "0123456789");
    assert_eq!(SYMBOLS, "!#$%&()*+,-./:;<=>?@[]^_{|}~");
    assert_eq!(LOWERCASE.chars().count(), 26);
    assert_eq!(UPPERCASE.chars().count(), 26);
    assert_eq!(DIGITS.chars().count(), 10);
    assert_eq!(SYMBOLS.chars().count(), 28);
}

#[test]
fn fixed_sets_hold_only_their_class() {
    assert!(LOWERCASE.chars().all(lowercase));
    assert!(UPPERCASE.chars().all(uppercase));
    assert!(DIGITS.chars().all(digit));
    assert!(SYMBOLS.chars().all(special));
    assert!(SYMBOLS.chars().all(|c| c.is_ascii_punctuation()));
    for left_out in ['"', '\'', '\\', '`', ' '] {
        assert!(!SYMBOLS.contains(left_out));
    }
}

#[test]
fn fixed_sets_hold_nothing_twice() {
    for set in [LOWERCASE, UPPERCASE, DIGITS, SYMBOLS] {
        let chars: Vec<char> = set.chars().collect();
        for (i, a) in chars.iter().enumerate() {
            for b in chars.iter().skip(i + 1) {
                assert_ne!(a, b);
            }
        }
    }
}
