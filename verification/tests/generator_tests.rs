use lilypad::charset::{DIGITS, LOWERCASE, SYMBOLS, UPPERCASE};
use lilypad::config::GeneratorConfig;
use lilypad::generator::{build_alphabet, generate, symbol_at, EmptyCharsetError, FALLBACK};

fn config(length: usize, lower: bool, upper: bool, digits: bool, symbols: bool) -> GeneratorConfig {
    GeneratorConfig {
        length,
        use_lowercase: lower,
        use_uppercase: upper,
        use_digits: digits,
        use_symbols: symbols,
    }
}

fn every_class_setting(length: usize) -> Vec<GeneratorConfig> {
    let mut all = Vec::new();
    for bits in 0..16u8 {
        all.push(config(length, bits & 1 != 0, bits & 2 != 0, bits & 4 != 0, bits & 8 != 0));
    }
    all
}

fn drawn_only_from(c: &GeneratorConfig, set: &str) {
    for _ in 0..200 {
        let password = generate(c).unwrap();
        assert_eq!(password.chars().count(), c.length);
        for ch in password.chars() {
            assert!(set.contains(ch), "{:?} is not in {:?}", ch, set);
        }
    }
}

#[test]
fn lowercase_alone_gives_lowercase_only() {
    drawn_only_from(&config(64, true, false, false, false), LOWERCASE);
}

#[test]
fn uppercase_alone_gives_uppercase_only() {
    drawn_only_from(&config(64, false, true, false, false), UPPERCASE);
}

#[test]
fn digits_alone_give_digits_only() {
    drawn_only_from(&config(64, false, false, true, false), DIGITS);
}

#[test]
fn symbols_alone_give_symbols_only() {
    drawn_only_from(&config(64, false, false, false, true), SYMBOLS);
}

#[test]
fn every_class_gives_the_length_asked_for() {
    for length in [0usize, 1, 8, 16, 63, 64, 65, 1000] {
        let password = generate(&config(length, true, true, true, true)).unwrap();
        assert_eq!(password.chars().count(), length);
        assert_eq!(password.len(), length);
    }
}

#[test]
fn any_enabled_class_gives_the_length_asked_for() {
    for length in [0usize, 8, 64] {
        for c in every_class_setting(length) {
            if c.generation_possible() {
                assert_eq!(generate(&c).unwrap().chars().count(), length);
            }
        }
    }
}

#[test]
fn no_class_is_an_error_at_any_length() {
    for length in [0usize, 1, 8, 16, 64, 1000, usize::MAX] {
        assert_eq!(generate(&config(length, false, false, false, false)), Err(EmptyCharsetError));
    }
}

#[test]
fn only_no_class_is_an_error() {
    for c in every_class_setting(8) {
        assert_eq!(generate(&c).is_err(), !c.generation_possible());
    }
}

#[test]
fn every_character_comes_from_the_alphabet() {
    for c in every_class_setting(64) {
        if !c.generation_possible() {
            continue;
        }
        let alphabet = build_alphabet(&c);
        for _ in 0..20 {
            for ch in generate(&c).unwrap().chars() {
                assert!(alphabet.contains(ch));
            }
        }
    }
}

#[test]
fn alphabet_is_put_together_in_a_fixed_order() {
    assert_eq!(build_alphabet(&config(8, false, false, false, false)), "");
    assert_eq!(build_alphabet(&config(8, true, false, false, false)), "abcdefghijklmnopqrstuvwxyz");
    assert_eq!(build_alphabet(&config(8, false, true, false, false)), "ABCDEFGHIJKLMNOPQRSTUVWXYZ");
    assert_eq!(build_alphabet(&config(8, false, false, true, false)), "0123456789");
    assert_eq!(
        build_alphabet(&config(8, false, false, false, true)),
        "!#$%&()*+,-./:;<=>?@[]^_{|}~"
    );
    assert_eq!(
        build_alphabet(&config(8, true, false, true, false)),
        "abcdefghijklmnopqrstuvwxyz0123456789"
    );
    assert_eq!(
        build_alphabet(&config(8, true, true, true, true)),
        "abcdefghijklmnopqrstuvwxyzABCDEFGHIJKLMNOPQRSTUVWXYZ0123456789!#$%&()*+,-./:;<=>?@[]^_{|}~"
    );
}

#[test]
fn alphabet_does_not_depend_on_the_length() {
    for c in every_class_setting(8) {
        let other = GeneratorConfig { length: 64, ..c };
        assert_eq!(build_alphabet(&c), build_alphabet(&other));
    }
    assert_eq!(build_alphabet(&config(0, true, true, true, true)).chars().count(), 90);
}

#[test]
fn an_index_picks_the_character_at_its_place() {
    assert_eq!(symbol_at("abc", 0), 'a');
    assert_eq!(symbol_at("abc", 1), 'b');
    assert_eq!(symbol_at("abc", 2), 'c');
    let all = build_alphabet(&config(8, true, true, true, true));
    assert_eq!(symbol_at(&all, 0), 'a');
    assert_eq!(symbol_at(&all, 25), 'z');
    assert_eq!(symbol_at(&all, 26), 'A');
    assert_eq!(symbol_at(&all, 52), '0');
    assert_eq!(symbol_at(&all, 62), '!');
    assert_eq!(symbol_at(&all, 89), '~');
}

#[test]
fn an_index_past_the_end_picks_the_fallback() {
    assert_eq!(FALLBACK, 'A');
    assert_eq!(symbol_at("abc", 3), 'A');
    assert_eq!(symbol_at("abc", usize::MAX), 'A');
    assert_eq!(symbol_at("", 0), 'A');
}

#[test]
fn an_index_counts_characters_not_bytes() {
    assert_eq!(symbol_at("\u{e9}\u{1f600}z", 1), '\u{1f600}');
    assert_eq!(symbol_at("\u{e9}\u{1f600}z", 2), 'z');
    assert_eq!(symbol_at("\u{e9}\u{1f600}z", 3), 'A');
}

#[test]
fn draws_reach_the_whole_alphabet() {
    let c = config(64, false, false, true, false);
    let mut seen = [false; 10];
    for _ in 0..200 {
        for ch in generate(&c).unwrap().chars() {
            seen[ch.to_digit(10).unwrap() as usize] = true;
        }
    }
    assert!(seen.iter().all(|s| *s));
}

#[test]
fn two_passwords_differ() {
    let c = config(64, true, true, true, true);
    let first = generate(&c).unwrap();
    let mut differs = false;
    for _ in 0..5 {
        if generate(&c).unwrap() != first {
            differs = true;
        }
    }
    assert!(differs);
}
