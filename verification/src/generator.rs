//! The password generator: an alphabet put together from the enabled
//! classes, and as many characters drawn from it as the configuration asks
//! for.
//!
//! The generator is a convenience of the user interface. Its random source
//! is the thread-local generator of the `rand` crate; nothing here makes the
//! result fit for use as a cryptographic secret.

use vstd::prelude::*;
use rand::Rng;
use rand::rngs::ThreadRng;
use crate::charset::{
    lemma_digit_set, lemma_lowercase_set, lemma_symbol_set, lemma_uppercase_set, DIGITS,
    LOWERCASE, SYMBOLS, UPPERCASE,
};
use crate::config::GeneratorConfig;

verus! {

/// The character that stands in where an index points past the alphabet.
pub const FALLBACK: char = 'A';

/// Generation was asked for with no character class enabled.
#[derive(Clone, Copy, Debug, PartialEq, Eq, Structural)]
pub struct EmptyCharsetError;

/// `rand::rngs::ThreadRng`, the handle to the calling thread's generator.
/// Nothing is known of what it holds.
#[verifier::external_type_specification]
#[verifier::external_body]
pub struct ExThreadRng(ThreadRng);

/// `rand::thread_rng`: hands out the handle to the calling thread's
/// generator. Nothing is claimed of the handle. On a thread's first call
/// `rand` seeds the generator from the operating system and panics if the
/// system has no entropy to give; no argument can rule that out.
#[verifier::external_body]
fn thread_rng() -> ThreadRng {
    rand::thread_rng()
}

/// `rand::Rng::gen_range` on the half-open range from `low` to `high`. The
/// claim is that the number drawn lies in the range, which is all that holds
/// of every draw. `rand` panics on an empty range, so `low` must be below
/// `high`.
#[verifier::external_body]
fn gen_range(rng: &mut ThreadRng, low: usize, high: usize) -> (drawn: usize)
    requires
        low < high,
    ensures
        low <= drawn < high,
{
    rng.gen_range(low..high)
}

/// `String::push`: appends one character to the end of the string.
pub assume_specification[ String::push ](s: &mut String, ch: char)
    ensures
        final(s)@ == old(s)@.push(ch),
;

/// The characters of `class` if it is enabled, none otherwise.
pub open spec fn enabled(on: bool, class: Seq<char>) -> Seq<char> {
    if on {
        class
    } else {
        Seq::empty()
    }
}

/// The working alphabet of a configuration: the enabled classes one after
/// the other, lowercase first, then uppercase, digits and symbols.
pub open spec fn alphabet(config: GeneratorConfig) -> Seq<char> {
    enabled(config.use_lowercase, LOWERCASE@) + enabled(config.use_uppercase, UPPERCASE@) + enabled(
        config.use_digits,
        DIGITS@,
    ) + enabled(config.use_symbols, SYMBOLS@)
}

/// What `index` picks from `letters`: the character at that place, or the
/// fallback past the end.
pub open spec fn symbol_choice(letters: Seq<char>, index: int) -> char {
    if 0 <= index < letters.len() {
        letters[index]
    } else {
        FALLBACK
    }
}

/// `password` is a possible outcome of generating for `config`: it has the
/// length asked for, and every character of it comes from the alphabet.
pub open spec fn generated_from(config: GeneratorConfig, password: Seq<char>) -> bool {
    &&& password.len() == config.length
    &&& forall|i: int| 0 <= i < password.len() ==> alphabet(config).contains(#[trigger] password[i])
}

/// The working alphabet of `config` as a string.
pub fn build_alphabet(config: &GeneratorConfig) -> (letters: String)
    ensures
        letters@ == alphabet(*config),
{
    let mut letters = String::new();
    if config.use_lowercase {
        letters.append(LOWERCASE);
    }
    if config.use_uppercase {
        letters.append(UPPERCASE);
    }
    if config.use_digits {
        letters.append(DIGITS);
    }
    if config.use_symbols {
        letters.append(SYMBOLS);
    }
    letters
}

/// The character that a drawn `index` stands for in `letters`.
pub fn symbol_at(letters: &str, index: usize) -> (c: char)
    ensures
        c == symbol_choice(letters@, index as int),
{
    if index < letters.unicode_len() {
        letters.get_char(index)
    } else {
        FALLBACK
    }
}

/// Generates a password for `config`.
///
/// Fails exactly when no class is enabled. Otherwise the password has
/// `config.length` characters, each of them drawn anew from the whole
/// alphabet. That the draws are uniform and independent rests on `rand` and
/// is not part of the contract.
pub fn generate(config: &GeneratorConfig) -> (result: Result<String, EmptyCharsetError>)
    ensures
        result is Err <==> !config.any_class(),
        result matches Ok(password) ==> generated_from(*config, password@),
{
    let letters = build_alphabet(config);
    proof {
        lemma_alphabet_len(*config);
    }
    if letters.as_str().is_empty() {
        return Err(EmptyCharsetError);
    }
    let count = letters.as_str().unicode_len();
    let mut rng = thread_rng();
    let mut password = String::new();
    let mut produced: usize = 0;
    while produced < config.length
        invariant
            produced <= config.length,
            password@.len() == produced,
            letters@ == alphabet(*config),
            count == letters@.len(),
            count > 0,
            forall|i: int|
                0 <= i < password@.len() ==> alphabet(*config).contains(#[trigger] password@[i]),
        decreases config.length - produced,
    {
        let index = gen_range(&mut rng, 0, count);
        let c = symbol_at(letters.as_str(), index);
        assert(alphabet(*config).contains(c)) by {
            assert(letters@[index as int] == c);
        }
        password.push(c);
        produced = produced + 1;
    }
    Ok(password)
}

/// The alphabet has 26 characters for each enabled case, 10 for the digits
/// and 28 for the symbols; it is empty exactly when no class is enabled.
pub proof fn lemma_alphabet_len(config: GeneratorConfig)
    ensures
        alphabet(config).len() == (if config.use_lowercase {
            26int
        } else {
            0
        }) + (if config.use_uppercase {
            26int
        } else {
            0
        }) + (if config.use_digits {
            10int
        } else {
            0
        }) + (if config.use_symbols {
            28int
        } else {
            0
        }),
        alphabet(config).len() == 0 <==> !config.any_class(),
{
    lemma_lowercase_set();
    lemma_uppercase_set();
    lemma_digit_set();
    lemma_symbol_set();
}

/// A character is in the alphabet exactly when it is in one of the enabled
/// classes.
pub proof fn lemma_alphabet_contains(config: GeneratorConfig, c: char)
    ensures
        alphabet(config).contains(c) <==> {
            ||| config.use_lowercase && LOWERCASE@.contains(c)
            ||| config.use_uppercase && UPPERCASE@.contains(c)
            ||| config.use_digits && DIGITS@.contains(c)
            ||| config.use_symbols && SYMBOLS@.contains(c)
        },
{
    let a = enabled(config.use_lowercase, LOWERCASE@);
    let b = enabled(config.use_uppercase, UPPERCASE@);
    let d = enabled(config.use_digits, DIGITS@);
    let e = enabled(config.use_symbols, SYMBOLS@);
    lemma_concat_contains(a, b, c);
    lemma_concat_contains(a + b, d, c);
    lemma_concat_contains(a + b + d, e, c);
}

/// A character is in a concatenation exactly when it is in one of the parts.
proof fn lemma_concat_contains(left: Seq<char>, right: Seq<char>, c: char)
    ensures
        (left + right).contains(c) <==> left.contains(c) || right.contains(c),
{
    let both = left + right;
    if left.contains(c) {
        let i = choose|i: int| 0 <= i < left.len() && left[i] == c;
        assert(both[i] == c);
    }
    if right.contains(c) {
        let i = choose|i: int| 0 <= i < right.len() && right[i] == c;
        assert(both[left.len() + i] == c);
    }
    if both.contains(c) {
        let i = choose|i: int| 0 <= i < both.len() && both[i] == c;
        if i < left.len() {
            assert(left[i] == c);
        } else {
            assert(right[i - left.len()] == c);
        }
    }
}

/// With exactly one class enabled, every character of a generated password
/// lies in that class's fixed set.
pub proof fn lemma_single_class_output(config: GeneratorConfig, password: Seq<char>)
    requires
        generated_from(config, password),
        config.class_count() == 1,
    ensures
        config.use_lowercase ==> forall|i: int|
            0 <= i < password.len() ==> LOWERCASE@.contains(#[trigger] password[i]),
        config.use_uppercase ==> forall|i: int|
            0 <= i < password.len() ==> UPPERCASE@.contains(#[trigger] password[i]),
        config.use_digits ==> forall|i: int|
            0 <= i < password.len() ==> DIGITS@.contains(#[trigger] password[i]),
        config.use_symbols ==> forall|i: int|
            0 <= i < password.len() ==> SYMBOLS@.contains(#[trigger] password[i]),
{
    assert forall|i: int| 0 <= i < password.len() implies {
        &&& config.use_lowercase ==> LOWERCASE@.contains(#[trigger] password[i])
        &&& config.use_uppercase ==> UPPERCASE@.contains(password[i])
        &&& config.use_digits ==> DIGITS@.contains(password[i])
        &&& config.use_symbols ==> SYMBOLS@.contains(password[i])
    } by {
        lemma_alphabet_contains(config, password[i]);
    }
}

/// Whatever classes are enabled, every character of a generated password
/// lies in the fixed set of one of them.
pub proof fn lemma_output_in_enabled_class(config: GeneratorConfig, password: Seq<char>)
    requires
        generated_from(config, password),
    ensures
        forall|i: int|
            0 <= i < password.len() ==> {
                ||| config.use_lowercase && LOWERCASE@.contains(#[trigger] password[i])
                ||| config.use_uppercase && UPPERCASE@.contains(password[i])
                ||| config.use_digits && DIGITS@.contains(password[i])
                ||| config.use_symbols && SYMBOLS@.contains(password[i])
            },
{
    assert forall|i: int| 0 <= i < password.len() implies {
        ||| config.use_lowercase && LOWERCASE@.contains(#[trigger] password[i])
        ||| config.use_uppercase && UPPERCASE@.contains(password[i])
        ||| config.use_digits && DIGITS@.contains(password[i])
        ||| config.use_symbols && SYMBOLS@.contains(password[i])
    } by {
        lemma_alphabet_contains(config, password[i]);
    }
}

} // verus!
