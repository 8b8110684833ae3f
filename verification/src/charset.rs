//! Character classes: the four fixed sets a generated password draws from,
//! and the predicates the master-password rules are built on.

use vstd::prelude::*;

verus! {

/// The lowercase letters a generated password may hold.
pub const LOWERCASE: &'static str = "abcdefghijklmnopqrstuvwxyz";

/// The uppercase letters a generated password may hold.
pub const UPPERCASE: &'static str = "ABCDEFGHIJKLMNOPQRSTUVWXYZ";

/// The digits a generated password may hold.
pub const DIGITS: &'static str = "0123456789";

/// The punctuation a generated password may hold. Quotes, the backslash and
/// the backtick are left out on purpose.
pub const SYMBOLS: &'static str = "!#$%&()*+,-./:;<=>?@[]^_{|}~";

/// `c` is one of `a` to `z`.
pub open spec fn is_ascii_lowercase(c: char) -> bool {
    'a' <= c && c <= 'z'
}

/// `c` is one of `A` to `Z`.
pub open spec fn is_ascii_uppercase(c: char) -> bool {
    'A' <= c && c <= 'Z'
}

/// `c` is one of `0` to `9`.
pub open spec fn is_ascii_digit(c: char) -> bool {
    '0' <= c && c <= '9'
}

/// `c` is an ASCII letter or an ASCII digit.
pub open spec fn is_ascii_alphanumeric(c: char) -> bool {
    is_ascii_lowercase(c) || is_ascii_uppercase(c) || is_ascii_digit(c)
}

/// `c` has the Unicode property White_Space.
pub open spec fn is_whitespace(c: char) -> bool {
    ||| '\u{9}' <= c && c <= '\u{d}'
    ||| c == ' '
    ||| c == '\u{85}'
    ||| c == '\u{a0}'
    ||| c == '\u{1680}'
    ||| '\u{2000}' <= c && c <= '\u{200a}'
    ||| c == '\u{2028}'
    ||| c == '\u{2029}'
    ||| c == '\u{202f}'
    ||| c == '\u{205f}'
    ||| c == '\u{3000}'
}

/// `c` counts as a special character for the master-password rules: it is
/// neither an ASCII letter or digit nor whitespace.
pub open spec fn is_special(c: char) -> bool {
    !is_ascii_alphanumeric(c) && !is_whitespace(c)
}

/// `c` is one of the 28 characters of [`SYMBOLS`].
pub open spec fn is_generator_symbol(c: char) -> bool {
    ||| c == '!'
    ||| '#' <= c && c <= '&'
    ||| '(' <= c && c <= '/'
    ||| ':' <= c && c <= '@'
    ||| c == '['
    ||| ']' <= c && c <= '_'
    ||| '{' <= c && c <= '~'
}

/// Whether `c` is an ASCII lowercase letter.
pub fn lowercase(c: char) -> (b: bool)
    ensures
        b == is_ascii_lowercase(c),
{
    'a' <= c && c <= 'z'
}

/// Whether `c` is an ASCII uppercase letter.
pub fn uppercase(c: char) -> (b: bool)
    ensures
        b == is_ascii_uppercase(c),
{
    'A' <= c && c <= 'Z'
}

/// Whether `c` is an ASCII digit.
pub fn digit(c: char) -> (b: bool)
    ensures
        b == is_ascii_digit(c),
{
    '0' <= c && c <= '9'
}

/// Whether `c` is an ASCII letter or digit.
pub fn alphanumeric(c: char) -> (b: bool)
    ensures
        b == is_ascii_alphanumeric(c),
{
    lowercase(c) || uppercase(c) || digit(c)
}

/// Whether `c` is whitespace, in Unicode's sense of the word.
pub fn whitespace(c: char) -> (b: bool)
    ensures
        b == is_whitespace(c),
{
    ('\u{9}' <= c && c <= '\u{d}') || c == ' ' || c == '\u{85}' || c == '\u{a0}' || c == '\u{1680}'
        || ('\u{2000}' <= c && c <= '\u{200a}') || c == '\u{2028}' || c == '\u{2029}' || c
        == '\u{202f}' || c == '\u{205f}' || c == '\u{3000}'
}

/// Whether `c` counts as a special character for the master-password rules.
pub fn special(c: char) -> (b: bool)
    ensures
        b == is_special(c),
{
    !alphanumeric(c) && !whitespace(c)
}

/// [`LOWERCASE`] holds the 26 letters `a` to `z`, each once, in order.
pub proof fn lemma_lowercase_set()
    ensures
        LOWERCASE@.len() == 26,
        forall|i: int| 0 <= i < 26 ==> #[trigger] LOWERCASE@[i] as int == 'a' as int + i,
        forall|c: char| #[trigger] LOWERCASE@.contains(c) <==> is_ascii_lowercase(c),
{
    reveal_strlit("abcdefghijklmnopqrstuvwxyz");
    let s = LOWERCASE@;
    assert forall|c: char| is_ascii_lowercase(c) implies #[trigger] s.contains(c) by {
        assert(s[c as int - 'a' as int] == c);
    }
}

/// [`UPPERCASE`] holds the 26 letters `A` to `Z`, each once, in order.
pub proof fn lemma_uppercase_set()
    ensures
        UPPERCASE@.len() == 26,
        forall|i: int| 0 <= i < 26 ==> #[trigger] UPPERCASE@[i] as int == 'A' as int + i,
        forall|c: char| #[trigger] UPPERCASE@.contains(c) <==> is_ascii_uppercase(c),
{
    reveal_strlit("ABCDEFGHIJKLMNOPQRSTUVWXYZ");
    let s = UPPERCASE@;
    assert forall|c: char| is_ascii_uppercase(c) implies #[trigger] s.contains(c) by {
        assert(s[c as int - 'A' as int] == c);
    }
}

/// [`DIGITS`] holds the ten digits `0` to `9`, each once, in order.
pub proof fn lemma_digit_set()
    ensures
        DIGITS@.len() == 10,
        forall|i: int| 0 <= i < 10 ==> #[trigger] DIGITS@[i] as int == '0' as int + i,
        forall|c: char| #[trigger] DIGITS@.contains(c) <==> is_ascii_digit(c),
{
    reveal_strlit("0123456789");
    let s = DIGITS@;
    assert forall|c: char| is_ascii_digit(c) implies #[trigger] s.contains(c) by {
        assert(s[c as int - '0' as int] == c);
    }
}

/// The position in [`SYMBOLS`] of a character that it holds.
pub open spec fn symbol_index(c: char) -> int {
    let n = c as int;
    if n == 0x21 {
        0
    } else if n <= 0x26 {
        n - 0x22
    } else if n <= 0x2f {
        n - 0x23
    } else if n <= 0x40 {
        n - 0x2d
    } else if n == 0x5b {
        20
    } else if n <= 0x5f {
        n - 0x48
    } else {
        n - 0x63
    }
}

/// [`SYMBOLS`] holds 28 characters, each at its [`symbol_index`], and none
/// of them is a letter, a digit or whitespace.
pub proof fn lemma_symbol_set()
    ensures
        SYMBOLS@.len() == 28,
        forall|c: char| #[trigger] SYMBOLS@.contains(c) <==> is_generator_symbol(c),
        forall|c: char| is_generator_symbol(c) ==> SYMBOLS@[#[trigger] symbol_index(c)] == c,
        forall|c: char| #[trigger] is_generator_symbol(c) ==> is_special(c),
{
    reveal_strlit("!#$%&()*+,-./:;<=>?@[]^_{|}~");
    let s = SYMBOLS@;
    assert forall|c: char| is_generator_symbol(c) implies #[trigger] s.contains(c) && s[
        symbol_index(c)] == c by {
        assert(0 <= symbol_index(c) < 28);
        assert(s[symbol_index(c)] == c);
    }
}

} // verus!
