//! What the password generator is asked for: a length and the character
//! classes to draw from.

use vstd::prelude::*;

verus! {

/// The shortest password the length control offers.
pub const MIN_LENGTH: usize = 8;

/// The longest password the length control offers.
pub const MAX_LENGTH: usize = 64;

/// The length a fresh configuration starts with.
pub const DEFAULT_LENGTH: usize = 16;

/// A request to the generator. The fields are plain switches; no combination
/// of them is invalid, though one without any class cannot be generated from.
#[derive(Clone, Copy, Debug, PartialEq, Eq, Structural)]
pub struct GeneratorConfig {
    pub length: usize,
    pub use_lowercase: bool,
    pub use_uppercase: bool,
    pub use_digits: bool,
    pub use_symbols: bool,
}

/// 1 for a switch that is on, 0 for one that is off.
pub open spec fn flag(on: bool) -> nat {
    if on {
        1
    } else {
        0
    }
}

impl GeneratorConfig {
    /// At least one character class is enabled.
    pub open spec fn any_class(self) -> bool {
        self.use_lowercase || self.use_uppercase || self.use_digits || self.use_symbols
    }

    /// How many character classes are enabled.
    pub open spec fn class_count(self) -> nat {
        flag(self.use_lowercase) + flag(self.use_uppercase) + flag(self.use_digits) + flag(
            self.use_symbols,
        )
    }

    /// Every class that `self` enables is enabled in `other` too.
    pub open spec fn classes_within(self, other: GeneratorConfig) -> bool {
        &&& self.use_lowercase ==> other.use_lowercase
        &&& self.use_uppercase ==> other.use_uppercase
        &&& self.use_digits ==> other.use_digits
        &&& self.use_symbols ==> other.use_symbols
    }

    /// The length lies in the range that the length control offers.
    pub open spec fn length_in_range(self) -> bool {
        MIN_LENGTH <= self.length <= MAX_LENGTH
    }

    /// The configuration a session starts with: 16 characters, every class.
    pub open spec fn initial() -> GeneratorConfig {
        GeneratorConfig {
            length: DEFAULT_LENGTH,
            use_lowercase: true,
            use_uppercase: true,
            use_digits: true,
            use_symbols: true,
        }
    }

    /// The configuration a session starts with.
    pub fn new() -> (config: GeneratorConfig)
        ensures
            config == GeneratorConfig::initial(),
            config.length_in_range(),
    {
        GeneratorConfig {
            length: DEFAULT_LENGTH,
            use_lowercase: true,
            use_uppercase: true,
            use_digits: true,
            use_symbols: true,
        }
    }

    /// Whether a password can be generated at all, that is whether any class
    /// is enabled. The generate action is to be offered only then.
    pub fn generation_possible(&self) -> (possible: bool)
        ensures
            possible == self.any_class(),
    {
        self.use_lowercase || self.use_uppercase || self.use_digits || self.use_symbols
    }
}

impl Default for GeneratorConfig {
    /// The configuration a session starts with, as [`GeneratorConfig::new`]
    /// gives it.
    fn default() -> (config: GeneratorConfig)
        ensures
            config == GeneratorConfig::initial(),
    {
        GeneratorConfig::new()
    }
}

} // verus!
