//! A coarse, rule-based rating of what a generator configuration will
//! produce. It counts conditions; it is no estimate of entropy.

use vstd::prelude::*;
use crate::config::{flag, GeneratorConfig};

verus! {

/// From this length on a configuration earns its first point for length.
pub const LONG_LENGTH: usize = 12;

/// From this length on a configuration earns a second point for length.
pub const VERY_LONG_LENGTH: usize = 20;

/// The highest score there is.
pub const MAX_SCORE: u8 = 5;

/// The rating of a configuration, from worst to best.
#[derive(Clone, Copy, Debug, PartialEq, Eq, PartialOrd, Ord, Hash, Structural)]
pub enum StrengthTier {
    Weak,
    Moderate,
    Strong,
    VeryStrong,
}

/// The points a length earns: one from 12 characters on, a second from 20 on.
pub open spec fn length_points(length: nat) -> nat {
    flag(length >= LONG_LENGTH) + flag(length >= VERY_LONG_LENGTH)
}

/// The points the enabled classes earn: one for mixed case, one for digits,
/// one for symbols. A single case alone earns nothing.
pub open spec fn class_points(config: GeneratorConfig) -> nat {
    flag(config.use_lowercase && config.use_uppercase) + flag(config.use_digits) + flag(
        config.use_symbols,
    )
}

/// The score of a configuration, between 0 and 5.
pub open spec fn strength_score(config: GeneratorConfig) -> nat {
    length_points(config.length as nat) + class_points(config)
}

/// The tier a score falls in: 0 and 1 are weak, 2 and 3 moderate, 4 strong,
/// 5 very strong.
pub open spec fn tier_of_score(score: nat) -> StrengthTier {
    if score <= 1 {
        StrengthTier::Weak
    } else if score <= 3 {
        StrengthTier::Moderate
    } else if score == 4 {
        StrengthTier::Strong
    } else {
        StrengthTier::VeryStrong
    }
}

impl StrengthTier {
    /// The place of a tier in the order from worst (0) to best (3).
    pub open spec fn spec_rank(self) -> nat {
        match self {
            StrengthTier::Weak => 0,
            StrengthTier::Moderate => 1,
            StrengthTier::Strong => 2,
            StrengthTier::VeryStrong => 3,
        }
    }

    /// The text a tier is shown as.
    pub open spec fn spec_label(self) -> Seq<char> {
        match self {
            StrengthTier::Weak => "Weak"@,
            StrengthTier::Moderate => "Moderate"@,
            StrengthTier::Strong => "Strong"@,
            StrengthTier::VeryStrong => "Very strong"@,
        }
    }

    /// The colour a tier is shown in, as red, green and blue.
    pub open spec fn spec_rgb(self) -> (u8, u8, u8) {
        match self {
            StrengthTier::Weak => (240u8, 105u8, 105u8),
            StrengthTier::Moderate => (255u8, 193u8, 107u8),
            StrengthTier::Strong => (111u8, 207u8, 151u8),
            StrengthTier::VeryStrong => (76u8, 175u8, 80u8),
        }
    }

    /// The place of the tier in the order from worst to best.
    pub fn rank(self) -> (r: u8)
        ensures
            r == self.spec_rank(),
    {
        match self {
            StrengthTier::Weak => 0,
            StrengthTier::Moderate => 1,
            StrengthTier::Strong => 2,
            StrengthTier::VeryStrong => 3,
        }
    }

    /// The text the tier is shown as.
    pub fn label(self) -> (text: &'static str)
        ensures
            text@ == self.spec_label(),
    {
        match self {
            StrengthTier::Weak => "Weak",
            StrengthTier::Moderate => "Moderate",
            StrengthTier::Strong => "Strong",
            StrengthTier::VeryStrong => "Very strong",
        }
    }

    /// The colour the tier is shown in.
    pub fn rgb(self) -> (colour: (u8, u8, u8))
        ensures
            colour == self.spec_rgb(),
    {
        match self {
            StrengthTier::Weak => (240, 105, 105),
            StrengthTier::Moderate => (255, 193, 107),
            StrengthTier::Strong => (111, 207, 151),
            StrengthTier::VeryStrong => (76, 175, 80),
        }
    }

    /// The tier of a score. Scores above 5 do not occur; they would count
    /// as very strong.
    pub fn from_score(score: u8) -> (tier: StrengthTier)
        ensures
            tier == tier_of_score(score as nat),
    {
        if score <= 1 {
            StrengthTier::Weak
        } else if score <= 3 {
            StrengthTier::Moderate
        } else if score == 4 {
            StrengthTier::Strong
        } else {
            StrengthTier::VeryStrong
        }
    }
}

/// The score of `config`.
pub fn score(config: &GeneratorConfig) -> (points: u8)
    ensures
        points == strength_score(*config),
        points <= MAX_SCORE,
{
    let mut points: u8 = 0;
    if config.length >= LONG_LENGTH {
        points = points + 1;
    }
    if config.length >= VERY_LONG_LENGTH {
        points = points + 1;
    }
    if config.use_lowercase && config.use_uppercase {
        points = points + 1;
    }
    if config.use_digits {
        points = points + 1;
    }
    if config.use_symbols {
        points = points + 1;
    }
    points
}

/// The strength tier of `config`.
pub fn evaluate(config: &GeneratorConfig) -> (tier: StrengthTier)
    ensures
        tier == tier_of_score(strength_score(*config)),
{
    StrengthTier::from_score(score(config))
}

/// A higher score never falls in a lower tier.
pub proof fn lemma_tier_monotonic(low: nat, high: nat)
    requires
        low <= high,
    ensures
        tier_of_score(low).spec_rank() <= tier_of_score(high).spec_rank(),
{
}

/// With the classes fixed, a longer password never scores lower, nor falls
/// in a lower tier.
pub proof fn lemma_score_monotonic_in_length(shorter: GeneratorConfig, longer: GeneratorConfig)
    requires
        shorter.length <= longer.length,
        shorter.use_lowercase == longer.use_lowercase,
        shorter.use_uppercase == longer.use_uppercase,
        shorter.use_digits == longer.use_digits,
        shorter.use_symbols == longer.use_symbols,
    ensures
        strength_score(shorter) <= strength_score(longer),
        tier_of_score(strength_score(shorter)).spec_rank() <= tier_of_score(
            strength_score(longer),
        ).spec_rank(),
{
}

/// With the length fixed, enabling further classes never scores lower, nor
/// falls in a lower tier.
pub proof fn lemma_score_monotonic_in_classes(fewer: GeneratorConfig, more: GeneratorConfig)
    requires
        fewer.length == more.length,
        fewer.classes_within(more),
    ensures
        strength_score(fewer) <= strength_score(more),
        tier_of_score(strength_score(fewer)).spec_rank() <= tier_of_score(
            strength_score(more),
        ).spec_rank(),
{
}

/// With the length fixed, a configuration with strictly more classes
/// enabled, whichever they are, never scores lower, nor falls in a lower
/// tier. Between two configurations with equally many classes the score may
/// go either way: digits alone score 1, lowercase alone 0.
pub proof fn lemma_score_monotonic_in_class_count(fewer: GeneratorConfig, more: GeneratorConfig)
    requires
        fewer.length == more.length,
        fewer.class_count() < more.class_count(),
    ensures
        strength_score(fewer) <= strength_score(more),
        tier_of_score(strength_score(fewer)).spec_rank() <= tier_of_score(
            strength_score(more),
        ).spec_rank(),
{
}

/// Length and classes together: no shorter and no class fewer means no
/// lower score and no lower tier.
pub proof fn lemma_score_monotonic(weaker: GeneratorConfig, stronger: GeneratorConfig)
    requires
        weaker.length <= stronger.length,
        weaker.classes_within(stronger),
    ensures
        strength_score(weaker) <= strength_score(stronger),
        tier_of_score(strength_score(weaker)).spec_rank() <= tier_of_score(
            strength_score(stronger),
        ).spec_rank(),
{
}

} // verus!
