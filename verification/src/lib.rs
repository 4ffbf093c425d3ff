//! A generator of pronounceable artificial names.
//!
//! Names are sequences of syllables drawn from a weighted phonotactic model
//! and rendered into one of about twenty writing systems, each with its own
//! context-sensitive spelling rules.

use vstd::prelude::*;

mod rng;
pub mod name;
pub mod render;
pub mod syllable;

pub use name::Name;
pub use syllable::Coda;
pub use syllable::Nucleus;
pub use syllable::Onset;
pub use syllable::Syllable;

use crate::name::name_len;

verus! {

/// The writing system a name is rendered into. A selector with no internal
/// state: pure configuration threaded through rendering calls.
#[derive(Debug, Copy, Clone, PartialEq, Eq, Structural)]
pub enum Script {
    Arabic,
    Ascii,
    Cyrillic,
    Devanagari,
    Greek,
    Gujarati,
    Hangul,
    Kannada,
    Hebrew,
    Latin,
    LatinTitleCase,
    Syllabics,
    Shavian,
    Hiragana,
    Katakana,
    Futhark,
    Gothic,
    Ogham,
    Georgian,
    Orkhon,
}

/// How many syllables a name gets: either a fixed count, or a minimum count
/// plus a Poisson-distributed surplus whose rate is the second field.
#[derive(Debug, Copy, Clone, PartialEq, Eq, Structural)]
pub enum SyllableCountDistribution {
    Fixed(u32),
    Poisson(u32, u32),
}

/// Generates names whose character length lies within the given bounds.
/// Callers are responsible for rejecting a zero minimum length and a maximum
/// length that is zero or below the minimum before construction.
#[derive(Debug)]
pub struct NameGenerator {
    pub min_length: u32,
    pub max_length: Option<u32>,
    pub syllable_count: SyllableCountDistribution,
}

/// The fewest syllables that can be asked to reach the minimum length: every
/// syllable contributes at most three characters.
pub open spec fn min_syllables_spec(min_length: u32) -> int {
    (min_length + 2) / 3
}

/// The ceiling on the syllable count derived from the bounds; without a
/// maximum length, a generous implicit ceiling is used.
pub open spec fn max_syllables_spec(min_length: u32, max_length: Option<u32>) -> int {
    match max_length {
        Some(m) => (m + 1) / 2,
        None => (min_length + 7) / 2,
    }
}

/// The syllable-count distribution the constructor derives from the bounds.
pub open spec fn distribution_spec(min_length: u32, max_length: Option<u32>) -> SyllableCountDistribution {
    let min_s = min_syllables_spec(min_length);
    let max_s = max_syllables_spec(min_length, max_length);
    if min_s == max_s {
        SyllableCountDistribution::Fixed(min_s as u32)
    } else {
        SyllableCountDistribution::Poisson(min_s as u32, (max_s - min_s) as u32)
    }
}

impl NameGenerator {
    /// A Poisson-shaped distribution always carries a positive rate, so the
    /// caller's sampler can be constructed from it.
    pub open spec fn wf(self) -> bool {
        match self.syllable_count {
            SyllableCountDistribution::Fixed(_) => true,
            SyllableCountDistribution::Poisson(_, rate) => 1 <= rate,
        }
    }

    /// The syllable count one attempt builds: the fixed count, or the stored
    /// minimum plus the caller's Poisson-distributed surplus.
    pub open spec fn resolved_count(self, extra: u32) -> int {
        match self.syllable_count {
            SyllableCountDistribution::Fixed(c) => c as int,
            SyllableCountDistribution::Poisson(min_syllables, _) => min_syllables + extra,
        }
    }

    /// Whether a candidate of the given character length is accepted.
    pub open spec fn accepts(self, len: int) -> bool {
        &&& self.min_length <= len
        &&& match self.max_length {
            Some(m) => len <= m,
            None => true,
        }
    }

    /// Derives the syllable-count distribution from the length bounds: the
    /// count is fixed when the derived minimum and maximum agree, else
    /// Poisson-shaped over the surplus with rate equal to their difference.
    pub fn new(min_length: u32, max_length: Option<u32>) -> (g: NameGenerator)
        requires
            1 <= min_length,
            min_length + 7 <= u32::MAX,
            max_length matches Some(m) ==> min_length <= m && m < u32::MAX,
        ensures
            g.min_length == min_length,
            g.max_length == max_length,
            g.syllable_count == distribution_spec(min_length, max_length),
            g.wf(),
    {
        let min_syllables = (min_length + 2) / 3;
        let max_syllables = match max_length {
            Some(m) => (m + 1) / 2,
            None => (min_length + 7) / 2,
        };
        let syllable_count = if min_syllables == max_syllables {
            SyllableCountDistribution::Fixed(min_syllables)
        } else {
            SyllableCountDistribution::Poisson(min_syllables, max_syllables - min_syllables)
        };
        NameGenerator { min_length, max_length, syllable_count }
    }

    /// One round of the rejection loop: builds one candidate name, with its
    /// syllable count resolved from the stored distribution (`extra` is the
    /// Poisson-distributed surplus drawn by the caller, ignored for a fixed
    /// count), and accepts it exactly when its character length fits the
    /// bounds, reporting the rejected candidate's length otherwise.
    pub fn attempt(&self, rng: &mut rand::rngs::SmallRng, extra: u32) -> (r: Result<Name, u64>)
        ensures
            r matches Ok(n) ==> n.wf() && n.syllables@.len() == self.resolved_count(extra)
                && self.accepts(name_len(n.syllables@)),
            r matches Err(len) ==> !self.accepts(len as int),
            r matches Err(len) ==> self.resolved_count(extra) <= len as int <= 4
                * self.resolved_count(extra),
    {
        let count: u64 = match self.syllable_count {
            SyllableCountDistribution::Fixed(c) => c as u64,
            SyllableCountDistribution::Poisson(min_syllables, _) => min_syllables as u64
                + extra as u64,
        };
        let name = Name::random(rng, count);
        let len = name.len();
        proof {
            crate::name::lemma_name_len_bounds(name.syllables@);
        }
        if self.min_length as u64 <= len {
            match self.max_length {
                None => {
                    return Ok(name);
                },
                Some(m) => {
                    if len <= m as u64 {
                        return Ok(name);
                    }
                },
            }
        }
        Err(len)
    }
}

} // verus!
