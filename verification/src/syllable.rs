//! The phoneme model: onsets, nuclei and codas, their intrinsic properties,
//! and the weighted sampling of one syllable.

use vstd::prelude::*;

use crate::rng::draw_weighted_index;
use crate::rng::draw_ratio;

verus! {

/// The consonant (or absence thereof) beginning a syllable.
#[derive(Debug, Copy, Clone, PartialEq, Eq, Structural)]
pub enum Onset {
    Null,
    P,
    T,
    K,
    S,
    M,
    N,
    L,
    J,
    W,
}

/// The vowel forming the core of a syllable.
#[derive(Debug, Copy, Clone, PartialEq, Eq, Structural)]
pub enum Nucleus {
    A,
    E,
    I,
    O,
    U,
}

/// The trailing consonant (or absence thereof) closing a syllable.
#[derive(Debug, Copy, Clone, PartialEq, Eq, Structural)]
pub enum Coda {
    Null,
    N,
}

/// One syllable of a name.
#[derive(Debug, Copy, Clone, PartialEq, Eq, Structural)]
pub struct Syllable {
    pub onset: Onset,
    pub nucleus: Nucleus,
    pub coda: Coda,
}

/// The nucleus exclusion rules: I never follows an onset of T or J, and
/// O and U never follow an onset of W.
pub open spec fn nucleus_allowed(o: Onset, n: Nucleus) -> bool {
    &&& ((o == Onset::T || o == Onset::J) ==> n != Nucleus::I)
    &&& (o == Onset::W ==> (n != Nucleus::O && n != Nucleus::U))
}

impl Onset {
    /// How much of the character-length budget this onset occupies.
    pub open spec fn len_spec(self) -> int {
        match self {
            Onset::Null => 0,
            _ => 1,
        }
    }

    pub fn len(&self) -> (r: usize)
        ensures
            r == self.len_spec(),
    {
        match self {
            Onset::Null => 0,
            _ => 1,
        }
    }

    /// Weighted draw over the nine consonant onsets; Null is never part of
    /// the weighted draw.
    pub(crate) fn random(rng: &mut rand::rngs::SmallRng) -> (o: Onset)
        ensures
            o != Onset::Null,
    {
        let mut weights: Vec<u32> = Vec::new();
        weights.push(61); // P
        weights.push(45); // T
        weights.push(91); // K
        weights.push(64); // S
        weights.push(50); // M
        weights.push(32); // N
        weights.push(83); // L
        weights.push(35); // J
        weights.push(34); // W
        proof {
            assert(weights@ =~= seq![61u32, 45, 91, 64, 50, 32, 83, 35, 34]);
        }
        let i = draw_weighted_index(rng, &weights);
        if i == 0 {
            Onset::P
        } else if i == 1 {
            Onset::T
        } else if i == 2 {
            Onset::K
        } else if i == 3 {
            Onset::S
        } else if i == 4 {
            Onset::M
        } else if i == 5 {
            Onset::N
        } else if i == 6 {
            Onset::L
        } else if i == 7 {
            Onset::J
        } else {
            Onset::W
        }
    }
}

impl Nucleus {
    /// A nucleus always occupies one character of the length budget.
    pub open spec fn len_spec(self) -> int {
        1
    }

    pub fn len(&self) -> (r: usize)
        ensures
            r == self.len_spec(),
    {
        1
    }

    /// Back vowels, for the vowel-harmony rules of the Orkhon script.
    pub open spec fn is_back_spec(self) -> bool {
        self == Nucleus::A || self == Nucleus::O || self == Nucleus::U
    }

    pub fn is_back(&self) -> (r: bool)
        ensures
            r == self.is_back_spec(),
    {
        matches!(self, Nucleus::A | Nucleus::O | Nucleus::U)
    }

    /// Weighted draw over the five nuclei. A nucleus excluded for the given
    /// onset gets weight zero and is therefore never drawn.
    pub(crate) fn random(rng: &mut rand::rngs::SmallRng, onset: Onset) -> (n: Nucleus)
        ensures
            nucleus_allowed(onset, n),
    {
        let exclude_i = onset == Onset::T || onset == Onset::J;
        let exclude_ou = onset == Onset::W;
        let mut weights: Vec<u32> = Vec::new();
        weights.push(146); // A
        weights.push(94); // E
        weights.push(if exclude_i { 0 } else { 140 }); // I
        weights.push(if exclude_ou { 0 } else { 88 }); // O
        weights.push(if exclude_ou { 0 } else { 64 }); // U
        proof {
            assert(weights@.len() == 5);
            assert(weights@[0] == 146);
        }
        let i = draw_weighted_index(rng, &weights);
        if i == 0 {
            Nucleus::A
        } else if i == 1 {
            Nucleus::E
        } else if i == 2 {
            Nucleus::I
        } else if i == 3 {
            Nucleus::O
        } else {
            Nucleus::U
        }
    }
}

impl Coda {
    /// A nasal coda weighs two characters in the length budget, independent
    /// of how many visible characters a given script uses for it.
    pub open spec fn len_spec(self) -> int {
        match self {
            Coda::Null => 0,
            Coda::N => 2,
        }
    }

    pub fn len(&self) -> (r: usize)
        ensures
            r == self.len_spec(),
    {
        match self {
            Coda::Null => 0,
            Coda::N => 2,
        }
    }

    /// The coda is N with probability one in ten, independent of the onset
    /// and nucleus draws.
    pub(crate) fn random(rng: &mut rand::rngs::SmallRng) -> Coda {
        if draw_ratio(rng, 1, 10) {
            Coda::N
        } else {
            Coda::Null
        }
    }
}

impl Syllable {
    /// A syllable is well formed when its nucleus respects the exclusion
    /// rules for its onset.
    pub open spec fn wf(self) -> bool {
        nucleus_allowed(self.onset, self.nucleus)
    }

    /// Total character-length budget of the syllable.
    pub open spec fn len_spec(self) -> int {
        self.onset.len_spec() + self.nucleus.len_spec() + self.coda.len_spec()
    }

    /// Draws one syllable: onset first, then nucleus, then coda. Only the
    /// first syllable of a name may draw the null onset, with probability
    /// one in four; every later syllable draws a weighted consonant onset.
    pub fn new(rng: &mut rand::rngs::SmallRng, first: bool) -> (s: Syllable)
        ensures
            s.wf(),
            !first ==> s.onset != Onset::Null,
    {
        let onset = if first && draw_ratio(rng, 1, 4) {
            Onset::Null
        } else {
            Onset::random(rng)
        };
        let nucleus = Nucleus::random(rng, onset);
        let coda = Coda::random(rng);
        Syllable { onset, nucleus, coda }
    }

    pub fn len(&self) -> (r: usize)
        ensures
            r == self.len_spec(),
    {
        self.onset.len() + self.nucleus.len() + self.coda.len()
    }
}

} // verus!
