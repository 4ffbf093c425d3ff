//! The script renderer: a pure mapping from a syllable and its neighbors to
//! the characters appended in a target writing system, one rule set per
//! script. Each glyph table exists twice, as a specification function and as
//! an executable function proved equal to it.

use vstd::prelude::*;

use crate::syllable::Coda;
use crate::syllable::Nucleus;
use crate::syllable::Onset;
use crate::syllable::Syllable;
use crate::Script;

verus! {

/// Zero or one characters of output.
pub open spec fn opt_seq(o: Option<char>) -> Seq<char> {
    match o {
        Some(c) => seq![c],
        None => Seq::empty(),
    }
}

/// One character followed by an optional second one.
pub open spec fn pair_seq(p: (char, Option<char>)) -> Seq<char> {
    seq![p.0] + opt_seq(p.1)
}

/// Zero, one or two characters of output.
pub open spec fn opt_pair_seq(o: Option<(char, Option<char>)>) -> Seq<char> {
    match o {
        Some(p) => pair_seq(p),
        None => Seq::empty(),
    }
}

/// The value behind an optional borrowed neighbor syllable.
pub open spec fn opt_deref(o: Option<&Syllable>) -> Option<Syllable> {
    match o {
        Some(p) => Some(*p),
        None => None,
    }
}

pub open spec fn latin_onset(o: Onset) -> Option<char> {
    match o {
        Onset::Null => None,
        Onset::P => Some('p'),
        Onset::T => Some('t'),
        Onset::K => Some('k'),
        Onset::S => Some('s'),
        Onset::M => Some('m'),
        Onset::N => Some('n'),
        Onset::L => Some('l'),
        Onset::J => Some('j'),
        Onset::W => Some('w'),
    }
}

pub open spec fn cyrillic_onset(o: Onset) -> Option<char> {
    match o {
        Onset::Null => None,
        Onset::P => Some('п'),
        Onset::T => Some('т'),
        Onset::K => Some('к'),
        Onset::S => Some('с'),
        Onset::M => Some('м'),
        Onset::N => Some('н'),
        Onset::L => Some('л'),
        Onset::J => None,
        Onset::W => Some('в'),
    }
}

pub open spec fn greek_onset(o: Onset) -> Option<char> {
    match o {
        Onset::Null => None,
        Onset::P => Some('π'),
        Onset::T => Some('τ'),
        Onset::K => Some('κ'),
        Onset::S => Some('σ'),
        Onset::M => Some('μ'),
        Onset::N => Some('ν'),
        Onset::L => Some('λ'),
        Onset::J => Some('γ'),
        Onset::W => Some('β'),
    }
}

pub open spec fn devanagari_onset(o: Onset) -> Option<char> {
    match o {
        Onset::Null => None,
        Onset::P => Some('प'),
        Onset::T => Some('त'),
        Onset::K => Some('क'),
        Onset::S => Some('स'),
        Onset::M => Some('म'),
        Onset::N => Some('न'),
        Onset::L => Some('ल'),
        Onset::J => Some('य'),
        Onset::W => Some('व'),
    }
}

pub open spec fn gujarati_onset(o: Onset) -> Option<char> {
    match o {
        Onset::Null => None,
        Onset::P => Some('પ'),
        Onset::T => Some('ત'),
        Onset::K => Some('ક'),
        Onset::S => Some('સ'),
        Onset::M => Some('મ'),
        Onset::N => Some('ન'),
        Onset::L => Some('લ'),
        Onset::J => Some('ય'),
        Onset::W => Some('વ'),
    }
}

pub open spec fn kannada_onset(o: Onset) -> Option<char> {
    match o {
        Onset::Null => None,
        Onset::P => Some('ಪ'),
        Onset::T => Some('ತ'),
        Onset::K => Some('ಕ'),
        Onset::S => Some('ಸ'),
        Onset::M => Some('ಮ'),
        Onset::N => Some('ನ'),
        Onset::L => Some('ಲ'),
        Onset::J => Some('ಯ'),
        Onset::W => Some('ವ'),
    }
}

pub open spec fn shavian_onset(o: Onset) -> Option<char> {
    match o {
        Onset::Null => None,
        Onset::P => Some('𐑐'),
        Onset::T => Some('𐑑'),
        Onset::K => Some('𐑒'),
        Onset::S => Some('𐑕'),
        Onset::M => Some('𐑥'),
        Onset::N => Some('𐑯'),
        Onset::L => Some('𐑤'),
        Onset::J => Some('𐑘'),
        Onset::W => Some('𐑢'),
    }
}

pub open spec fn futhark_onset(o: Onset) -> Option<char> {
    match o {
        Onset::Null => None,
        Onset::P => Some('ᛈ'),
        Onset::T => Some('ᛏ'),
        Onset::K => Some('ᚲ'),
        Onset::S => Some('ᛊ'),
        Onset::M => Some('ᛗ'),
        Onset::N => Some('ᚾ'),
        Onset::L => Some('ᛚ'),
        Onset::J => Some('ᛃ'),
        Onset::W => Some('ᚹ'),
    }
}

pub open spec fn gothic_onset(o: Onset) -> Option<char> {
    match o {
        Onset::Null => None,
        Onset::P => Some('𐍀'),
        Onset::T => Some('𐍄'),
        Onset::K => Some('𐌺'),
        Onset::S => Some('𐍃'),
        Onset::M => Some('𐌼'),
        Onset::N => Some('𐌽'),
        Onset::L => Some('𐌻'),
        Onset::J => Some('𐌾'),
        Onset::W => Some('𐍅'),
    }
}

pub open spec fn ogham_onset(o: Onset) -> Option<char> {
    match o {
        Onset::Null => None,
        Onset::P => Some('ᚁ'),
        Onset::T => Some('ᚈ'),
        Onset::K => Some('ᚉ'),
        Onset::S => Some('ᚄ'),
        Onset::M => Some('ᚋ'),
        Onset::N => Some('ᚅ'),
        Onset::L => Some('ᚂ'),
        Onset::J => Some('ᚆ'),
        Onset::W => Some('ᚃ'),
    }
}

pub open spec fn mkhedruli_onset(o: Onset) -> Option<char> {
    match o {
        Onset::Null => None,
        Onset::P => Some('ფ'),
        Onset::T => Some('თ'),
        Onset::K => Some('ქ'),
        Onset::S => Some('ს'),
        Onset::M => Some('მ'),
        Onset::N => Some('ნ'),
        Onset::L => Some('ლ'),
        Onset::J => Some('ჲ'),
        Onset::W => Some('ჳ'),
    }
}

pub open spec fn hebrew_onset(o: Onset) -> char {
    match o {
        Onset::Null => 'א',
        Onset::P => 'פ',
        Onset::T => 'ט',
        Onset::K => 'ק',
        Onset::S => 'ס',
        Onset::M => 'מ',
        Onset::N => 'נ',
        Onset::L => 'ל',
        Onset::J => 'י',
        Onset::W => 'ו',
    }
}

pub open spec fn arabic_onset(o: Onset) -> char {
    match o {
        Onset::Null => 'ا',
        Onset::P => 'ب',
        Onset::T => 'ت',
        Onset::K => 'ك',
        Onset::S => 'س',
        Onset::M => 'م',
        Onset::N => 'ن',
        Onset::L => 'ل',
        Onset::J => 'ي',
        Onset::W => 'و',
    }
}

pub open spec fn latin_nucleus(n: Nucleus) -> char {
    match n {
        Nucleus::A => 'a',
        Nucleus::E => 'e',
        Nucleus::I => 'i',
        Nucleus::O => 'o',
        Nucleus::U => 'u',
    }
}

pub open spec fn cyrillic_nucleus(n: Nucleus) -> char {
    match n {
        Nucleus::A => 'a',
        Nucleus::E => 'э',
        Nucleus::I => 'и',
        Nucleus::O => 'о',
        Nucleus::U => 'у',
    }
}

pub open spec fn greek_nucleus(n: Nucleus) -> char {
    match n {
        Nucleus::A => 'α',
        Nucleus::E => 'ε',
        Nucleus::I => 'ι',
        Nucleus::O => 'ο',
        Nucleus::U => 'υ',
    }
}

pub open spec fn hebrew_nucleus(n: Nucleus) -> char {
    match n {
        Nucleus::A => 'ָ',
        Nucleus::E => 'ֶ',
        Nucleus::I => 'ִ',
        Nucleus::O => 'ֹ',
        Nucleus::U => 'ֻ',
    }
}

pub open spec fn shavian_nucleus(n: Nucleus) -> char {
    match n {
        Nucleus::A => '𐑨',
        Nucleus::E => '𐑧',
        Nucleus::I => '𐑦',
        Nucleus::O => '𐑪',
        Nucleus::U => '𐑩',
    }
}

pub open spec fn futhark_nucleus(n: Nucleus) -> char {
    match n {
        Nucleus::A => 'ᚨ',
        Nucleus::E => 'ᛖ',
        Nucleus::I => 'ᛁ',
        Nucleus::O => 'ᛟ',
        Nucleus::U => 'ᚢ',
    }
}

pub open spec fn gothic_nucleus(n: Nucleus) -> char {
    match n {
        Nucleus::A => '𐌰',
        Nucleus::E => '𐌴',
        Nucleus::I => '𐌹',
        Nucleus::O => '𐍉',
        Nucleus::U => '𐌿',
    }
}

pub open spec fn ogham_nucleus(n: Nucleus) -> char {
    match n {
        Nucleus::A => 'ᚐ',
        Nucleus::E => 'ᚓ',
        Nucleus::I => 'ᚔ',
        Nucleus::O => 'ᚑ',
        Nucleus::U => 'ᚒ',
    }
}

pub open spec fn mkhedruli_nucleus(n: Nucleus) -> char {
    match n {
        Nucleus::A => 'ა',
        Nucleus::E => 'ე',
        Nucleus::I => 'ი',
        Nucleus::O => 'ო',
        Nucleus::U => 'უ',
    }
}

pub open spec fn cyrillic_iotated(n: Nucleus) -> Option<char> {
    match n {
        Nucleus::A => Some('я'),
        Nucleus::E => Some('е'),
        Nucleus::I => None,
        Nucleus::O => Some('ё'),
        Nucleus::U => Some('ю'),
    }
}

pub open spec fn devanagari_vowel(n: Nucleus) -> char {
    match n {
        Nucleus::A => 'अ',
        Nucleus::E => 'ए',
        Nucleus::I => 'इ',
        Nucleus::O => 'ओ',
        Nucleus::U => 'उ',
    }
}

pub open spec fn devanagari_modifier(n: Nucleus) -> Option<char> {
    match n {
        Nucleus::A => None,
        Nucleus::E => Some('े'),
        Nucleus::I => Some('ि'),
        Nucleus::O => Some('ो'),
        Nucleus::U => Some('ु'),
    }
}

pub open spec fn gujarati_vowel(n: Nucleus) -> char {
    match n {
        Nucleus::A => 'આ',
        Nucleus::E => 'એ',
        Nucleus::I => 'ઈ',
        Nucleus::O => 'ઓ',
        Nucleus::U => 'ઊ',
    }
}

pub open spec fn gujarati_modifier(n: Nucleus) -> char {
    match n {
        Nucleus::A => 'ા',
        Nucleus::E => 'ે',
        Nucleus::I => 'ી',
        Nucleus::O => 'ો',
        Nucleus::U => 'ૂ',
    }
}

pub open spec fn kannada_vowel(n: Nucleus) -> char {
    match n {
        Nucleus::A => 'ಅ',
        Nucleus::E => 'ಎ',
        Nucleus::I => 'ಇ',
        Nucleus::O => 'ಒ',
        Nucleus::U => 'ಉ',
    }
}

pub open spec fn kannada_modifier(n: Nucleus) -> Option<char> {
    match n {
        Nucleus::A => None,
        Nucleus::E => Some('ೆ'),
        Nucleus::I => Some('ಿ'),
        Nucleus::O => Some('ೊ'),
        Nucleus::U => Some('ು'),
    }
}

pub open spec fn arabic_nucleus(n: Nucleus, c: Coda) -> (char, Option<char>) {
    match (n, c) {
        (Nucleus::A, Coda::Null) => ('\u{064e}', None),
        (Nucleus::A, Coda::N) => ('\u{064b}', None),
        (Nucleus::E, Coda::Null) => ('\u{0650}', None),
        (Nucleus::E, Coda::N) => ('\u{064d}', None),
        (Nucleus::I, Coda::Null) => ('\u{0650}', Some('ي')),
        (Nucleus::I, Coda::N) => ('\u{064d}', Some('ي')),
        (Nucleus::O, Coda::Null) => ('\u{064f}', None),
        (Nucleus::O, Coda::N) => ('\u{064c}', None),
        (Nucleus::U, Coda::Null) => ('\u{0650}', Some('و')),
        (Nucleus::U, Coda::N) => ('\u{064c}', Some('و')),
    }
}

pub open spec fn orkhon_nucleus(n: Nucleus, has_backness: bool) -> Option<char> {
    match n {
        Nucleus::A => if has_backness { None } else { Some('𐰀') },
        Nucleus::E => Some('𐰅'),
        Nucleus::I => if has_backness { None } else { Some('𐰃') },
        Nucleus::O | Nucleus::U => Some('𐰆'),
    }
}

pub open spec fn latin_coda(c: Coda) -> Option<char> {
    match c {
        Coda::Null => None,
        Coda::N => Some('n'),
    }
}

pub open spec fn cyrillic_coda(c: Coda) -> Option<char> {
    match c {
        Coda::Null => None,
        Coda::N => Some('н'),
    }
}

pub open spec fn greek_coda(c: Coda) -> Option<char> {
    match c {
        Coda::Null => None,
        Coda::N => Some('ν'),
    }
}

pub open spec fn devanagari_coda(c: Coda) -> Option<char> {
    match c {
        Coda::Null => None,
        Coda::N => Some('ं'),
    }
}

pub open spec fn syllabics_coda(c: Coda) -> Option<char> {
    match c {
        Coda::Null => None,
        Coda::N => Some('ᓐ'),
    }
}

pub open spec fn shavian_coda(c: Coda) -> Option<char> {
    match c {
        Coda::Null => None,
        Coda::N => Some('𐑯'),
    }
}

pub open spec fn hiragana_coda(c: Coda) -> Option<char> {
    match c {
        Coda::Null => None,
        Coda::N => Some('ん'),
    }
}

pub open spec fn katakana_coda(c: Coda) -> Option<char> {
    match c {
        Coda::Null => None,
        Coda::N => Some('ン'),
    }
}

pub open spec fn futhark_coda(c: Coda) -> Option<char> {
    match c {
        Coda::Null => None,
        Coda::N => Some('ᚾ'),
    }
}

pub open spec fn gothic_coda(c: Coda) -> Option<char> {
    match c {
        Coda::Null => None,
        Coda::N => Some('𐌽'),
    }
}

pub open spec fn ogham_coda(c: Coda) -> Option<char> {
    match c {
        Coda::Null => None,
        Coda::N => Some('ᚅ'),
    }
}

pub open spec fn mkhedruli_coda(c: Coda) -> Option<char> {
    match c {
        Coda::Null => None,
        Coda::N => Some('ნ'),
    }
}

pub open spec fn hebrew_coda(c: Coda, last: bool) -> Option<char> {
    match c {
        Coda::Null => None,
        Coda::N => if last { Some('ן') } else { Some('נ') },
    }
}

pub open spec fn gujarati_coda(c: Coda, last: bool) -> Option<(char, Option<char>)> {
    match c {
        Coda::Null => None,
        Coda::N => if last { Some(('ન', None)) } else { Some(('ન', Some('્'))) },
    }
}

pub open spec fn kannada_coda(c: Coda, last: bool) -> Option<(char, Option<char>)> {
    match c {
        Coda::Null => None,
        Coda::N => if last { Some(('ನ', Some('್'))) } else { Some(('ಂ', None)) },
    }
}

/// True when the neighbor exists and its coda is the nasal N.
pub open spec fn neighbor_nasal(o: Option<Syllable>) -> bool {
    match o {
        Some(p) => p.coda == Coda::N,
        None => false,
    }
}

/// True when the neighbor exists and ends in an open back rounded vowel.
pub open spec fn neighbor_back_round_open(o: Option<Syllable>) -> bool {
    match o {
        Some(p) => (p.nucleus == Nucleus::O || p.nucleus == Nucleus::U) && p.coda == Coda::Null,
        None => false,
    }
}

/// The Orkhon onset glyph, paired with a flag telling whether vowel backness
/// is already encoded in the onset glyph; when it is, the separate glyph for
/// a nucleus of A or I is suppressed.
pub open spec fn orkhon_onset(o: Onset, prev: Option<Syllable>, is_back: bool) -> (Option<char>, bool) {
    match o {
        Onset::Null => (None, false),
        Onset::P => if is_back { (Some('𐰉'), true) } else { (Some('𐰋'), true) },
        Onset::T => if neighbor_nasal(prev) {
            (Some('𐰦'), false)
        } else if is_back {
            (Some('𐱃'), true)
        } else {
            (Some('𐱅'), true)
        },
        Onset::K => if is_back { (Some('𐰴'), true) } else { (Some('𐰚'), true) },
        Onset::S => if is_back { (Some('𐰽'), true) } else { (Some('𐰾'), true) },
        Onset::M => (Some('𐰢'), false),
        Onset::N => if is_back { (Some('𐰣'), true) } else { (Some('𐰤'), true) },
        Onset::L => if is_back { (Some('𐰞'), true) } else { (Some('𐰠'), true) },
        Onset::J => if neighbor_nasal(prev) {
            (Some('𐰪'), false)
        } else if is_back {
            (Some('𐰖'), true)
        } else {
            (Some('𐰘'), true)
        },
        Onset::W => if neighbor_back_round_open(prev) { (None, false) } else { (Some('𐰆'), false) },
    }
}

/// The Orkhon coda glyph: suppressed before an onset of J or T, which encode
/// the nasal in their allomorphic onset form, else chosen by the backness of
/// the next syllable's vowel.
pub open spec fn orkhon_coda(c: Coda, next: Option<Syllable>) -> Option<char> {
    match c {
        Coda::Null => None,
        Coda::N => match next {
            Some(nx) => if nx.onset == Onset::J || nx.onset == Onset::T {
                None
            } else if nx.nucleus.is_back_spec() {
                Some('𐰣')
            } else {
                Some('𐰤')
            },
            None => Some('𐰤'),
        },
    }
}

pub open spec fn latin_onset_upper(o: Onset) -> Option<char> {
    match o {
        Onset::Null => None,
        Onset::P => Some('P'),
        Onset::T => Some('T'),
        Onset::K => Some('K'),
        Onset::S => Some('S'),
        Onset::M => Some('M'),
        Onset::N => Some('N'),
        Onset::L => Some('L'),
        Onset::J => Some('J'),
        Onset::W => Some('W'),
    }
}

pub open spec fn latin_nucleus_upper(n: Nucleus) -> char {
    match n {
        Nucleus::A => 'A',
        Nucleus::E => 'E',
        Nucleus::I => 'I',
        Nucleus::O => 'O',
        Nucleus::U => 'U',
    }
}

pub open spec fn syllabics_onset(o: Onset, n: Nucleus) -> Option<char> {
    match (o, n) {
        (Onset::Null, Nucleus::A) => Some('ᐊ'),
        (Onset::Null, Nucleus::E) => Some('ᐁ'),
        (Onset::Null, Nucleus::I) => Some('ᐃ'),
        (Onset::Null, Nucleus::O) => Some('ᐅ'),
        (Onset::Null, Nucleus::U) => Some('ᐆ'),
        (Onset::P, Nucleus::A) => Some('ᐸ'),
        (Onset::P, Nucleus::E) => Some('ᐯ'),
        (Onset::P, Nucleus::I) => Some('ᐱ'),
        (Onset::P, Nucleus::O) => Some('ᐳ'),
        (Onset::P, Nucleus::U) => Some('ᐴ'),
        (Onset::T, Nucleus::A) => Some('ᑕ'),
        (Onset::T, Nucleus::E) => Some('ᑌ'),
        (Onset::T, Nucleus::I) => None,
        (Onset::T, Nucleus::O) => Some('ᑐ'),
        (Onset::T, Nucleus::U) => Some('ᑑ'),
        (Onset::K, Nucleus::A) => Some('ᑲ'),
        (Onset::K, Nucleus::E) => Some('ᑫ'),
        (Onset::K, Nucleus::I) => Some('ᑭ'),
        (Onset::K, Nucleus::O) => Some('ᑯ'),
        (Onset::K, Nucleus::U) => Some('ᑰ'),
        (Onset::S, Nucleus::A) => Some('ᓴ'),
        (Onset::S, Nucleus::E) => Some('ᓭ'),
        (Onset::S, Nucleus::I) => Some('ᓯ'),
        (Onset::S, Nucleus::O) => Some('ᓱ'),
        (Onset::S, Nucleus::U) => Some('ᓲ'),
        (Onset::M, Nucleus::A) => Some('ᒪ'),
        (Onset::M, Nucleus::E) => Some('ᒣ'),
        (Onset::M, Nucleus::I) => Some('ᒥ'),
        (Onset::M, Nucleus::O) => Some('ᒧ'),
        (Onset::M, Nucleus::U) => Some('ᒨ'),
        (Onset::N, Nucleus::A) => Some('ᓇ'),
        (Onset::N, Nucleus::E) => Some('ᓀ'),
        (Onset::N, Nucleus::I) => Some('ᓂ'),
        (Onset::N, Nucleus::O) => Some('ᓄ'),
        (Onset::N, Nucleus::U) => Some('ᓅ'),
        (Onset::L, Nucleus::A) => Some('ᓚ'),
        (Onset::L, Nucleus::E) => Some('ᓓ'),
        (Onset::L, Nucleus::I) => Some('ᓕ'),
        (Onset::L, Nucleus::O) => Some('ᓗ'),
        (Onset::L, Nucleus::U) => Some('ᓘ'),
        (Onset::J, Nucleus::A) => Some('ᔭ'),
        (Onset::J, Nucleus::E) => Some('ᔦ'),
        (Onset::J, Nucleus::I) => None,
        (Onset::J, Nucleus::O) => Some('ᔪ'),
        (Onset::J, Nucleus::U) => Some('ᔫ'),
        (Onset::W, Nucleus::A) => Some('ᕙ'),
        (Onset::W, Nucleus::E) => Some('ᕓ'),
        (Onset::W, Nucleus::I) => Some('ᕕ'),
        (Onset::W, Nucleus::O) => None,
        (Onset::W, Nucleus::U) => None,
    }
}

pub open spec fn hiragana_glyph(o: Onset, n: Nucleus) -> Option<char> {
    match (o, n) {
        (Onset::Null, Nucleus::A) => Some('あ'),
        (Onset::Null, Nucleus::I) => Some('い'),
        (Onset::Null, Nucleus::U) => Some('う'),
        (Onset::Null, Nucleus::E) => Some('え'),
        (Onset::Null, Nucleus::O) => Some('お'),
        (Onset::K, Nucleus::A) => Some('か'),
        (Onset::K, Nucleus::I) => Some('き'),
        (Onset::K, Nucleus::U) => Some('く'),
        (Onset::K, Nucleus::E) => Some('け'),
        (Onset::K, Nucleus::O) => Some('こ'),
        (Onset::S, Nucleus::A) => Some('さ'),
        (Onset::S, Nucleus::I) => Some('し'),
        (Onset::S, Nucleus::U) => Some('す'),
        (Onset::S, Nucleus::E) => Some('せ'),
        (Onset::S, Nucleus::O) => Some('そ'),
        (Onset::T, Nucleus::A) => Some('た'),
        (Onset::T, Nucleus::I) => None,
        (Onset::T, Nucleus::U) => Some('つ'),
        (Onset::T, Nucleus::E) => Some('て'),
        (Onset::T, Nucleus::O) => Some('と'),
        (Onset::N, Nucleus::A) => Some('な'),
        (Onset::N, Nucleus::I) => Some('に'),
        (Onset::N, Nucleus::U) => Some('ぬ'),
        (Onset::N, Nucleus::E) => Some('ね'),
        (Onset::N, Nucleus::O) => Some('の'),
        (Onset::P, Nucleus::A) => Some('は'),
        (Onset::P, Nucleus::I) => Some('ひ'),
        (Onset::P, Nucleus::U) => Some('ふ'),
        (Onset::P, Nucleus::E) => Some('へ'),
        (Onset::P, Nucleus::O) => Some('ほ'),
        (Onset::M, Nucleus::A) => Some('ま'),
        (Onset::M, Nucleus::I) => Some('み'),
        (Onset::M, Nucleus::U) => Some('む'),
        (Onset::M, Nucleus::E) => Some('め'),
        (Onset::M, Nucleus::O) => Some('も'),
        (Onset::J, Nucleus::A) => Some('や'),
        (Onset::J, Nucleus::I) => None,
        (Onset::J, Nucleus::U) => Some('ゆ'),
        (Onset::J, Nucleus::E) => Some('江'),
        (Onset::J, Nucleus::O) => Some('よ'),
        (Onset::L, Nucleus::A) => Some('ら'),
        (Onset::L, Nucleus::I) => Some('り'),
        (Onset::L, Nucleus::U) => Some('る'),
        (Onset::L, Nucleus::E) => Some('れ'),
        (Onset::L, Nucleus::O) => Some('ろ'),
        (Onset::W, Nucleus::A) => Some('わ'),
        (Onset::W, Nucleus::I) => Some('ゐ'),
        (Onset::W, Nucleus::U) => None,
        (Onset::W, Nucleus::E) => Some('ゑ'),
        (Onset::W, Nucleus::O) => None,
    }
}

pub open spec fn katakana_glyph(o: Onset, n: Nucleus) -> Option<char> {
    match (o, n) {
        (Onset::Null, Nucleus::A) => Some('ア'),
        (Onset::Null, Nucleus::I) => Some('イ'),
        (Onset::Null, Nucleus::U) => Some('ウ'),
        (Onset::Null, Nucleus::E) => Some('エ'),
        (Onset::Null, Nucleus::O) => Some('オ'),
        (Onset::K, Nucleus::A) => Some('カ'),
        (Onset::K, Nucleus::I) => Some('キ'),
        (Onset::K, Nucleus::U) => Some('ク'),
        (Onset::K, Nucleus::E) => Some('ケ'),
        (Onset::K, Nucleus::O) => Some('コ'),
        (Onset::S, Nucleus::A) => Some('サ'),
        (Onset::S, Nucleus::I) => Some('シ'),
        (Onset::S, Nucleus::U) => Some('ス'),
        (Onset::S, Nucleus::E) => Some('セ'),
        (Onset::S, Nucleus::O) => Some('ソ'),
        (Onset::T, Nucleus::A) => Some('タ'),
        (Onset::T, Nucleus::I) => None,
        (Onset::T, Nucleus::U) => Some('ツ'),
        (Onset::T, Nucleus::E) => Some('テ'),
        (Onset::T, Nucleus::O) => Some('ト'),
        (Onset::N, Nucleus::A) => Some('ナ'),
        (Onset::N, Nucleus::I) => Some('ニ'),
        (Onset::N, Nucleus::U) => Some('ヌ'),
        (Onset::N, Nucleus::E) => Some('ネ'),
        (Onset::N, Nucleus::O) => Some('ノ'),
        (Onset::P, Nucleus::A) => Some('ハ'),
        (Onset::P, Nucleus::I) => Some('ヒ'),
        (Onset::P, Nucleus::U) => Some('フ'),
        (Onset::P, Nucleus::E) => Some('ヘ'),
        (Onset::P, Nucleus::O) => Some('ホ'),
        (Onset::M, Nucleus::A) => Some('マ'),
        (Onset::M, Nucleus::I) => Some('ミ'),
        (Onset::M, Nucleus::U) => Some('ム'),
        (Onset::M, Nucleus::E) => Some('メ'),
        (Onset::M, Nucleus::O) => Some('モ'),
        (Onset::J, Nucleus::A) => Some('ヤ'),
        (Onset::J, Nucleus::I) => None,
        (Onset::J, Nucleus::U) => Some('ユ'),
        (Onset::J, Nucleus::E) => Some('エ'),
        (Onset::J, Nucleus::O) => Some('ヨ'),
        (Onset::L, Nucleus::A) => Some('ラ'),
        (Onset::L, Nucleus::I) => Some('リ'),
        (Onset::L, Nucleus::U) => Some('ル'),
        (Onset::L, Nucleus::E) => Some('レ'),
        (Onset::L, Nucleus::O) => Some('ロ'),
        (Onset::W, Nucleus::A) => Some('ワ'),
        (Onset::W, Nucleus::I) => Some('ヰ'),
        (Onset::W, Nucleus::U) => None,
        (Onset::W, Nucleus::E) => Some('ヱ'),
        (Onset::W, Nucleus::O) => None,
    }
}

pub open spec fn hangul_glyph(s: Syllable) -> Option<char> {
    match (s.onset, s.nucleus, s.coda) {
        (Onset::Null, Nucleus::A, Coda::Null) => Some('아'),
        (Onset::Null, Nucleus::E, Coda::Null) => Some('어'),
        (Onset::Null, Nucleus::O, Coda::Null) => Some('오'),
        (Onset::Null, Nucleus::U, Coda::Null) => Some('우'),
        (Onset::Null, Nucleus::I, Coda::Null) => Some('이'),
        (Onset::Null, Nucleus::A, Coda::N) => Some('안'),
        (Onset::Null, Nucleus::E, Coda::N) => Some('언'),
        (Onset::Null, Nucleus::O, Coda::N) => Some('온'),
        (Onset::Null, Nucleus::U, Coda::N) => Some('운'),
        (Onset::Null, Nucleus::I, Coda::N) => Some('인'),
        (Onset::J, Nucleus::A, Coda::Null) => Some('야'),
        (Onset::J, Nucleus::E, Coda::Null) => Some('여'),
        (Onset::J, Nucleus::O, Coda::Null) => Some('요'),
        (Onset::J, Nucleus::U, Coda::Null) => Some('유'),
        (Onset::J, Nucleus::I, Coda::Null) => None,
        (Onset::J, Nucleus::A, Coda::N) => Some('얀'),
        (Onset::J, Nucleus::E, Coda::N) => Some('연'),
        (Onset::J, Nucleus::O, Coda::N) => Some('욘'),
        (Onset::J, Nucleus::U, Coda::N) => Some('윤'),
        (Onset::J, Nucleus::I, Coda::N) => None,
        (Onset::W, Nucleus::A, Coda::Null) => Some('와'),
        (Onset::W, Nucleus::E, Coda::Null) => Some('워'),
        (Onset::W, Nucleus::O, Coda::Null) => None,
        (Onset::W, Nucleus::U, Coda::Null) => None,
        (Onset::W, Nucleus::I, Coda::Null) => Some('위'),
        (Onset::W, Nucleus::A, Coda::N) => Some('완'),
        (Onset::W, Nucleus::E, Coda::N) => Some('원'),
        (Onset::W, Nucleus::O, Coda::N) => None,
        (Onset::W, Nucleus::U, Coda::N) => None,
        (Onset::W, Nucleus::I, Coda::N) => Some('윈'),
        (Onset::K, Nucleus::A, Coda::Null) => Some('가'),
        (Onset::K, Nucleus::E, Coda::Null) => Some('거'),
        (Onset::K, Nucleus::O, Coda::Null) => Some('고'),
        (Onset::K, Nucleus::U, Coda::Null) => Some('구'),
        (Onset::K, Nucleus::I, Coda::Null) => Some('기'),
        (Onset::K, Nucleus::A, Coda::N) => Some('간'),
        (Onset::K, Nucleus::E, Coda::N) => Some('건'),
        (Onset::K, Nucleus::O, Coda::N) => Some('곤'),
        (Onset::K, Nucleus::U, Coda::N) => Some('군'),
        (Onset::K, Nucleus::I, Coda::N) => Some('긴'),
        (Onset::N, Nucleus::A, Coda::Null) => Some('나'),
        (Onset::N, Nucleus::E, Coda::Null) => Some('너'),
        (Onset::N, Nucleus::O, Coda::Null) => Some('노'),
        (Onset::N, Nucleus::U, Coda::Null) => Some('누'),
        (Onset::N, Nucleus::I, Coda::Null) => Some('니'),
        (Onset::N, Nucleus::A, Coda::N) => Some('난'),
        (Onset::N, Nucleus::E, Coda::N) => Some('넌'),
        (Onset::N, Nucleus::O, Coda::N) => Some('논'),
        (Onset::N, Nucleus::U, Coda::N) => Some('눈'),
        (Onset::N, Nucleus::I, Coda::N) => Some('닌'),
        (Onset::T, Nucleus::A, Coda::Null) => Some('다'),
        (Onset::T, Nucleus::E, Coda::Null) => Some('더'),
        (Onset::T, Nucleus::O, Coda::Null) => Some('도'),
        (Onset::T, Nucleus::U, Coda::Null) => Some('두'),
        (Onset::T, Nucleus::I, Coda::Null) => None,
        (Onset::T, Nucleus::A, Coda::N) => Some('단'),
        (Onset::T, Nucleus::E, Coda::N) => Some('던'),
        (Onset::T, Nucleus::O, Coda::N) => Some('돈'),
        (Onset::T, Nucleus::U, Coda::N) => Some('둔'),
        (Onset::T, Nucleus::I, Coda::N) => None,
        (Onset::L, Nucleus::A, Coda::Null) => Some('라'),
        (Onset::L, Nucleus::E, Coda::Null) => Some('러'),
        (Onset::L, Nucleus::O, Coda::Null) => Some('로'),
        (Onset::L, Nucleus::U, Coda::Null) => Some('루'),
        (Onset::L, Nucleus::I, Coda::Null) => Some('리'),
        (Onset::L, Nucleus::A, Coda::N) => Some('란'),
        (Onset::L, Nucleus::E, Coda::N) => Some('런'),
        (Onset::L, Nucleus::O, Coda::N) => Some('론'),
        (Onset::L, Nucleus::U, Coda::N) => Some('룬'),
        (Onset::L, Nucleus::I, Coda::N) => Some('린'),
        (Onset::M, Nucleus::A, Coda::Null) => Some('마'),
        (Onset::M, Nucleus::E, Coda::Null) => Some('머'),
        (Onset::M, Nucleus::O, Coda::Null) => Some('모'),
        (Onset::M, Nucleus::U, Coda::Null) => Some('무'),
        (Onset::M, Nucleus::I, Coda::Null) => Some('미'),
        (Onset::M, Nucleus::A, Coda::N) => Some('만'),
        (Onset::M, Nucleus::E, Coda::N) => Some('먼'),
        (Onset::M, Nucleus::O, Coda::N) => Some('몬'),
        (Onset::M, Nucleus::U, Coda::N) => Some('문'),
        (Onset::M, Nucleus::I, Coda::N) => Some('민'),
        (Onset::P, Nucleus::A, Coda::Null) => Some('바'),
        (Onset::P, Nucleus::E, Coda::Null) => Some('버'),
        (Onset::P, Nucleus::O, Coda::Null) => Some('보'),
        (Onset::P, Nucleus::U, Coda::Null) => Some('부'),
        (Onset::P, Nucleus::I, Coda::Null) => Some('비'),
        (Onset::P, Nucleus::A, Coda::N) => Some('반'),
        (Onset::P, Nucleus::E, Coda::N) => Some('번'),
        (Onset::P, Nucleus::O, Coda::N) => Some('본'),
        (Onset::P, Nucleus::U, Coda::N) => Some('분'),
        (Onset::P, Nucleus::I, Coda::N) => Some('빈'),
        (Onset::S, Nucleus::A, Coda::Null) => Some('사'),
        (Onset::S, Nucleus::E, Coda::Null) => Some('서'),
        (Onset::S, Nucleus::O, Coda::Null) => Some('소'),
        (Onset::S, Nucleus::U, Coda::Null) => Some('수'),
        (Onset::S, Nucleus::I, Coda::Null) => Some('시'),
        (Onset::S, Nucleus::A, Coda::N) => Some('산'),
        (Onset::S, Nucleus::E, Coda::N) => Some('선'),
        (Onset::S, Nucleus::O, Coda::N) => Some('손'),
        (Onset::S, Nucleus::U, Coda::N) => Some('순'),
        (Onset::S, Nucleus::I, Coda::N) => Some('신'),
    }
}

pub open spec fn ascii_glyph(s: Syllable) -> Option<char> {
    match (s.onset, s.nucleus, s.coda) {
        (Onset::Null, Nucleus::A, Coda::Null) => Some('a'),
        (Onset::Null, Nucleus::E, Coda::Null) => Some('e'),
        (Onset::Null, Nucleus::O, Coda::Null) => Some('o'),
        (Onset::Null, Nucleus::U, Coda::Null) => Some('0'),
        (Onset::Null, Nucleus::I, Coda::Null) => Some('i'),
        (Onset::Null, Nucleus::A, Coda::N) => Some('A'),
        (Onset::Null, Nucleus::E, Coda::N) => Some('&'),
        (Onset::Null, Nucleus::O, Coda::N) => Some('7'),
        (Onset::Null, Nucleus::U, Coda::N) => Some('U'),
        (Onset::Null, Nucleus::I, Coda::N) => Some('!'),
        (Onset::J, Nucleus::A, Coda::Null) => Some('Y'),
        (Onset::J, Nucleus::E, Coda::Null) => Some('y'),
        (Onset::J, Nucleus::O, Coda::Null) => Some('J'),
        (Onset::J, Nucleus::U, Coda::Null) => Some(','),
        (Onset::J, Nucleus::I, Coda::Null) => None,
        (Onset::J, Nucleus::A, Coda::N) => Some('j'),
        (Onset::J, Nucleus::E, Coda::N) => Some('"'),
        (Onset::J, Nucleus::O, Coda::N) => Some('>'),
        (Onset::J, Nucleus::U, Coda::N) => Some('<'),
        (Onset::J, Nucleus::I, Coda::N) => None,
        (Onset::W, Nucleus::A, Coda::Null) => Some('w'),
        (Onset::W, Nucleus::E, Coda::Null) => Some('V'),
        (Onset::W, Nucleus::O, Coda::Null) => None,
        (Onset::W, Nucleus::U, Coda::Null) => None,
        (Onset::W, Nucleus::I, Coda::Null) => Some('W'),
        (Onset::W, Nucleus::A, Coda::N) => Some('1'),
        (Onset::W, Nucleus::E, Coda::N) => Some('v'),
        (Onset::W, Nucleus::O, Coda::N) => None,
        (Onset::W, Nucleus::U, Coda::N) => None,
        (Onset::W, Nucleus::I, Coda::N) => Some('|'),
        (Onset::K, Nucleus::A, Coda::Null) => Some('K'),
        (Onset::K, Nucleus::E, Coda::Null) => Some('G'),
        (Onset::K, Nucleus::O, Coda::Null) => Some('H'),
        (Onset::K, Nucleus::U, Coda::Null) => Some('q'),
        (Onset::K, Nucleus::I, Coda::Null) => Some('k'),
        (Onset::K, Nucleus::A, Coda::N) => Some('}'),
        (Onset::K, Nucleus::E, Coda::N) => Some('g'),
        (Onset::K, Nucleus::O, Coda::N) => Some('h'),
        (Onset::K, Nucleus::U, Coda::N) => Some('{'),
        (Onset::K, Nucleus::I, Coda::N) => Some('Q'),
        (Onset::N, Nucleus::A, Coda::Null) => Some('n'),
        (Onset::N, Nucleus::E, Coda::Null) => Some('^'),
        (Onset::N, Nucleus::O, Coda::Null) => Some('*'),
        (Onset::N, Nucleus::U, Coda::Null) => Some('/'),
        (Onset::N, Nucleus::I, Coda::Null) => Some('N'),
        (Onset::N, Nucleus::A, Coda::N) => Some('#'),
        (Onset::N, Nucleus::E, Coda::N) => Some('-'),
        (Onset::N, Nucleus::O, Coda::N) => Some('_'),
        (Onset::N, Nucleus::U, Coda::N) => Some(')'),
        (Onset::N, Nucleus::I, Coda::N) => Some('('),
        (Onset::T, Nucleus::A, Coda::Null) => Some('T'),
        (Onset::T, Nucleus::E, Coda::Null) => Some('E'),
        (Onset::T, Nucleus::O, Coda::Null) => Some('t'),
        (Onset::T, Nucleus::U, Coda::Null) => Some('2'),
        (Onset::T, Nucleus::I, Coda::Null) => None,
        (Onset::T, Nucleus::A, Coda::N) => Some('X'),
        (Onset::T, Nucleus::E, Coda::N) => Some('x'),
        (Onset::T, Nucleus::O, Coda::N) => Some('D'),
        (Onset::T, Nucleus::U, Coda::N) => Some('d'),
        (Onset::T, Nucleus::I, Coda::N) => None,
        (Onset::L, Nucleus::A, Coda::Null) => Some('L'),
        (Onset::L, Nucleus::E, Coda::Null) => Some('r'),
        (Onset::L, Nucleus::O, Coda::Null) => Some('~'),
        (Onset::L, Nucleus::U, Coda::Null) => Some('5'),
        (Onset::L, Nucleus::I, Coda::Null) => Some('l'),
        (Onset::L, Nucleus::A, Coda::N) => Some('\''),
        (Onset::L, Nucleus::E, Coda::N) => Some('$'),
        (Onset::L, Nucleus::O, Coda::N) => Some('R'),
        (Onset::L, Nucleus::U, Coda::N) => Some(';'),
        (Onset::L, Nucleus::I, Coda::N) => Some('I'),
        (Onset::M, Nucleus::A, Coda::Null) => Some('M'),
        (Onset::M, Nucleus::E, Coda::Null) => Some('?'),
        (Onset::M, Nucleus::O, Coda::Null) => Some('O'),
        (Onset::M, Nucleus::U, Coda::Null) => Some('u'),
        (Onset::M, Nucleus::I, Coda::Null) => Some('m'),
        (Onset::M, Nucleus::A, Coda::N) => Some('`'),
        (Onset::M, Nucleus::E, Coda::N) => Some('9'),
        (Onset::M, Nucleus::O, Coda::N) => Some('@'),
        (Onset::M, Nucleus::U, Coda::N) => Some('3'),
        (Onset::M, Nucleus::I, Coda::N) => Some('8'),
        (Onset::P, Nucleus::A, Coda::Null) => Some('b'),
        (Onset::P, Nucleus::E, Coda::Null) => Some('B'),
        (Onset::P, Nucleus::O, Coda::Null) => Some('p'),
        (Onset::P, Nucleus::U, Coda::Null) => Some('f'),
        (Onset::P, Nucleus::I, Coda::Null) => Some('P'),
        (Onset::P, Nucleus::A, Coda::N) => Some('6'),
        (Onset::P, Nucleus::E, Coda::N) => Some('F'),
        (Onset::P, Nucleus::O, Coda::N) => Some('='),
        (Onset::P, Nucleus::U, Coda::N) => Some('+'),
        (Onset::P, Nucleus::I, Coda::N) => Some('%'),
        (Onset::S, Nucleus::A, Coda::Null) => Some('c'),
        (Onset::S, Nucleus::E, Coda::Null) => Some('Z'),
        (Onset::S, Nucleus::O, Coda::Null) => Some('S'),
        (Onset::S, Nucleus::U, Coda::Null) => Some('z'),
        (Onset::S, Nucleus::I, Coda::Null) => Some('s'),
        (Onset::S, Nucleus::A, Coda::N) => Some(']'),
        (Onset::S, Nucleus::E, Coda::N) => Some('['),
        (Onset::S, Nucleus::O, Coda::N) => Some('\\'),
        (Onset::S, Nucleus::U, Coda::N) => Some('4'),
        (Onset::S, Nucleus::I, Coda::N) => Some('C'),
    }
}

impl Onset {
    pub fn latin_char(&self) -> (r: Option<char>)
        ensures
            r == latin_onset(*self),
    {
        match *self {
            Onset::Null => None,
            Onset::P => Some('p'),
            Onset::T => Some('t'),
            Onset::K => Some('k'),
            Onset::S => Some('s'),
            Onset::M => Some('m'),
            Onset::N => Some('n'),
            Onset::L => Some('l'),
            Onset::J => Some('j'),
            Onset::W => Some('w'),
        }
    }

    pub fn cyrillic_char(&self) -> (r: Option<char>)
        ensures
            r == cyrillic_onset(*self),
    {
        match *self {
            Onset::Null => None,
            Onset::P => Some('п'),
            Onset::T => Some('т'),
            Onset::K => Some('к'),
            Onset::S => Some('с'),
            Onset::M => Some('м'),
            Onset::N => Some('н'),
            Onset::L => Some('л'),
            Onset::J => None,
            Onset::W => Some('в'),
        }
    }

    pub fn greek_char(&self) -> (r: Option<char>)
        ensures
            r == greek_onset(*self),
    {
        match *self {
            Onset::Null => None,
            Onset::P => Some('π'),
            Onset::T => Some('τ'),
            Onset::K => Some('κ'),
            Onset::S => Some('σ'),
            Onset::M => Some('μ'),
            Onset::N => Some('ν'),
            Onset::L => Some('λ'),
            Onset::J => Some('γ'),
            Onset::W => Some('β'),
        }
    }

    pub fn devanagari_char(&self) -> (r: Option<char>)
        ensures
            r == devanagari_onset(*self),
    {
        match *self {
            Onset::Null => None,
            Onset::P => Some('प'),
            Onset::T => Some('त'),
            Onset::K => Some('क'),
            Onset::S => Some('स'),
            Onset::M => Some('म'),
            Onset::N => Some('न'),
            Onset::L => Some('ल'),
            Onset::J => Some('य'),
            Onset::W => Some('व'),
        }
    }

    pub fn gujarati_char(&self) -> (r: Option<char>)
        ensures
            r == gujarati_onset(*self),
    {
        match *self {
            Onset::Null => None,
            Onset::P => Some('પ'),
            Onset::T => Some('ત'),
            Onset::K => Some('ક'),
            Onset::S => Some('સ'),
            Onset::M => Some('મ'),
            Onset::N => Some('ન'),
            Onset::L => Some('લ'),
            Onset::J => Some('ય'),
            Onset::W => Some('વ'),
        }
    }

    pub fn kannada_char(&self) -> (r: Option<char>)
        ensures
            r == kannada_onset(*self),
    {
        match *self {
            Onset::Null => None,
            Onset::P => Some('ಪ'),
            Onset::T => Some('ತ'),
            Onset::K => Some('ಕ'),
            Onset::S => Some('ಸ'),
            Onset::M => Some('ಮ'),
            Onset::N => Some('ನ'),
            Onset::L => Some('ಲ'),
            Onset::J => Some('ಯ'),
            Onset::W => Some('ವ'),
        }
    }

    pub fn shavian_char(&self) -> (r: Option<char>)
        ensures
            r == shavian_onset(*self),
    {
        match *self {
            Onset::Null => None,
            Onset::P => Some('𐑐'),
            Onset::T => Some('𐑑'),
            Onset::K => Some('𐑒'),
            Onset::S => Some('𐑕'),
            Onset::M => Some('𐑥'),
            Onset::N => Some('𐑯'),
            Onset::L => Some('𐑤'),
            Onset::J => Some('𐑘'),
            Onset::W => Some('𐑢'),
        }
    }

    pub fn futhark_char(&self) -> (r: Option<char>)
        ensures
            r == futhark_onset(*self),
    {
        match *self {
            Onset::Null => None,
            Onset::P => Some('ᛈ'),
            Onset::T => Some('ᛏ'),
            Onset::K => Some('ᚲ'),
            Onset::S => Some('ᛊ'),
            Onset::M => Some('ᛗ'),
            Onset::N => Some('ᚾ'),
            Onset::L => Some('ᛚ'),
            Onset::J => Some('ᛃ'),
            Onset::W => Some('ᚹ'),
        }
    }

    pub fn gothic_char(&self) -> (r: Option<char>)
        ensures
            r == gothic_onset(*self),
    {
        match *self {
            Onset::Null => None,
            Onset::P => Some('𐍀'),
            Onset::T => Some('𐍄'),
            Onset::K => Some('𐌺'),
            Onset::S => Some('𐍃'),
            Onset::M => Some('𐌼'),
            Onset::N => Some('𐌽'),
            Onset::L => Some('𐌻'),
            Onset::J => Some('𐌾'),
            Onset::W => Some('𐍅'),
        }
    }

    pub fn ogham_char(&self) -> (r: Option<char>)
        ensures
            r == ogham_onset(*self),
    {
        match *self {
            Onset::Null => None,
            Onset::P => Some('ᚁ'),
            Onset::T => Some('ᚈ'),
            Onset::K => Some('ᚉ'),
            Onset::S => Some('ᚄ'),
            Onset::M => Some('ᚋ'),
            Onset::N => Some('ᚅ'),
            Onset::L => Some('ᚂ'),
            Onset::J => Some('ᚆ'),
            Onset::W => Some('ᚃ'),
        }
    }

    pub fn mkhedruli_char(&self) -> (r: Option<char>)
        ensures
            r == mkhedruli_onset(*self),
    {
        match *self {
            Onset::Null => None,
            Onset::P => Some('ფ'),
            Onset::T => Some('თ'),
            Onset::K => Some('ქ'),
            Onset::S => Some('ს'),
            Onset::M => Some('მ'),
            Onset::N => Some('ნ'),
            Onset::L => Some('ლ'),
            Onset::J => Some('ჲ'),
            Onset::W => Some('ჳ'),
        }
    }

    pub fn latin_char_upper(&self) -> (r: Option<char>)
        ensures
            r == latin_onset_upper(*self),
    {
        match *self {
            Onset::Null => None,
            Onset::P => Some('P'),
            Onset::T => Some('T'),
            Onset::K => Some('K'),
            Onset::S => Some('S'),
            Onset::M => Some('M'),
            Onset::N => Some('N'),
            Onset::L => Some('L'),
            Onset::J => Some('J'),
            Onset::W => Some('W'),
        }
    }

    pub fn hebrew_char(&self) -> (r: char)
        ensures
            r == hebrew_onset(*self),
    {
        match *self {
            Onset::Null => 'א',
            Onset::P => 'פ',
            Onset::T => 'ט',
            Onset::K => 'ק',
            Onset::S => 'ס',
            Onset::M => 'מ',
            Onset::N => 'נ',
            Onset::L => 'ל',
            Onset::J => 'י',
            Onset::W => 'ו',
        }
    }

    pub fn arabic_char(&self) -> (r: char)
        ensures
            r == arabic_onset(*self),
    {
        match *self {
            Onset::Null => 'ا',
            Onset::P => 'ب',
            Onset::T => 'ت',
            Onset::K => 'ك',
            Onset::S => 'س',
            Onset::M => 'م',
            Onset::N => 'ن',
            Onset::L => 'ل',
            Onset::J => 'ي',
            Onset::W => 'و',
        }
    }

    pub fn syllabics_char(&self, nucleus: Nucleus) -> (r: Option<char>)
        ensures
            r == syllabics_onset(*self, nucleus),
    {
        match (*self, nucleus) {
            (Onset::Null, Nucleus::A) => Some('ᐊ'),
            (Onset::Null, Nucleus::E) => Some('ᐁ'),
            (Onset::Null, Nucleus::I) => Some('ᐃ'),
            (Onset::Null, Nucleus::O) => Some('ᐅ'),
            (Onset::Null, Nucleus::U) => Some('ᐆ'),
            (Onset::P, Nucleus::A) => Some('ᐸ'),
            (Onset::P, Nucleus::E) => Some('ᐯ'),
            (Onset::P, Nucleus::I) => Some('ᐱ'),
            (Onset::P, Nucleus::O) => Some('ᐳ'),
            (Onset::P, Nucleus::U) => Some('ᐴ'),
            (Onset::T, Nucleus::A) => Some('ᑕ'),
            (Onset::T, Nucleus::E) => Some('ᑌ'),
            (Onset::T, Nucleus::I) => None,
            (Onset::T, Nucleus::O) => Some('ᑐ'),
            (Onset::T, Nucleus::U) => Some('ᑑ'),
            (Onset::K, Nucleus::A) => Some('ᑲ'),
            (Onset::K, Nucleus::E) => Some('ᑫ'),
            (Onset::K, Nucleus::I) => Some('ᑭ'),
            (Onset::K, Nucleus::O) => Some('ᑯ'),
            (Onset::K, Nucleus::U) => Some('ᑰ'),
            (Onset::S, Nucleus::A) => Some('ᓴ'),
            (Onset::S, Nucleus::E) => Some('ᓭ'),
            (Onset::S, Nucleus::I) => Some('ᓯ'),
            (Onset::S, Nucleus::O) => Some('ᓱ'),
            (Onset::S, Nucleus::U) => Some('ᓲ'),
            (Onset::M, Nucleus::A) => Some('ᒪ'),
            (Onset::M, Nucleus::E) => Some('ᒣ'),
            (Onset::M, Nucleus::I) => Some('ᒥ'),
            (Onset::M, Nucleus::O) => Some('ᒧ'),
            (Onset::M, Nucleus::U) => Some('ᒨ'),
            (Onset::N, Nucleus::A) => Some('ᓇ'),
            (Onset::N, Nucleus::E) => Some('ᓀ'),
            (Onset::N, Nucleus::I) => Some('ᓂ'),
            (Onset::N, Nucleus::O) => Some('ᓄ'),
            (Onset::N, Nucleus::U) => Some('ᓅ'),
            (Onset::L, Nucleus::A) => Some('ᓚ'),
            (Onset::L, Nucleus::E) => Some('ᓓ'),
            (Onset::L, Nucleus::I) => Some('ᓕ'),
            (Onset::L, Nucleus::O) => Some('ᓗ'),
            (Onset::L, Nucleus::U) => Some('ᓘ'),
            (Onset::J, Nucleus::A) => Some('ᔭ'),
            (Onset::J, Nucleus::E) => Some('ᔦ'),
            (Onset::J, Nucleus::I) => None,
            (Onset::J, Nucleus::O) => Some('ᔪ'),
            (Onset::J, Nucleus::U) => Some('ᔫ'),
            (Onset::W, Nucleus::A) => Some('ᕙ'),
            (Onset::W, Nucleus::E) => Some('ᕓ'),
            (Onset::W, Nucleus::I) => Some('ᕕ'),
            (Onset::W, Nucleus::O) => None,
            (Onset::W, Nucleus::U) => None,
        }
    }

    pub fn hiragana_char(&self, nucleus: Nucleus) -> (r: Option<char>)
        ensures
            r == hiragana_glyph(*self, nucleus),
    {
        match (*self, nucleus) {
            (Onset::Null, Nucleus::A) => Some('あ'),
            (Onset::Null, Nucleus::I) => Some('い'),
            (Onset::Null, Nucleus::U) => Some('う'),
            (Onset::Null, Nucleus::E) => Some('え'),
            (Onset::Null, Nucleus::O) => Some('お'),
            (Onset::K, Nucleus::A) => Some('か'),
            (Onset::K, Nucleus::I) => Some('き'),
            (Onset::K, Nucleus::U) => Some('く'),
            (Onset::K, Nucleus::E) => Some('け'),
            (Onset::K, Nucleus::O) => Some('こ'),
            (Onset::S, Nucleus::A) => Some('さ'),
            (Onset::S, Nucleus::I) => Some('し'),
            (Onset::S, Nucleus::U) => Some('す'),
            (Onset::S, Nucleus::E) => Some('せ'),
            (Onset::S, Nucleus::O) => Some('そ'),
            (Onset::T, Nucleus::A) => Some('た'),
            (Onset::T, Nucleus::I) => None,
            (Onset::T, Nucleus::U) => Some('つ'),
            (Onset::T, Nucleus::E) => Some('て'),
            (Onset::T, Nucleus::O) => Some('と'),
            (Onset::N, Nucleus::A) => Some('な'),
            (Onset::N, Nucleus::I) => Some('に'),
            (Onset::N, Nucleus::U) => Some('ぬ'),
            (Onset::N, Nucleus::E) => Some('ね'),
            (Onset::N, Nucleus::O) => Some('の'),
            (Onset::P, Nucleus::A) => Some('は'),
            (Onset::P, Nucleus::I) => Some('ひ'),
            (Onset::P, Nucleus::U) => Some('ふ'),
            (Onset::P, Nucleus::E) => Some('へ'),
            (Onset::P, Nucleus::O) => Some('ほ'),
            (Onset::M, Nucleus::A) => Some('ま'),
            (Onset::M, Nucleus::I) => Some('み'),
            (Onset::M, Nucleus::U) => Some('む'),
            (Onset::M, Nucleus::E) => Some('め'),
            (Onset::M, Nucleus::O) => Some('も'),
            (Onset::J, Nucleus::A) => Some('や'),
            (Onset::J, Nucleus::I) => None,
            (Onset::J, Nucleus::U) => Some('ゆ'),
            (Onset::J, Nucleus::E) => Some('江'),
            (Onset::J, Nucleus::O) => Some('よ'),
            (Onset::L, Nucleus::A) => Some('ら'),
            (Onset::L, Nucleus::I) => Some('り'),
            (Onset::L, Nucleus::U) => Some('る'),
            (Onset::L, Nucleus::E) => Some('れ'),
            (Onset::L, Nucleus::O) => Some('ろ'),
            (Onset::W, Nucleus::A) => Some('わ'),
            (Onset::W, Nucleus::I) => Some('ゐ'),
            (Onset::W, Nucleus::U) => None,
            (Onset::W, Nucleus::E) => Some('ゑ'),
            (Onset::W, Nucleus::O) => None,
        }
    }

    pub fn katakana_char(&self, nucleus: Nucleus) -> (r: Option<char>)
        ensures
            r == katakana_glyph(*self, nucleus),
    {
        match (*self, nucleus) {
            (Onset::Null, Nucleus::A) => Some('ア'),
            (Onset::Null, Nucleus::I) => Some('イ'),
            (Onset::Null, Nucleus::U) => Some('ウ'),
            (Onset::Null, Nucleus::E) => Some('エ'),
            (Onset::Null, Nucleus::O) => Some('オ'),
            (Onset::K, Nucleus::A) => Some('カ'),
            (Onset::K, Nucleus::I) => Some('キ'),
            (Onset::K, Nucleus::U) => Some('ク'),
            (Onset::K, Nucleus::E) => Some('ケ'),
            (Onset::K, Nucleus::O) => Some('コ'),
            (Onset::S, Nucleus::A) => Some('サ'),
            (Onset::S, Nucleus::I) => Some('シ'),
            (Onset::S, Nucleus::U) => Some('ス'),
            (Onset::S, Nucleus::E) => Some('セ'),
            (Onset::S, Nucleus::O) => Some('ソ'),
            (Onset::T, Nucleus::A) => Some('タ'),
            (Onset::T, Nucleus::I) => None,
            (Onset::T, Nucleus::U) => Some('ツ'),
            (Onset::T, Nucleus::E) => Some('テ'),
            (Onset::T, Nucleus::O) => Some('ト'),
            (Onset::N, Nucleus::A) => Some('ナ'),
            (Onset::N, Nucleus::I) => Some('ニ'),
            (Onset::N, Nucleus::U) => Some('ヌ'),
            (Onset::N, Nucleus::E) => Some('ネ'),
            (Onset::N, Nucleus::O) => Some('ノ'),
            (Onset::P, Nucleus::A) => Some('ハ'),
            (Onset::P, Nucleus::I) => Some('ヒ'),
            (Onset::P, Nucleus::U) => Some('フ'),
            (Onset::P, Nucleus::E) => Some('ヘ'),
            (Onset::P, Nucleus::O) => Some('ホ'),
            (Onset::M, Nucleus::A) => Some('マ'),
            (Onset::M, Nucleus::I) => Some('ミ'),
            (Onset::M, Nucleus::U) => Some('ム'),
            (Onset::M, Nucleus::E) => Some('メ'),
            (Onset::M, Nucleus::O) => Some('モ'),
            (Onset::J, Nucleus::A) => Some('ヤ'),
            (Onset::J, Nucleus::I) => None,
            (Onset::J, Nucleus::U) => Some('ユ'),
            (Onset::J, Nucleus::E) => Some('エ'),
            (Onset::J, Nucleus::O) => Some('ヨ'),
            (Onset::L, Nucleus::A) => Some('ラ'),
            (Onset::L, Nucleus::I) => Some('リ'),
            (Onset::L, Nucleus::U) => Some('ル'),
            (Onset::L, Nucleus::E) => Some('レ'),
            (Onset::L, Nucleus::O) => Some('ロ'),
            (Onset::W, Nucleus::A) => Some('ワ'),
            (Onset::W, Nucleus::I) => Some('ヰ'),
            (Onset::W, Nucleus::U) => None,
            (Onset::W, Nucleus::E) => Some('ヱ'),
            (Onset::W, Nucleus::O) => None,
        }
    }

    pub fn orkhon_char(&self, prev: Option<&Syllable>, is_back: bool) -> (r: (Option<char>, bool))
        ensures
            r == orkhon_onset(*self, opt_deref(prev), is_back),
    {
        let prev_nasal = match prev {
            Some(p) => p.coda == Coda::N,
            None => false,
        };
        let prev_round = match prev {
            Some(p) => (p.nucleus == Nucleus::O || p.nucleus == Nucleus::U) && p.coda == Coda::Null,
            None => false,
        };
        match *self {
            Onset::Null => (None, false),
            Onset::P => if is_back { (Some('𐰉'), true) } else { (Some('𐰋'), true) },
            Onset::T => if prev_nasal {
                (Some('𐰦'), false)
            } else if is_back {
                (Some('𐱃'), true)
            } else {
                (Some('𐱅'), true)
            },
            Onset::K => if is_back { (Some('𐰴'), true) } else { (Some('𐰚'), true) },
            Onset::S => if is_back { (Some('𐰽'), true) } else { (Some('𐰾'), true) },
            Onset::M => (Some('𐰢'), false),
            Onset::N => if is_back { (Some('𐰣'), true) } else { (Some('𐰤'), true) },
            Onset::L => if is_back { (Some('𐰞'), true) } else { (Some('𐰠'), true) },
            Onset::J => if prev_nasal {
                (Some('𐰪'), false)
            } else if is_back {
                (Some('𐰖'), true)
            } else {
                (Some('𐰘'), true)
            },
            Onset::W => if prev_round { (None, false) } else { (Some('𐰆'), false) },
        }
    }
}

impl Nucleus {
    pub fn latin_char(&self) -> (r: char)
        ensures
            r == latin_nucleus(*self),
    {
        match *self {
            Nucleus::A => 'a',
            Nucleus::E => 'e',
            Nucleus::I => 'i',
            Nucleus::O => 'o',
            Nucleus::U => 'u',
        }
    }

    pub fn cyrillic_char(&self) -> (r: char)
        ensures
            r == cyrillic_nucleus(*self),
    {
        match *self {
            Nucleus::A => 'a',
            Nucleus::E => 'э',
            Nucleus::I => 'и',
            Nucleus::O => 'о',
            Nucleus::U => 'у',
        }
    }

    pub fn greek_char(&self) -> (r: char)
        ensures
            r == greek_nucleus(*self),
    {
        match *self {
            Nucleus::A => 'α',
            Nucleus::E => 'ε',
            Nucleus::I => 'ι',
            Nucleus::O => 'ο',
            Nucleus::U => 'υ',
        }
    }

    pub fn hebrew_char(&self) -> (r: char)
        ensures
            r == hebrew_nucleus(*self),
    {
        match *self {
            Nucleus::A => 'ָ',
            Nucleus::E => 'ֶ',
            Nucleus::I => 'ִ',
            Nucleus::O => 'ֹ',
            Nucleus::U => 'ֻ',
        }
    }

    pub fn shavian_char(&self) -> (r: char)
        ensures
            r == shavian_nucleus(*self),
    {
        match *self {
            Nucleus::A => '𐑨',
            Nucleus::E => '𐑧',
            Nucleus::I => '𐑦',
            Nucleus::O => '𐑪',
            Nucleus::U => '𐑩',
        }
    }

    pub fn futhark_char(&self) -> (r: char)
        ensures
            r == futhark_nucleus(*self),
    {
        match *self {
            Nucleus::A => 'ᚨ',
            Nucleus::E => 'ᛖ',
            Nucleus::I => 'ᛁ',
            Nucleus::O => 'ᛟ',
            Nucleus::U => 'ᚢ',
        }
    }

    pub fn gothic_char(&self) -> (r: char)
        ensures
            r == gothic_nucleus(*self),
    {
        match *self {
            Nucleus::A => '𐌰',
            Nucleus::E => '𐌴',
            Nucleus::I => '𐌹',
            Nucleus::O => '𐍉',
            Nucleus::U => '𐌿',
        }
    }

    pub fn ogham_char(&self) -> (r: char)
        ensures
            r == ogham_nucleus(*self),
    {
        match *self {
            Nucleus::A => 'ᚐ',
            Nucleus::E => 'ᚓ',
            Nucleus::I => 'ᚔ',
            Nucleus::O => 'ᚑ',
            Nucleus::U => 'ᚒ',
        }
    }

    pub fn mkhedruli_char(&self) -> (r: char)
        ensures
            r == mkhedruli_nucleus(*self),
    {
        match *self {
            Nucleus::A => 'ა',
            Nucleus::E => 'ე',
            Nucleus::I => 'ი',
            Nucleus::O => 'ო',
            Nucleus::U => 'უ',
        }
    }

    pub fn latin_char_upper(&self) -> (r: char)
        ensures
            r == latin_nucleus_upper(*self),
    {
        match *self {
            Nucleus::A => 'A',
            Nucleus::E => 'E',
            Nucleus::I => 'I',
            Nucleus::O => 'O',
            Nucleus::U => 'U',
        }
    }

    pub fn iotated_cyrillic_char(&self) -> (r: Option<char>)
        ensures
            r == cyrillic_iotated(*self),
    {
        match *self {
            Nucleus::A => Some('я'),
            Nucleus::E => Some('е'),
            Nucleus::I => None,
            Nucleus::O => Some('ё'),
            Nucleus::U => Some('ю'),
        }
    }

    pub fn devanagari_char(&self) -> (r: char)
        ensures
            r == devanagari_vowel(*self),
    {
        match *self {
            Nucleus::A => 'अ',
            Nucleus::E => 'ए',
            Nucleus::I => 'इ',
            Nucleus::O => 'ओ',
            Nucleus::U => 'उ',
        }
    }

    pub fn devanagari_modifier_char(&self) -> (r: Option<char>)
        ensures
            r == devanagari_modifier(*self),
    {
        match *self {
            Nucleus::A => None,
            Nucleus::E => Some('े'),
            Nucleus::I => Some('ि'),
            Nucleus::O => Some('ो'),
            Nucleus::U => Some('ु'),
        }
    }

    pub fn arabic_chars(&self, coda: Coda) -> (r: (char, Option<char>))
        ensures
            r == arabic_nucleus(*self, coda),
    {
        match (*self, coda) {
            (Nucleus::A, Coda::Null) => ('\u{064e}', None),
            (Nucleus::A, Coda::N) => ('\u{064b}', None),
            (Nucleus::E, Coda::Null) => ('\u{0650}', None),
            (Nucleus::E, Coda::N) => ('\u{064d}', None),
            (Nucleus::I, Coda::Null) => ('\u{0650}', Some('ي')),
            (Nucleus::I, Coda::N) => ('\u{064d}', Some('ي')),
            (Nucleus::O, Coda::Null) => ('\u{064f}', None),
            (Nucleus::O, Coda::N) => ('\u{064c}', None),
            (Nucleus::U, Coda::Null) => ('\u{0650}', Some('و')),
            (Nucleus::U, Coda::N) => ('\u{064c}', Some('و')),
        }
    }

    pub fn gujarati_char(&self) -> (r: char)
        ensures
            r == gujarati_vowel(*self),
    {
        match *self {
            Nucleus::A => 'આ',
            Nucleus::E => 'એ',
            Nucleus::I => 'ઈ',
            Nucleus::O => 'ઓ',
            Nucleus::U => 'ઊ',
        }
    }

    pub fn gujarati_modifier_char(&self) -> (r: char)
        ensures
            r == gujarati_modifier(*self),
    {
        match *self {
            Nucleus::A => 'ા',
            Nucleus::E => 'ે',
            Nucleus::I => 'ી',
            Nucleus::O => 'ો',
            Nucleus::U => 'ૂ',
        }
    }

    pub fn kannada_char(&self) -> (r: char)
        ensures
            r == kannada_vowel(*self),
    {
        match *self {
            Nucleus::A => 'ಅ',
            Nucleus::E => 'ಎ',
            Nucleus::I => 'ಇ',
            Nucleus::O => 'ಒ',
            Nucleus::U => 'ಉ',
        }
    }

    pub fn kannada_modifier_char(&self) -> (r: Option<char>)
        ensures
            r == kannada_modifier(*self),
    {
        match *self {
            Nucleus::A => None,
            Nucleus::E => Some('ೆ'),
            Nucleus::I => Some('ಿ'),
            Nucleus::O => Some('ೊ'),
            Nucleus::U => Some('ು'),
        }
    }

    pub fn orkhon_char(&self, has_backness: bool) -> (r: Option<char>)
        ensures
            r == orkhon_nucleus(*self, has_backness),
    {
        match *self {
            Nucleus::A => if has_backness { None } else { Some('𐰀') },
            Nucleus::E => Some('𐰅'),
            Nucleus::I => if has_backness { None } else { Some('𐰃') },
            Nucleus::O | Nucleus::U => Some('𐰆'),
        }
    }
}

impl Coda {
    pub fn latin_char(&self) -> (r: Option<char>)
        ensures
            r == latin_coda(*self),
    {
        match *self {
            Coda::Null => None,
            Coda::N => Some('n'),
        }
    }

    pub fn cyrillic_char(&self) -> (r: Option<char>)
        ensures
            r == cyrillic_coda(*self),
    {
        match *self {
            Coda::Null => None,
            Coda::N => Some('н'),
        }
    }

    pub fn greek_char(&self) -> (r: Option<char>)
        ensures
            r == greek_coda(*self),
    {
        match *self {
            Coda::Null => None,
            Coda::N => Some('ν'),
        }
    }

    pub fn devanagari_char(&self) -> (r: Option<char>)
        ensures
            r == devanagari_coda(*self),
    {
        match *self {
            Coda::Null => None,
            Coda::N => Some('ं'),
        }
    }

    pub fn syllabics_char(&self) -> (r: Option<char>)
        ensures
            r == syllabics_coda(*self),
    {
        match *self {
            Coda::Null => None,
            Coda::N => Some('ᓐ'),
        }
    }

    pub fn shavian_char(&self) -> (r: Option<char>)
        ensures
            r == shavian_coda(*self),
    {
        match *self {
            Coda::Null => None,
            Coda::N => Some('𐑯'),
        }
    }

    pub fn hiragana_char(&self) -> (r: Option<char>)
        ensures
            r == hiragana_coda(*self),
    {
        match *self {
            Coda::Null => None,
            Coda::N => Some('ん'),
        }
    }

    pub fn katakana_char(&self) -> (r: Option<char>)
        ensures
            r == katakana_coda(*self),
    {
        match *self {
            Coda::Null => None,
            Coda::N => Some('ン'),
        }
    }

    pub fn futhark_char(&self) -> (r: Option<char>)
        ensures
            r == futhark_coda(*self),
    {
        match *self {
            Coda::Null => None,
            Coda::N => Some('ᚾ'),
        }
    }

    pub fn gothic_char(&self) -> (r: Option<char>)
        ensures
            r == gothic_coda(*self),
    {
        match *self {
            Coda::Null => None,
            Coda::N => Some('𐌽'),
        }
    }

    pub fn ogham_char(&self) -> (r: Option<char>)
        ensures
            r == ogham_coda(*self),
    {
        match *self {
            Coda::Null => None,
            Coda::N => Some('ᚅ'),
        }
    }

    pub fn mkhedruli_char(&self) -> (r: Option<char>)
        ensures
            r == mkhedruli_coda(*self),
    {
        match *self {
            Coda::Null => None,
            Coda::N => Some('ნ'),
        }
    }

    pub fn hebrew_char(&self, last: bool) -> (r: Option<char>)
        ensures
            r == hebrew_coda(*self, last),
    {
        match *self {
            Coda::Null => None,
            Coda::N => if last { Some('ן') } else { Some('נ') },
        }
    }

    pub fn gujarati_char(&self, last: bool) -> (r: Option<(char, Option<char>)>)
        ensures
            r == gujarati_coda(*self, last),
    {
        match *self {
            Coda::Null => None,
            Coda::N => if last { Some(('ન', None)) } else { Some(('ન', Some('્'))) },
        }
    }

    pub fn kannada_char(&self, last: bool) -> (r: Option<(char, Option<char>)>)
        ensures
            r == kannada_coda(*self, last),
    {
        match *self {
            Coda::Null => None,
            Coda::N => if last { Some(('ನ', Some('್'))) } else { Some(('ಂ', None)) },
        }
    }

    pub fn orkhon_char(&self, next: Option<&Syllable>) -> (r: Option<char>)
        ensures
            r == orkhon_coda(*self, opt_deref(next)),
    {
        let next_tj = match next {
            Some(nx) => nx.onset == Onset::J || nx.onset == Onset::T,
            None => false,
        };
        let next_back = match next {
            Some(nx) => nx.nucleus.is_back(),
            None => false,
        };
        match *self {
            Coda::Null => None,
            Coda::N => if next.is_none() {
                Some('𐰤')
            } else if next_tj {
                None
            } else if next_back {
                Some('𐰣')
            } else {
                Some('𐰤')
            },
        }
    }
}

/// Which syllables a script can render: scripts with an exhaustive glyph
/// table have no entry for the triples that the sampler never produces;
/// Cyrillic has no iotated glyph for I; every other script renders any
/// syllable.
pub open spec fn renderable(s: Syllable, script: Script) -> bool {
    match script {
        Script::Hangul | Script::Ascii | Script::Syllabics | Script::Hiragana | Script::Katakana => s.wf(),
        Script::Cyrillic => !(s.onset == Onset::J && s.nucleus == Nucleus::I),
        _ => true,
    }
}

/// The characters appended for one syllable, given the script and the
/// syllable's left and right neighbors.
pub open spec fn render_syllable(s: Syllable, script: Script, prev: Option<Syllable>, next: Option<Syllable>) -> Seq<char> {
    match script {
        Script::Latin => opt_seq(latin_onset(s.onset)) + seq![latin_nucleus(s.nucleus)] + opt_seq(latin_coda(s.coda)),
        Script::LatinTitleCase => if prev is None {
            (match latin_onset_upper(s.onset) {
                Some(c) => seq![c, latin_nucleus(s.nucleus)],
                None => seq![latin_nucleus_upper(s.nucleus)],
            }) + opt_seq(latin_coda(s.coda))
        } else {
            opt_seq(latin_onset(s.onset)) + seq![latin_nucleus(s.nucleus)] + opt_seq(latin_coda(s.coda))
        },
        Script::Cyrillic => (if s.onset == Onset::J {
            opt_seq(cyrillic_iotated(s.nucleus))
        } else {
            opt_seq(cyrillic_onset(s.onset)) + seq![cyrillic_nucleus(s.nucleus)]
        }) + opt_seq(cyrillic_coda(s.coda)),
        Script::Greek => opt_seq(greek_onset(s.onset)) + seq![greek_nucleus(s.nucleus)] + opt_seq(greek_coda(s.coda)),
        Script::Hebrew => seq![hebrew_onset(s.onset), hebrew_nucleus(s.nucleus)] + opt_seq(hebrew_coda(s.coda, next is None)),
        Script::Devanagari => (match devanagari_onset(s.onset) {
            Some(c) => seq![c] + opt_seq(devanagari_modifier(s.nucleus)),
            None => seq![devanagari_vowel(s.nucleus)],
        }) + opt_seq(devanagari_coda(s.coda)),
        Script::Hangul => opt_seq(hangul_glyph(s)),
        Script::Arabic => seq![arabic_onset(s.onset)] + pair_seq(arabic_nucleus(s.nucleus, s.coda)),
        Script::Ascii => opt_seq(ascii_glyph(s)),
        Script::Gujarati => (match gujarati_onset(s.onset) {
            Some(c) => seq![c, gujarati_modifier(s.nucleus)],
            None => seq![gujarati_vowel(s.nucleus)],
        }) + opt_pair_seq(gujarati_coda(s.coda, next is None)),
        Script::Kannada => (match kannada_onset(s.onset) {
            Some(c) => seq![c] + opt_seq(kannada_modifier(s.nucleus)),
            None => seq![kannada_vowel(s.nucleus)],
        }) + opt_pair_seq(kannada_coda(s.coda, next is None)),
        Script::Syllabics => opt_seq(syllabics_onset(s.onset, s.nucleus)) + opt_seq(syllabics_coda(s.coda)),
        Script::Shavian => opt_seq(shavian_onset(s.onset)) + seq![shavian_nucleus(s.nucleus)] + opt_seq(shavian_coda(s.coda)),
        Script::Hiragana => opt_seq(hiragana_glyph(s.onset, s.nucleus)) + opt_seq(hiragana_coda(s.coda)),
        Script::Katakana => opt_seq(katakana_glyph(s.onset, s.nucleus)) + opt_seq(katakana_coda(s.coda)),
        Script::Futhark => opt_seq(futhark_onset(s.onset)) + seq![futhark_nucleus(s.nucleus)] + opt_seq(futhark_coda(s.coda)),
        Script::Gothic => opt_seq(gothic_onset(s.onset)) + seq![gothic_nucleus(s.nucleus)] + opt_seq(gothic_coda(s.coda)),
        Script::Ogham => opt_seq(ogham_onset(s.onset)) + seq![ogham_nucleus(s.nucleus)] + opt_seq(ogham_coda(s.coda)),
        Script::Georgian => opt_seq(mkhedruli_onset(s.onset)) + seq![mkhedruli_nucleus(s.nucleus)] + opt_seq(mkhedruli_coda(s.coda)),
        Script::Orkhon => {
            let p = orkhon_onset(s.onset, prev, s.nucleus.is_back_spec());
            opt_seq(p.0) + opt_seq(orkhon_nucleus(s.nucleus, p.1)) + opt_seq(orkhon_coda(s.coda, next))
        },
    }
}

/// Every syllable admitted by the sampler's own constraints can be rendered
/// by every script.
pub proof fn lemma_wf_renderable(s: Syllable, script: Script)
    requires
        s.wf(),
    ensures
        renderable(s, script),
{
}

/// Round-trip table coverage: every (onset, nucleus, coda) triple reachable
/// under the sampler's constraints has a defined entry in each exhaustive
/// glyph table; none resolves to the unreachable case.
pub proof fn lemma_reachable_triples_covered(s: Syllable)
    requires
        s.wf(),
    ensures
        hangul_glyph(s) is Some,
        ascii_glyph(s) is Some,
        syllabics_onset(s.onset, s.nucleus) is Some,
        hiragana_glyph(s.onset, s.nucleus) is Some,
        katakana_glyph(s.onset, s.nucleus) is Some,
        s.onset == Onset::J ==> cyrillic_iotated(s.nucleus) is Some,
{
}

impl Syllable {
    pub fn hangul_char(&self) -> (r: Option<char>)
        ensures
            r == hangul_glyph(*self),
    {
        match (self.onset, self.nucleus, self.coda) {
            (Onset::Null, Nucleus::A, Coda::Null) => Some('아'),
            (Onset::Null, Nucleus::E, Coda::Null) => Some('어'),
            (Onset::Null, Nucleus::O, Coda::Null) => Some('오'),
            (Onset::Null, Nucleus::U, Coda::Null) => Some('우'),
            (Onset::Null, Nucleus::I, Coda::Null) => Some('이'),
            (Onset::Null, Nucleus::A, Coda::N) => Some('안'),
            (Onset::Null, Nucleus::E, Coda::N) => Some('언'),
            (Onset::Null, Nucleus::O, Coda::N) => Some('온'),
            (Onset::Null, Nucleus::U, Coda::N) => Some('운'),
            (Onset::Null, Nucleus::I, Coda::N) => Some('인'),
            (Onset::J, Nucleus::A, Coda::Null) => Some('야'),
            (Onset::J, Nucleus::E, Coda::Null) => Some('여'),
            (Onset::J, Nucleus::O, Coda::Null) => Some('요'),
            (Onset::J, Nucleus::U, Coda::Null) => Some('유'),
            (Onset::J, Nucleus::I, Coda::Null) => None,
            (Onset::J, Nucleus::A, Coda::N) => Some('얀'),
            (Onset::J, Nucleus::E, Coda::N) => Some('연'),
            (Onset::J, Nucleus::O, Coda::N) => Some('욘'),
            (Onset::J, Nucleus::U, Coda::N) => Some('윤'),
            (Onset::J, Nucleus::I, Coda::N) => None,
            (Onset::W, Nucleus::A, Coda::Null) => Some('와'),
            (Onset::W, Nucleus::E, Coda::Null) => Some('워'),
            (Onset::W, Nucleus::O, Coda::Null) => None,
            (Onset::W, Nucleus::U, Coda::Null) => None,
            (Onset::W, Nucleus::I, Coda::Null) => Some('위'),
            (Onset::W, Nucleus::A, Coda::N) => Some('완'),
            (Onset::W, Nucleus::E, Coda::N) => Some('원'),
            (Onset::W, Nucleus::O, Coda::N) => None,
            (Onset::W, Nucleus::U, Coda::N) => None,
            (Onset::W, Nucleus::I, Coda::N) => Some('윈'),
            (Onset::K, Nucleus::A, Coda::Null) => Some('가'),
            (Onset::K, Nucleus::E, Coda::Null) => Some('거'),
            (Onset::K, Nucleus::O, Coda::Null) => Some('고'),
            (Onset::K, Nucleus::U, Coda::Null) => Some('구'),
            (Onset::K, Nucleus::I, Coda::Null) => Some('기'),
            (Onset::K, Nucleus::A, Coda::N) => Some('간'),
            (Onset::K, Nucleus::E, Coda::N) => Some('건'),
            (Onset::K, Nucleus::O, Coda::N) => Some('곤'),
            (Onset::K, Nucleus::U, Coda::N) => Some('군'),
            (Onset::K, Nucleus::I, Coda::N) => Some('긴'),
            (Onset::N, Nucleus::A, Coda::Null) => Some('나'),
            (Onset::N, Nucleus::E, Coda::Null) => Some('너'),
            (Onset::N, Nucleus::O, Coda::Null) => Some('노'),
            (Onset::N, Nucleus::U, Coda::Null) => Some('누'),
            (Onset::N, Nucleus::I, Coda::Null) => Some('니'),
            (Onset::N, Nucleus::A, Coda::N) => Some('난'),
            (Onset::N, Nucleus::E, Coda::N) => Some('넌'),
            (Onset::N, Nucleus::O, Coda::N) => Some('논'),
            (Onset::N, Nucleus::U, Coda::N) => Some('눈'),
            (Onset::N, Nucleus::I, Coda::N) => Some('닌'),
            (Onset::T, Nucleus::A, Coda::Null) => Some('다'),
            (Onset::T, Nucleus::E, Coda::Null) => Some('더'),
            (Onset::T, Nucleus::O, Coda::Null) => Some('도'),
            (Onset::T, Nucleus::U, Coda::Null) => Some('두'),
            (Onset::T, Nucleus::I, Coda::Null) => None,
            (Onset::T, Nucleus::A, Coda::N) => Some('단'),
            (Onset::T, Nucleus::E, Coda::N) => Some('던'),
            (Onset::T, Nucleus::O, Coda::N) => Some('돈'),
            (Onset::T, Nucleus::U, Coda::N) => Some('둔'),
            (Onset::T, Nucleus::I, Coda::N) => None,
            (Onset::L, Nucleus::A, Coda::Null) => Some('라'),
            (Onset::L, Nucleus::E, Coda::Null) => Some('러'),
            (Onset::L, Nucleus::O, Coda::Null) => Some('로'),
            (Onset::L, Nucleus::U, Coda::Null) => Some('루'),
            (Onset::L, Nucleus::I, Coda::Null) => Some('리'),
            (Onset::L, Nucleus::A, Coda::N) => Some('란'),
            (Onset::L, Nucleus::E, Coda::N) => Some('런'),
            (Onset::L, Nucleus::O, Coda::N) => Some('론'),
            (Onset::L, Nucleus::U, Coda::N) => Some('룬'),
            (Onset::L, Nucleus::I, Coda::N) => Some('린'),
            (Onset::M, Nucleus::A, Coda::Null) => Some('마'),
            (Onset::M, Nucleus::E, Coda::Null) => Some('머'),
            (Onset::M, Nucleus::O, Coda::Null) => Some('모'),
            (Onset::M, Nucleus::U, Coda::Null) => Some('무'),
            (Onset::M, Nucleus::I, Coda::Null) => Some('미'),
            (Onset::M, Nucleus::A, Coda::N) => Some('만'),
            (Onset::M, Nucleus::E, Coda::N) => Some('먼'),
            (Onset::M, Nucleus::O, Coda::N) => Some('몬'),
            (Onset::M, Nucleus::U, Coda::N) => Some('문'),
            (Onset::M, Nucleus::I, Coda::N) => Some('민'),
            (Onset::P, Nucleus::A, Coda::Null) => Some('바'),
            (Onset::P, Nucleus::E, Coda::Null) => Some('버'),
            (Onset::P, Nucleus::O, Coda::Null) => Some('보'),
            (Onset::P, Nucleus::U, Coda::Null) => Some('부'),
            (Onset::P, Nucleus::I, Coda::Null) => Some('비'),
            (Onset::P, Nucleus::A, Coda::N) => Some('반'),
            (Onset::P, Nucleus::E, Coda::N) => Some('번'),
            (Onset::P, Nucleus::O, Coda::N) => Some('본'),
            (Onset::P, Nucleus::U, Coda::N) => Some('분'),
            (Onset::P, Nucleus::I, Coda::N) => Some('빈'),
            (Onset::S, Nucleus::A, Coda::Null) => Some('사'),
            (Onset::S, Nucleus::E, Coda::Null) => Some('서'),
            (Onset::S, Nucleus::O, Coda::Null) => Some('소'),
            (Onset::S, Nucleus::U, Coda::Null) => Some('수'),
            (Onset::S, Nucleus::I, Coda::Null) => Some('시'),
            (Onset::S, Nucleus::A, Coda::N) => Some('산'),
            (Onset::S, Nucleus::E, Coda::N) => Some('선'),
            (Onset::S, Nucleus::O, Coda::N) => Some('손'),
            (Onset::S, Nucleus::U, Coda::N) => Some('순'),
            (Onset::S, Nucleus::I, Coda::N) => Some('신'),
        }
    }

    pub fn ascii_char(&self) -> (r: Option<char>)
        ensures
            r == ascii_glyph(*self),
    {
        match (self.onset, self.nucleus, self.coda) {
            (Onset::Null, Nucleus::A, Coda::Null) => Some('a'),
            (Onset::Null, Nucleus::E, Coda::Null) => Some('e'),
            (Onset::Null, Nucleus::O, Coda::Null) => Some('o'),
            (Onset::Null, Nucleus::U, Coda::Null) => Some('0'),
            (Onset::Null, Nucleus::I, Coda::Null) => Some('i'),
            (Onset::Null, Nucleus::A, Coda::N) => Some('A'),
            (Onset::Null, Nucleus::E, Coda::N) => Some('&'),
            (Onset::Null, Nucleus::O, Coda::N) => Some('7'),
            (Onset::Null, Nucleus::U, Coda::N) => Some('U'),
            (Onset::Null, Nucleus::I, Coda::N) => Some('!'),
            (Onset::J, Nucleus::A, Coda::Null) => Some('Y'),
            (Onset::J, Nucleus::E, Coda::Null) => Some('y'),
            (Onset::J, Nucleus::O, Coda::Null) => Some('J'),
            (Onset::J, Nucleus::U, Coda::Null) => Some(','),
            (Onset::J, Nucleus::I, Coda::Null) => None,
            (Onset::J, Nucleus::A, Coda::N) => Some('j'),
            (Onset::J, Nucleus::E, Coda::N) => Some('"'),
            (Onset::J, Nucleus::O, Coda::N) => Some('>'),
            (Onset::J, Nucleus::U, Coda::N) => Some('<'),
            (Onset::J, Nucleus::I, Coda::N) => None,
            (Onset::W, Nucleus::A, Coda::Null) => Some('w'),
            (Onset::W, Nucleus::E, Coda::Null) => Some('V'),
            (Onset::W, Nucleus::O, Coda::Null) => None,
            (Onset::W, Nucleus::U, Coda::Null) => None,
            (Onset::W, Nucleus::I, Coda::Null) => Some('W'),
            (Onset::W, Nucleus::A, Coda::N) => Some('1'),
            (Onset::W, Nucleus::E, Coda::N) => Some('v'),
            (Onset::W, Nucleus::O, Coda::N) => None,
            (Onset::W, Nucleus::U, Coda::N) => None,
            (Onset::W, Nucleus::I, Coda::N) => Some('|'),
            (Onset::K, Nucleus::A, Coda::Null) => Some('K'),
            (Onset::K, Nucleus::E, Coda::Null) => Some('G'),
            (Onset::K, Nucleus::O, Coda::Null) => Some('H'),
            (Onset::K, Nucleus::U, Coda::Null) => Some('q'),
            (Onset::K, Nucleus::I, Coda::Null) => Some('k'),
            (Onset::K, Nucleus::A, Coda::N) => Some('}'),
            (Onset::K, Nucleus::E, Coda::N) => Some('g'),
            (Onset::K, Nucleus::O, Coda::N) => Some('h'),
            (Onset::K, Nucleus::U, Coda::N) => Some('{'),
            (Onset::K, Nucleus::I, Coda::N) => Some('Q'),
            (Onset::N, Nucleus::A, Coda::Null) => Some('n'),
            (Onset::N, Nucleus::E, Coda::Null) => Some('^'),
            (Onset::N, Nucleus::O, Coda::Null) => Some('*'),
            (Onset::N, Nucleus::U, Coda::Null) => Some('/'),
            (Onset::N, Nucleus::I, Coda::Null) => Some('N'),
            (Onset::N, Nucleus::A, Coda::N) => Some('#'),
            (Onset::N, Nucleus::E, Coda::N) => Some('-'),
            (Onset::N, Nucleus::O, Coda::N) => Some('_'),
            (Onset::N, Nucleus::U, Coda::N) => Some(')'),
            (Onset::N, Nucleus::I, Coda::N) => Some('('),
            (Onset::T, Nucleus::A, Coda::Null) => Some('T'),
            (Onset::T, Nucleus::E, Coda::Null) => Some('E'),
            (Onset::T, Nucleus::O, Coda::Null) => Some('t'),
            (Onset::T, Nucleus::U, Coda::Null) => Some('2'),
            (Onset::T, Nucleus::I, Coda::Null) => None,
            (Onset::T, Nucleus::A, Coda::N) => Some('X'),
            (Onset::T, Nucleus::E, Coda::N) => Some('x'),
            (Onset::T, Nucleus::O, Coda::N) => Some('D'),
            (Onset::T, Nucleus::U, Coda::N) => Some('d'),
            (Onset::T, Nucleus::I, Coda::N) => None,
            (Onset::L, Nucleus::A, Coda::Null) => Some('L'),
            (Onset::L, Nucleus::E, Coda::Null) => Some('r'),
            (Onset::L, Nucleus::O, Coda::Null) => Some('~'),
            (Onset::L, Nucleus::U, Coda::Null) => Some('5'),
            (Onset::L, Nucleus::I, Coda::Null) => Some('l'),
            (Onset::L, Nucleus::A, Coda::N) => Some('\''),
            (Onset::L, Nucleus::E, Coda::N) => Some('$'),
            (Onset::L, Nucleus::O, Coda::N) => Some('R'),
            (Onset::L, Nucleus::U, Coda::N) => Some(';'),
            (Onset::L, Nucleus::I, Coda::N) => Some('I'),
            (Onset::M, Nucleus::A, Coda::Null) => Some('M'),
            (Onset::M, Nucleus::E, Coda::Null) => Some('?'),
            (Onset::M, Nucleus::O, Coda::Null) => Some('O'),
            (Onset::M, Nucleus::U, Coda::Null) => Some('u'),
            (Onset::M, Nucleus::I, Coda::Null) => Some('m'),
            (Onset::M, Nucleus::A, Coda::N) => Some('`'),
            (Onset::M, Nucleus::E, Coda::N) => Some('9'),
            (Onset::M, Nucleus::O, Coda::N) => Some('@'),
            (Onset::M, Nucleus::U, Coda::N) => Some('3'),
            (Onset::M, Nucleus::I, Coda::N) => Some('8'),
            (Onset::P, Nucleus::A, Coda::Null) => Some('b'),
            (Onset::P, Nucleus::E, Coda::Null) => Some('B'),
            (Onset::P, Nucleus::O, Coda::Null) => Some('p'),
            (Onset::P, Nucleus::U, Coda::Null) => Some('f'),
            (Onset::P, Nucleus::I, Coda::Null) => Some('P'),
            (Onset::P, Nucleus::A, Coda::N) => Some('6'),
            (Onset::P, Nucleus::E, Coda::N) => Some('F'),
            (Onset::P, Nucleus::O, Coda::N) => Some('='),
            (Onset::P, Nucleus::U, Coda::N) => Some('+'),
            (Onset::P, Nucleus::I, Coda::N) => Some('%'),
            (Onset::S, Nucleus::A, Coda::Null) => Some('c'),
            (Onset::S, Nucleus::E, Coda::Null) => Some('Z'),
            (Onset::S, Nucleus::O, Coda::Null) => Some('S'),
            (Onset::S, Nucleus::U, Coda::Null) => Some('z'),
            (Onset::S, Nucleus::I, Coda::Null) => Some('s'),
            (Onset::S, Nucleus::A, Coda::N) => Some(']'),
            (Onset::S, Nucleus::E, Coda::N) => Some('['),
            (Onset::S, Nucleus::O, Coda::N) => Some('\\'),
            (Onset::S, Nucleus::U, Coda::N) => Some('4'),
            (Onset::S, Nucleus::I, Coda::N) => Some('C'),
        }
    }

    /// Appends this syllable's rendering in the given script to `buf`.
    /// Neighbor context must reflect the final state of the name: rendering
    /// happens strictly after the whole sequence is built.
    #[verifier::rlimit(100)]
    pub fn write(&self, buf: &mut Vec<char>, script: Script, prev: Option<&Syllable>, next: Option<&Syllable>)
        requires
            renderable(*self, script),
        ensures
            final(buf)@ == old(buf)@ + render_syllable(*self, script, opt_deref(prev), opt_deref(next)),
    {
        match script {
            Script::LatinTitleCase => {
                if prev.is_none() {
                    match self.onset.latin_char_upper() {
                        Some(c) => {
                            buf.push(c);
                            buf.push(self.nucleus.latin_char());
                        },
                        None => {
                            buf.push(self.nucleus.latin_char_upper());
                        },
                    }
                } else {
                    match self.onset.latin_char() {
                        Some(c) => buf.push(c),
                        None => {},
                    }
                    buf.push(self.nucleus.latin_char());
                }
                match self.coda.latin_char() {
                    Some(c) => buf.push(c),
                    None => {},
                }
                proof {
                    assert(buf@ =~= old(buf)@ + render_syllable(
                        *self,
                        script,
                        opt_deref(prev),
                        opt_deref(next),
                    ));
                }
            },
            Script::Latin => {
                match self.onset.latin_char() {
                    Some(c) => buf.push(c),
                    None => {},
                }
                buf.push(self.nucleus.latin_char());
                match self.coda.latin_char() {
                    Some(c) => buf.push(c),
                    None => {},
                }
                proof {
                    assert(buf@ =~= old(buf)@ + render_syllable(
                        *self,
                        script,
                        opt_deref(prev),
                        opt_deref(next),
                    ));
                }
            },
            Script::Cyrillic => {
                if self.onset == Onset::J {
                    match self.nucleus.iotated_cyrillic_char() {
                        Some(c) => buf.push(c),
                        None => {},
                    }
                } else {
                    match self.onset.cyrillic_char() {
                        Some(c) => buf.push(c),
                        None => {},
                    }
                    buf.push(self.nucleus.cyrillic_char());
                }
                match self.coda.cyrillic_char() {
                    Some(c) => buf.push(c),
                    None => {},
                }
                proof {
                    assert(buf@ =~= old(buf)@ + render_syllable(
                        *self,
                        script,
                        opt_deref(prev),
                        opt_deref(next),
                    ));
                }
            },
            Script::Greek => {
                match self.onset.greek_char() {
                    Some(c) => buf.push(c),
                    None => {},
                }
                buf.push(self.nucleus.greek_char());
                match self.coda.greek_char() {
                    Some(c) => buf.push(c),
                    None => {},
                }
                proof {
                    assert(buf@ =~= old(buf)@ + render_syllable(
                        *self,
                        script,
                        opt_deref(prev),
                        opt_deref(next),
                    ));
                }
            },
            Script::Hebrew => {
                buf.push(self.onset.hebrew_char());
                buf.push(self.nucleus.hebrew_char());
                match self.coda.hebrew_char(next.is_none()) {
                    Some(c) => buf.push(c),
                    None => {},
                }
                proof {
                    assert(buf@ =~= old(buf)@ + render_syllable(
                        *self,
                        script,
                        opt_deref(prev),
                        opt_deref(next),
                    ));
                }
            },
            Script::Devanagari => {
                match self.onset.devanagari_char() {
                    Some(c) => {
                        buf.push(c);
                        match self.nucleus.devanagari_modifier_char() {
                            Some(m) => buf.push(m),
                            None => {},
                        }
                    },
                    None => {
                        buf.push(self.nucleus.devanagari_char());
                    },
                }
                match self.coda.devanagari_char() {
                    Some(c) => buf.push(c),
                    None => {},
                }
                proof {
                    assert(buf@ =~= old(buf)@ + render_syllable(
                        *self,
                        script,
                        opt_deref(prev),
                        opt_deref(next),
                    ));
                }
            },
            Script::Hangul => {
                match self.hangul_char() {
                    Some(c) => buf.push(c),
                    None => {
                        proof {
                            lemma_reachable_triples_covered(*self);
                        }
                    },
                }
                proof {
                    assert(buf@ =~= old(buf)@ + render_syllable(
                        *self,
                        script,
                        opt_deref(prev),
                        opt_deref(next),
                    ));
                }
            },
            Script::Arabic => {
                buf.push(self.onset.arabic_char());
                let pair = self.nucleus.arabic_chars(self.coda);
                buf.push(pair.0);
                match pair.1 {
                    Some(c) => buf.push(c),
                    None => {},
                }
                proof {
                    assert(buf@ =~= old(buf)@ + render_syllable(
                        *self,
                        script,
                        opt_deref(prev),
                        opt_deref(next),
                    ));
                }
            },
            Script::Ascii => {
                match self.ascii_char() {
                    Some(c) => buf.push(c),
                    None => {
                        proof {
                            lemma_reachable_triples_covered(*self);
                        }
                    },
                }
                proof {
                    assert(buf@ =~= old(buf)@ + render_syllable(
                        *self,
                        script,
                        opt_deref(prev),
                        opt_deref(next),
                    ));
                }
            },
            Script::Gujarati => {
                match self.onset.gujarati_char() {
                    Some(c) => {
                        buf.push(c);
                        buf.push(self.nucleus.gujarati_modifier_char());
                    },
                    None => {
                        buf.push(self.nucleus.gujarati_char());
                    },
                }
                match self.coda.gujarati_char(next.is_none()) {
                    Some(p) => {
                        buf.push(p.0);
                        match p.1 {
                            Some(c) => buf.push(c),
                            None => {},
                        }
                    },
                    None => {},
                }
                proof {
                    assert(buf@ =~= old(buf)@ + render_syllable(
                        *self,
                        script,
                        opt_deref(prev),
                        opt_deref(next),
                    ));
                }
            },
            Script::Kannada => {
                match self.onset.kannada_char() {
                    Some(c) => {
                        buf.push(c);
                        match self.nucleus.kannada_modifier_char() {
                            Some(m) => buf.push(m),
                            None => {},
                        }
                    },
                    None => {
                        buf.push(self.nucleus.kannada_char());
                    },
                }
                match self.coda.kannada_char(next.is_none()) {
                    Some(p) => {
                        buf.push(p.0);
                        match p.1 {
                            Some(c) => buf.push(c),
                            None => {},
                        }
                    },
                    None => {},
                }
                proof {
                    assert(buf@ =~= old(buf)@ + render_syllable(
                        *self,
                        script,
                        opt_deref(prev),
                        opt_deref(next),
                    ));
                }
            },
            Script::Syllabics => {
                match self.onset.syllabics_char(self.nucleus) {
                    Some(c) => buf.push(c),
                    None => {
                        proof {
                            lemma_reachable_triples_covered(*self);
                        }
                    },
                }
                match self.coda.syllabics_char() {
                    Some(c) => buf.push(c),
                    None => {},
                }
                proof {
                    assert(buf@ =~= old(buf)@ + render_syllable(
                        *self,
                        script,
                        opt_deref(prev),
                        opt_deref(next),
                    ));
                }
            },
            Script::Shavian => {
                match self.onset.shavian_char() {
                    Some(c) => buf.push(c),
                    None => {},
                }
                buf.push(self.nucleus.shavian_char());
                match self.coda.shavian_char() {
                    Some(c) => buf.push(c),
                    None => {},
                }
                proof {
                    assert(buf@ =~= old(buf)@ + render_syllable(
                        *self,
                        script,
                        opt_deref(prev),
                        opt_deref(next),
                    ));
                }
            },
            Script::Hiragana => {
                match self.onset.hiragana_char(self.nucleus) {
                    Some(c) => buf.push(c),
                    None => {
                        proof {
                            lemma_reachable_triples_covered(*self);
                        }
                    },
                }
                match self.coda.hiragana_char() {
                    Some(c) => buf.push(c),
                    None => {},
                }
                proof {
                    assert(buf@ =~= old(buf)@ + render_syllable(
                        *self,
                        script,
                        opt_deref(prev),
                        opt_deref(next),
                    ));
                }
            },
            Script::Katakana => {
                match self.onset.katakana_char(self.nucleus) {
                    Some(c) => buf.push(c),
                    None => {
                        proof {
                            lemma_reachable_triples_covered(*self);
                        }
                    },
                }
                match self.coda.katakana_char() {
                    Some(c) => buf.push(c),
                    None => {},
                }
                proof {
                    assert(buf@ =~= old(buf)@ + render_syllable(
                        *self,
                        script,
                        opt_deref(prev),
                        opt_deref(next),
                    ));
                }
            },
            Script::Futhark => {
                match self.onset.futhark_char() {
                    Some(c) => buf.push(c),
                    None => {},
                }
                buf.push(self.nucleus.futhark_char());
                match self.coda.futhark_char() {
                    Some(c) => buf.push(c),
                    None => {},
                }
                proof {
                    assert(buf@ =~= old(buf)@ + render_syllable(
                        *self,
                        script,
                        opt_deref(prev),
                        opt_deref(next),
                    ));
                }
            },
            Script::Gothic => {
                match self.onset.gothic_char() {
                    Some(c) => buf.push(c),
                    None => {},
                }
                buf.push(self.nucleus.gothic_char());
                match self.coda.gothic_char() {
                    Some(c) => buf.push(c),
                    None => {},
                }
                proof {
                    assert(buf@ =~= old(buf)@ + render_syllable(
                        *self,
                        script,
                        opt_deref(prev),
                        opt_deref(next),
                    ));
                }
            },
            Script::Ogham => {
                match self.onset.ogham_char() {
                    Some(c) => buf.push(c),
                    None => {},
                }
                buf.push(self.nucleus.ogham_char());
                match self.coda.ogham_char() {
                    Some(c) => buf.push(c),
                    None => {},
                }
                proof {
                    assert(buf@ =~= old(buf)@ + render_syllable(
                        *self,
                        script,
                        opt_deref(prev),
                        opt_deref(next),
                    ));
                }
            },
            Script::Georgian => {
                match self.onset.mkhedruli_char() {
                    Some(c) => buf.push(c),
                    None => {},
                }
                buf.push(self.nucleus.mkhedruli_char());
                match self.coda.mkhedruli_char() {
                    Some(c) => buf.push(c),
                    None => {},
                }
                proof {
                    assert(buf@ =~= old(buf)@ + render_syllable(
                        *self,
                        script,
                        opt_deref(prev),
                        opt_deref(next),
                    ));
                }
            },
            Script::Orkhon => {
                let onset_pair = self.onset.orkhon_char(prev, self.nucleus.is_back());
                match onset_pair.0 {
                    Some(c) => buf.push(c),
                    None => {},
                }
                match self.nucleus.orkhon_char(onset_pair.1) {
                    Some(c) => buf.push(c),
                    None => {},
                }
                match self.coda.orkhon_char(next) {
                    Some(c) => buf.push(c),
                    None => {},
                }
                proof {
                    assert(buf@ =~= old(buf)@ + render_syllable(
                        *self,
                        script,
                        opt_deref(prev),
                        opt_deref(next),
                    ));
                }
            },
        }
    }
}

/// Orkhon vowel-harmony allomorphy: an onset of T or J directly after a
/// syllable whose coda is N renders as the nasal ligature glyph, with the
/// vowel written separately, instead of the independent backness-encoding
/// onset form; and the preceding nasal coda's own glyph is suppressed.
pub proof fn lemma_orkhon_nasal_ligature(s: Syllable, p: Syllable)
    requires
        p.coda == Coda::N,
        s.onset == Onset::T || s.onset == Onset::J,
    ensures
        orkhon_onset(s.onset, Some(p), s.nucleus.is_back_spec()) == (Some(
            if s.onset == Onset::T {
                '\u{10c26}'
            } else {
                '\u{10c2a}'
            },
        ), false),
        orkhon_coda(p.coda, Some(s)) is None,
{
}

} // verus!
