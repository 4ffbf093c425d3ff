use ilo_nimi::{Coda, Name, Nucleus, Onset, Script, Syllable};

fn syl(onset: Onset, nucleus: Nucleus, coda: Coda) -> Syllable {
    Syllable { onset, nucleus, coda }
}

fn name(syllables: Vec<Syllable>) -> Name {
    Name { syllables }
}

#[test]
fn latin_concatenates_glyphs() {
    let n = name(vec![
        syl(Onset::Null, Nucleus::A, Coda::Null),
        syl(Onset::P, Nucleus::A, Coda::N),
        syl(Onset::T, Nucleus::E, Coda::Null),
    ]);
    assert_eq!(n.write(Script::Latin), "apante");
}

#[test]
fn title_case_capitalizes_only_first_syllable() {
    let n = name(vec![
        syl(Onset::Null, Nucleus::A, Coda::Null),
        syl(Onset::P, Nucleus::A, Coda::N),
        syl(Onset::T, Nucleus::E, Coda::Null),
    ]);
    assert_eq!(n.write(Script::LatinTitleCase), "Apante");

    let with_onset = name(vec![syl(Onset::K, Nucleus::A, Coda::Null), syl(Onset::K, Nucleus::A, Coda::Null)]);
    assert_eq!(with_onset.write(Script::LatinTitleCase), "Kaka");
}

#[test]
fn cyrillic_iotates_j_onset() {
    let n = name(vec![syl(Onset::J, Nucleus::A, Coda::N)]);
    assert_eq!(n.write(Script::Cyrillic), "ян");
    let plain = name(vec![syl(Onset::P, Nucleus::E, Coda::Null)]);
    assert_eq!(plain.write(Script::Cyrillic), "пэ");
}

#[test]
fn hebrew_nonfinal_and_final_nasal_letterforms() {
    // The middle syllable's coda must use the medial nun, not the final one.
    let three = name(vec![
        syl(Onset::Null, Nucleus::A, Coda::Null),
        syl(Onset::P, Nucleus::A, Coda::N),
        syl(Onset::T, Nucleus::I, Coda::Null),
    ]);
    let written = three.write(Script::Hebrew);
    assert_eq!(written, "\u{05d0}\u{05b8}\u{05e4}\u{05b8}\u{05e0}\u{05d8}\u{05b4}");
    assert!(written.contains('\u{05e0}'));
    assert!(!written.contains('\u{05df}'));

    // The same nasal coda in word-final position takes the final letterform.
    let last = name(vec![syl(Onset::Null, Nucleus::A, Coda::Null), syl(Onset::P, Nucleus::A, Coda::N)]);
    let written = last.write(Script::Hebrew);
    assert_eq!(written, "\u{05d0}\u{05b8}\u{05e4}\u{05b8}\u{05df}");
    assert!(written.ends_with('\u{05df}'));
}

#[test]
fn hangul_whole_syllable_blocks() {
    let n = name(vec![syl(Onset::K, Nucleus::A, Coda::N)]);
    assert_eq!(n.write(Script::Hangul), "간");
    let v = name(vec![syl(Onset::Null, Nucleus::A, Coda::Null)]);
    assert_eq!(v.write(Script::Hangul), "아");
}

#[test]
fn ascii_substitution_table() {
    let n = name(vec![syl(Onset::Null, Nucleus::U, Coda::Null), syl(Onset::S, Nucleus::I, Coda::N)]);
    assert_eq!(n.write(Script::Ascii), "0C");
}

#[test]
fn arabic_diacritics_and_long_vowels() {
    let i = name(vec![syl(Onset::Null, Nucleus::I, Coda::Null)]);
    assert_eq!(i.write(Script::Arabic), "\u{0627}\u{0650}\u{064a}");
    let pan = name(vec![syl(Onset::P, Nucleus::A, Coda::N)]);
    assert_eq!(pan.write(Script::Arabic), "\u{0628}\u{064b}");
}

#[test]
fn devanagari_inherent_vowel_and_modifiers() {
    assert_eq!(name(vec![syl(Onset::K, Nucleus::A, Coda::Null)]).write(Script::Devanagari), "क");
    assert_eq!(name(vec![syl(Onset::K, Nucleus::E, Coda::Null)]).write(Script::Devanagari), "के");
    assert_eq!(name(vec![syl(Onset::Null, Nucleus::E, Coda::Null)]).write(Script::Devanagari), "ए");
    assert_eq!(name(vec![syl(Onset::K, Nucleus::A, Coda::N)]).write(Script::Devanagari), "कं");
}

#[test]
fn gujarati_final_vs_nonfinal_nasal() {
    let final_nasal = name(vec![syl(Onset::K, Nucleus::A, Coda::N)]);
    assert_eq!(final_nasal.write(Script::Gujarati), "\u{0a95}\u{0abe}\u{0aa8}");
    let medial_nasal = name(vec![syl(Onset::K, Nucleus::A, Coda::N), syl(Onset::K, Nucleus::A, Coda::Null)]);
    assert_eq!(
        medial_nasal.write(Script::Gujarati),
        "\u{0a95}\u{0abe}\u{0aa8}\u{0acd}\u{0a95}\u{0abe}"
    );
}

#[test]
fn kannada_final_vs_nonfinal_nasal() {
    let final_nasal = name(vec![syl(Onset::K, Nucleus::A, Coda::N)]);
    assert_eq!(final_nasal.write(Script::Kannada), "\u{0c95}\u{0ca8}\u{0ccd}");
    let medial_nasal = name(vec![syl(Onset::K, Nucleus::A, Coda::N), syl(Onset::K, Nucleus::A, Coda::Null)]);
    assert_eq!(medial_nasal.write(Script::Kannada), "\u{0c95}\u{0c82}\u{0c95}");
}

#[test]
fn syllabics_blocks() {
    let n = name(vec![syl(Onset::P, Nucleus::A, Coda::N)]);
    assert_eq!(n.write(Script::Syllabics), "ᐸᓐ");
}

#[test]
fn simple_scripts_single_syllable() {
    let ka = name(vec![syl(Onset::K, Nucleus::A, Coda::Null)]);
    assert_eq!(ka.write(Script::Greek), "κα");
    assert_eq!(ka.write(Script::Shavian), "\u{10452}\u{10468}");
    assert_eq!(ka.write(Script::Futhark), "ᚲᚨ");
    assert_eq!(ka.write(Script::Gothic), "𐌺𐌰");
    assert_eq!(ka.write(Script::Ogham), "ᚉᚐ");
    assert_eq!(ka.write(Script::Georgian), "ქა");
    assert_eq!(ka.write(Script::Hiragana), "か");
    assert_eq!(ka.write(Script::Katakana), "カ");
}

#[test]
fn orkhon_nasal_ligature_after_nasal_coda() {
    // The T onset after a nasal coda renders the ligature; the preceding
    // nasal coda's own glyph is suppressed.
    let n = name(vec![syl(Onset::S, Nucleus::A, Coda::N), syl(Onset::T, Nucleus::E, Coda::Null)]);
    let written = n.write(Script::Orkhon);
    assert_eq!(written, "\u{10c3d}\u{10c26}\u{10c05}");

    // Without the nasal context the same onset takes its independent
    // backness-encoding form and the vowel glyph is suppressed.
    let plain = name(vec![syl(Onset::S, Nucleus::A, Coda::Null), syl(Onset::T, Nucleus::E, Coda::Null)]);
    assert_eq!(plain.write(Script::Orkhon), "\u{10c3d}\u{10c45}\u{10c05}");
}

#[test]
fn orkhon_w_elision_after_open_back_rounded_vowel() {
    let n = name(vec![syl(Onset::K, Nucleus::O, Coda::Null), syl(Onset::W, Nucleus::A, Coda::Null)]);
    assert_eq!(n.write(Script::Orkhon), "\u{10c34}\u{10c06}\u{10c00}");
}

#[test]
fn rendering_is_deterministic_per_script() {
    let syllables = vec![
        syl(Onset::Null, Nucleus::A, Coda::N),
        syl(Onset::T, Nucleus::O, Coda::Null),
        syl(Onset::J, Nucleus::U, Coda::N),
        syl(Onset::W, Nucleus::E, Coda::Null),
    ];
    let scripts = [
        Script::Arabic,
        Script::Ascii,
        Script::Cyrillic,
        Script::Devanagari,
        Script::Greek,
        Script::Gujarati,
        Script::Hangul,
        Script::Kannada,
        Script::Hebrew,
        Script::Latin,
        Script::LatinTitleCase,
        Script::Syllabics,
        Script::Shavian,
        Script::Hiragana,
        Script::Katakana,
        Script::Futhark,
        Script::Gothic,
        Script::Ogham,
        Script::Georgian,
        Script::Orkhon,
    ];
    for script in scripts {
        let a = name(syllables.clone()).write(script);
        let b = name(syllables.clone()).write(script);
        assert_eq!(a, b);
        assert!(!a.is_empty());
    }
}
