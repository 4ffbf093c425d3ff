use ilo_nimi::{Coda, Nucleus, Onset, Syllable};

fn all_onsets() -> Vec<Onset> {
    vec![
        Onset::Null,
        Onset::P,
        Onset::T,
        Onset::K,
        Onset::S,
        Onset::M,
        Onset::N,
        Onset::L,
        Onset::J,
        Onset::W,
    ]
}

fn all_nuclei() -> Vec<Nucleus> {
    vec![Nucleus::A, Nucleus::E, Nucleus::I, Nucleus::O, Nucleus::U]
}

fn all_codas() -> Vec<Coda> {
    vec![Coda::Null, Coda::N]
}

fn excluded(onset: Onset, nucleus: Nucleus) -> bool {
    (matches!(onset, Onset::T | Onset::J) && matches!(nucleus, Nucleus::I))
        || (matches!(onset, Onset::W) && matches!(nucleus, Nucleus::O | Nucleus::U))
}

#[test]
fn reachable_triples_covered_in_block_tables() {
    // Every (onset, nucleus, coda) triple the sampler can produce has an
    // entry in each exhaustive glyph table.
    for onset in all_onsets() {
        for nucleus in all_nuclei() {
            if excluded(onset, nucleus) {
                continue;
            }
            for coda in all_codas() {
                let s = Syllable { onset, nucleus, coda };
                assert!(s.hangul_char().is_some());
                assert!(s.ascii_char().is_some());
            }
            assert!(onset.syllabics_char(nucleus).is_some());
            assert!(onset.hiragana_char(nucleus).is_some());
            assert!(onset.katakana_char(nucleus).is_some());
            if matches!(onset, Onset::J) {
                assert!(nucleus.iotated_cyrillic_char().is_some());
            }
        }
    }
}

#[test]
fn excluded_pairs_have_no_block_entry() {
    for onset in all_onsets() {
        for nucleus in all_nuclei() {
            if !excluded(onset, nucleus) {
                continue;
            }
            for coda in all_codas() {
                let s = Syllable { onset, nucleus, coda };
                assert!(s.hangul_char().is_none());
                assert!(s.ascii_char().is_none());
            }
            assert!(onset.syllabics_char(nucleus).is_none());
            assert!(onset.hiragana_char(nucleus).is_none());
            assert!(onset.katakana_char(nucleus).is_none());
        }
    }
}

#[test]
fn block_glyphs_are_distinct_per_triple() {
    let mut seen = Vec::new();
    for onset in all_onsets() {
        for nucleus in all_nuclei() {
            if excluded(onset, nucleus) {
                continue;
            }
            for coda in all_codas() {
                let s = Syllable { onset, nucleus, coda };
                let h = s.hangul_char().unwrap();
                let a = s.ascii_char().unwrap();
                assert!(!seen.contains(&(h, a)));
                seen.push((h, a));
            }
        }
    }
    assert_eq!(seen.len(), 92);
}

#[test]
fn syllable_length_budget() {
    assert_eq!(Syllable { onset: Onset::Null, nucleus: Nucleus::A, coda: Coda::Null }.len(), 1);
    assert_eq!(Syllable { onset: Onset::P, nucleus: Nucleus::A, coda: Coda::Null }.len(), 2);
    assert_eq!(Syllable { onset: Onset::Null, nucleus: Nucleus::A, coda: Coda::N }.len(), 3);
    assert_eq!(Syllable { onset: Onset::P, nucleus: Nucleus::A, coda: Coda::N }.len(), 4);
}

#[test]
fn backness_of_nuclei() {
    assert!(Nucleus::A.is_back());
    assert!(Nucleus::O.is_back());
    assert!(Nucleus::U.is_back());
    assert!(!Nucleus::E.is_back());
    assert!(!Nucleus::I.is_back());
}
