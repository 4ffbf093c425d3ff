use ilo_nimi::{Coda, Name, NameGenerator, Nucleus, Onset, Script, SyllableCountDistribution};
use rand::rngs::SmallRng;
use rand::SeedableRng;
use rand_distr::{Distribution, Poisson};

/// The rejection loop around the library's single attempt, as a caller of
/// the engine runs it: draw the Poisson surplus, build a candidate, retry
/// until one is accepted.
fn generate_name(generator: &NameGenerator, rng: &mut SmallRng) -> Name {
    let poisson = match generator.syllable_count {
        SyllableCountDistribution::Fixed(_) => None,
        SyllableCountDistribution::Poisson(_, rate) => Some(Poisson::new(f64::from(rate)).unwrap()),
    };
    loop {
        let extra = match &poisson {
            None => 0,
            Some(p) => p.sample(rng) as u32,
        };
        if let Ok(name) = generator.attempt(rng, extra) {
            return name;
        }
    }
}

#[test]
fn generated_length_within_bounds() {
    let bounds = [(1, None), (3, None), (6, Some(6)), (2, Some(5)), (4, Some(4)), (10, Some(14))];
    for (min_length, max_length) in bounds {
        let generator = NameGenerator::new(min_length, max_length);
        for seed in 0..40u64 {
            let mut rng = SmallRng::seed_from_u64(seed);
            let name = generate_name(&generator, &mut rng);
            let len = name.len();
            assert!(len >= u64::from(min_length));
            if let Some(max) = max_length {
                assert!(len <= u64::from(max));
            }
        }
    }
}

#[test]
fn rejected_candidates_really_violate_bounds() {
    let generator = NameGenerator::new(6, Some(6));
    let mut rejections = 0;
    for seed in 0..60u64 {
        let mut rng = SmallRng::seed_from_u64(seed);
        let poisson = Poisson::new(1.0f64).unwrap();
        for _ in 0..10 {
            let extra = poisson.sample(&mut rng) as u32;
            if let Err(len) = generator.attempt(&mut rng, extra) {
                assert!(len != 6);
                rejections += 1;
            }
        }
    }
    assert!(rejections > 0);
}

#[test]
fn no_nasal_coda_before_nasal_onset() {
    let generator = NameGenerator::new(8, Some(20));
    for seed in 0..120u64 {
        let mut rng = SmallRng::seed_from_u64(seed);
        let name = generate_name(&generator, &mut rng);
        for pair in name.syllables.windows(2) {
            if matches!(pair[0].coda, Coda::N) {
                assert!(!matches!(pair[1].onset, Onset::M | Onset::N));
            }
        }
    }
}

#[test]
fn nucleus_exclusions_hold() {
    let generator = NameGenerator::new(8, Some(20));
    for seed in 0..120u64 {
        let mut rng = SmallRng::seed_from_u64(seed);
        let name = generate_name(&generator, &mut rng);
        for s in &name.syllables {
            if matches!(s.onset, Onset::T | Onset::J) {
                assert!(!matches!(s.nucleus, Nucleus::I));
            }
            if matches!(s.onset, Onset::W) {
                assert!(!matches!(s.nucleus, Nucleus::O | Nucleus::U));
            }
        }
    }
}

#[test]
fn only_first_syllable_may_lack_an_onset() {
    let generator = NameGenerator::new(8, Some(20));
    for seed in 0..60u64 {
        let mut rng = SmallRng::seed_from_u64(seed);
        let name = generate_name(&generator, &mut rng);
        for s in &name.syllables[1..] {
            assert!(!matches!(s.onset, Onset::Null));
        }
    }
}

#[test]
fn bounds_determine_the_count_distribution() {
    // min 4 needs two syllables and max 4 allows two: the count is fixed.
    let fixed = NameGenerator::new(4, Some(4));
    assert_eq!(fixed.syllable_count, SyllableCountDistribution::Fixed(2));
    // min 6 needs two syllables but max 6 allows three: Poisson with rate 1.
    let spread = NameGenerator::new(6, Some(6));
    assert_eq!(spread.syllable_count, SyllableCountDistribution::Poisson(2, 1));
    // Without a maximum the implicit ceiling applies.
    let open = NameGenerator::new(1, None);
    assert_eq!(open.syllable_count, SyllableCountDistribution::Poisson(1, 3));
}

#[test]
fn six_six_accepts_only_exact_length() {
    let generator = NameGenerator::new(6, Some(6));
    for seed in 0..80u64 {
        let mut rng = SmallRng::seed_from_u64(seed);
        let name = generate_name(&generator, &mut rng);
        assert_eq!(name.len(), 6);
        let count = name.syllables.len();
        assert!(count == 2 || count == 3);
    }
}

#[test]
fn minimal_bounds_reach_single_vowel_name() {
    // With bounds (1, None) a length-one name is a single syllable on the
    // null-onset nucleus path; some seed must reach it.
    let generator = NameGenerator::new(1, None);
    let mut found = false;
    for seed in 0..400u64 {
        let mut rng = SmallRng::seed_from_u64(seed);
        let name = generate_name(&generator, &mut rng);
        if name.len() == 1 {
            assert_eq!(name.syllables.len(), 1);
            assert!(matches!(name.syllables[0].onset, Onset::Null));
            assert!(matches!(name.syllables[0].coda, Coda::Null));
            let written = name.write(Script::Latin);
            assert_eq!(written.chars().count(), 1);
            assert!("aeiou".contains(&written));
            found = true;
            break;
        }
    }
    assert!(found);
}

#[test]
fn minimal_bounds_accept_every_first_attempt() {
    // With minimum length one and no maximum, every candidate length is
    // acceptable, so no attempt is ever rejected.
    let generator = NameGenerator::new(1, None);
    let rate = match generator.syllable_count {
        SyllableCountDistribution::Poisson(_, rate) => rate,
        SyllableCountDistribution::Fixed(_) => panic!("open bounds give a spread count"),
    };
    let poisson = Poisson::new(f64::from(rate)).unwrap();
    for seed in 0..60u64 {
        let mut rng = SmallRng::seed_from_u64(seed);
        let extra = poisson.sample(&mut rng) as u32;
        assert!(generator.attempt(&mut rng, extra).is_ok());
    }
}

#[test]
fn nasal_codas_occur() {
    let generator = NameGenerator::new(8, Some(20));
    let mut seen = false;
    for seed in 0..60u64 {
        let mut rng = SmallRng::seed_from_u64(seed);
        let name = generate_name(&generator, &mut rng);
        if name.syllables.iter().any(|s| matches!(s.coda, Coda::N)) {
            seen = true;
            break;
        }
    }
    assert!(seen);
}

#[test]
fn fixed_count_always_builds_that_count() {
    let generator = NameGenerator::new(4, Some(4));
    assert_eq!(generator.syllable_count, SyllableCountDistribution::Fixed(2));
    for seed in 0..40u64 {
        let mut rng = SmallRng::seed_from_u64(seed);
        let name = generate_name(&generator, &mut rng);
        assert_eq!(name.syllables.len(), 2);
        assert_eq!(name.len(), 4);
    }
}

#[test]
fn fixed_count_ignores_surplus() {
    let generator = NameGenerator::new(4, Some(4));
    for seed in 0..20u64 {
        let mut rng_a = SmallRng::seed_from_u64(seed);
        let mut rng_b = SmallRng::seed_from_u64(seed);
        let a = generator.attempt(&mut rng_a, 0);
        let b = generator.attempt(&mut rng_b, 17);
        match (a, b) {
            (Ok(na), Ok(nb)) => assert_eq!(na.write(Script::Latin), nb.write(Script::Latin)),
            (Err(la), Err(lb)) => assert_eq!(la, lb),
            _ => panic!("fixed-count attempts diverged"),
        }
    }
}

#[test]
fn seeded_generation_is_reproducible() {
    let generator = NameGenerator::new(3, Some(9));
    for seed in 0..20u64 {
        let mut rng_a = SmallRng::seed_from_u64(seed);
        let mut rng_b = SmallRng::seed_from_u64(seed);
        let a = generate_name(&generator, &mut rng_a).write(Script::Latin);
        let b = generate_name(&generator, &mut rng_b).write(Script::Latin);
        assert_eq!(a, b);
    }
}
