use worldgen::density_function::noise::instantiate_noise;
use worldgen::noise::improved_noise::{gradient, ImprovedNoise};
use worldgen::noise::normal::{active_range, NormalNoise};
use worldgen::noise::perlin::{octave_key, PerlinNoise};
use worldgen::noise::settings::NoiseSettings;
use worldgen::noise::NoiseError;
use worldgen::random::random_state::RandomState;
use worldgen::random::xoroshiro::XoroshiroRandom;
use worldgen::random::{Kind, RandomSource};

fn seed_zero_noise() -> (ImprovedNoise, RandomSource) {
    let mut r = RandomSource::Xoroshiro(XoroshiroRandom::new(0));
    let n = ImprovedNoise::new(&mut r);
    (n, r)
}

#[test]
fn improved_noise_draws_origin_then_table() {
    let (n, mut r) = seed_zero_noise();
    assert_eq!(n.origin_numerators(), (1483879275744746, 7203469134254840, 2262574125342359));
    let first: Vec<i32> = (0..8).map(|i| n.p(i)).collect();
    assert_eq!(first, vec![79, 225, 253, 23, 87, 169, 96, 152]);
    let last: Vec<i32> = (252..256).map(|i| n.p(i)).collect();
    assert_eq!(last, vec![5, 155, 164, 230]);
    assert_eq!(r.next_i64(), -6552665712919197473);
}

#[test]
fn improved_noise_table_is_permutation() {
    let (n, _) = seed_zero_noise();
    let mut seen = vec![false; 256];
    for i in 0..256 {
        let v = n.p(i) as usize;
        assert!(!seen[v]);
        seen[v] = true;
    }
    assert!(seen.iter().all(|s| *s));
}

#[test]
fn improved_noise_lookup_wraps() {
    let (n, _) = seed_zero_noise();
    assert_eq!(n.p(-1), 230);
    assert_eq!(n.p(255), 230);
    assert_eq!(n.p(256), 79);
    assert_eq!(n.p(-256), 79);
}

#[test]
fn improved_noise_corner_hashes() {
    let (n, _) = seed_zero_noise();
    assert_eq!(n.corner_hashes(0, 0, 0), vec![237, 226, 170, 99, 154, 86, 54, 224]);
    assert_eq!(n.corner_hashes(-5, 17, -300), vec![202, 14, 55, 104, 147, 208, 221, 19]);
}

#[test]
fn gradient_table() {
    assert_eq!(gradient(0), (1, 1, 0));
    assert_eq!(gradient(3), (-1, -1, 0));
    assert_eq!(gradient(7), (-1, 0, -1));
    assert_eq!(gradient(12), (1, 1, 0));
    assert_eq!(gradient(13), (0, -1, 1));
    assert_eq!(gradient(15), (0, -1, -1));
    assert_eq!(gradient(16 + 14), (-1, 1, 0));
    assert_eq!(gradient(255), (0, -1, -1));
}

#[test]
fn octave_keys() {
    assert_eq!(octave_key(-8), b"octave_-8".to_vec());
    assert_eq!(octave_key(0), b"octave_0".to_vec());
    assert_eq!(octave_key(12), b"octave_12".to_vec());
    assert_eq!(octave_key(i32::MIN), b"octave_-2147483648".to_vec());
    assert_eq!(octave_key(i32::MAX), b"octave_2147483647".to_vec());
}

#[test]
fn perlin_builds_active_octaves() {
    let mut r = RandomSource::Xoroshiro(XoroshiroRandom::new(0));
    let p = PerlinNoise::new(&mut r, -8, &vec![true, false, true]);
    assert_eq!(p.len(), 3);
    assert_eq!(p.first_octave(), -8);
    assert!(p.level(0).is_some());
    assert!(p.level(1).is_none());
    assert!(p.level(2).is_some());
    let lowest = p.level(0).as_ref().unwrap();
    assert_eq!(lowest.origin_numerators(), (6333210069303828, 4531871807486017, 7117929154949189));
    let first: Vec<i32> = (0..4).map(|i| lowest.p(i)).collect();
    assert_eq!(first, vec![8, 255, 166, 101]);
    // Building the octaves takes two draws from the parent, for its factory.
    assert_eq!(r.next_i64(), 4633751808701151732);
}

#[test]
fn perlin_without_octaves() {
    let mut r = RandomSource::Xoroshiro(XoroshiroRandom::new(0));
    let p = PerlinNoise::new(&mut r, 0, &vec![]);
    assert_eq!(p.len(), 0);
}

#[test]
fn perlin_legacy_nether_is_unimplemented() {
    let mut r = Kind::LegacyRandom.new_instance(1);
    assert!(matches!(
        PerlinNoise::new_legacy_nether(&mut r, -3, &vec![true]),
        Err(NoiseError::Unimplemented)
    ));
}

#[test]
fn normal_noise_on_legacy_source_is_unimplemented() {
    let mut r = Kind::LegacyRandom.new_instance(1);
    assert!(matches!(NormalNoise::new(&mut r, -3, &vec![true]), Err(NoiseError::Unimplemented)));
}

#[test]
fn normal_noise_octave_count() {
    let mut r = Kind::Xoroshiro.new_instance(1);
    let n = NormalNoise::new(&mut r, -7, &vec![false, true, false, true, false]).unwrap();
    assert_eq!(n.octave_count(), 3);
    assert_eq!(n.first().len(), 5);
    assert_eq!(n.second().len(), 5);
    let mut r = Kind::Xoroshiro.new_instance(1);
    let none = NormalNoise::new(&mut r, 0, &vec![false, false]).unwrap();
    assert_eq!(none.octave_count(), 2);
}

#[test]
fn normal_noise_second_sum_follows_first() {
    let mut r = Kind::Xoroshiro.new_instance(1);
    let n = NormalNoise::new(&mut r, -2, &vec![true]).unwrap();
    let mut r2 = Kind::Xoroshiro.new_instance(1);
    let first = PerlinNoise::new(&mut r2, -2, &vec![true]);
    let second = PerlinNoise::new(&mut r2, -2, &vec![true]);
    let a = n.first().level(0).as_ref().unwrap();
    let b = n.second().level(0).as_ref().unwrap();
    assert_eq!(a.origin_numerators(), first.level(0).as_ref().unwrap().origin_numerators());
    assert_eq!(b.origin_numerators(), second.level(0).as_ref().unwrap().origin_numerators());
    assert_ne!(a.origin_numerators(), b.origin_numerators());
}

#[test]
fn active_ranges() {
    assert_eq!(active_range(&vec![]), None);
    assert_eq!(active_range(&vec![false, false]), None);
    assert_eq!(active_range(&vec![false, true, false, true, false]), Some((1, 3)));
    assert_eq!(active_range(&vec![true]), Some((0, 0)));
}

#[test]
fn noise_from_random_state() {
    let state = RandomState::new(Kind::Xoroshiro, 6646468147532173577);
    let n = instantiate_noise("minecraft:temperature", &state, -10, &vec![true, true]).unwrap();
    let mut source = state.noise_source("minecraft:temperature");
    let first = PerlinNoise::new(&mut source, -10, &vec![true, true]);
    assert_eq!(
        n.first().level(1).as_ref().unwrap().origin_numerators(),
        first.level(1).as_ref().unwrap().origin_numerators()
    );
    let legacy = RandomState::new(Kind::LegacyRandom, 1);
    assert!(matches!(
        instantiate_noise("minecraft:temperature", &legacy, -10, &vec![true]),
        Err(NoiseError::Unimplemented)
    ));
}

#[test]
fn noise_cell_sizes() {
    let s = NoiseSettings { min_y: -64, height: 384, xz_size: 1, y_size: 2 };
    assert_eq!(s.cell_width(), 4);
    assert_eq!(s.cell_height(), 8);
}
