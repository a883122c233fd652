use worldgen::block_pos::BlockPos;
use worldgen::random::legacy::{LegacyPositionalRandomFactory, LegacyRandom};
use worldgen::random::random_state::RandomState;
use worldgen::random::xoroshiro::{XoroshiroPositionalRandomFactory, XoroshiroRandom};
use worldgen::random::{block_seed, java_string_hash, Kind, PositionalRandomFactory, RandomSource};

#[test]
fn legacy_seed_zero_first_five() {
    let mut r = LegacyRandom::new(0);
    let drawn: Vec<i32> = (0..5).map(|_| r.next_i32()).collect();
    assert_eq!(drawn, vec![-1155484576, -723955400, 1033096058, -1690734402, -1557280266]);
}

#[test]
fn legacy_next_bits_matches_next_i32() {
    let mut a = LegacyRandom::new(0);
    let mut b = LegacyRandom::new(0);
    assert_eq!(a.next_bits(32), b.next_i32());
}

#[test]
fn java_string_hash_of_octave_key() {
    assert_eq!(java_string_hash("octave_-8"), 440898202);
    assert_eq!(java_string_hash("aquifer"), -760080817);
    assert_eq!(java_string_hash("minecraft:temperature"), -549971161);
    assert_eq!(java_string_hash(""), 0);
}

#[test]
fn xoroshiro_with_hash_of_octave_key() {
    let f = PositionalRandomFactory::Xoroshiro(XoroshiroPositionalRandomFactory::from_state(0, 0));
    let mut r = f.with_hash_of("octave_-8");
    assert_eq!(r.next_i64(), -6076800931783987272);
    assert_eq!(r.next_i64(), -8830857010556102217);
    assert_eq!(r.next_i64(), -877121312635981877);
    // The MD5 halves of "octave_-8", installed directly, give the same draws.
    let mut direct = XoroshiroRandom::new_128(1078206144088113246, 5239585857299060288);
    assert_eq!(direct.next_i64(), -6076800931783987272);
}

#[test]
fn xoroshiro_with_hash_of_mixes_factory_state() {
    let f = XoroshiroPositionalRandomFactory::from_state(0x0123456789ABCDEF, 0xFEDCBA9876543210);
    let mut r = f.with_hash_of_bytes(b"octave_-8");
    assert_eq!(r.next_i64(), -5679165187661014480);
    assert_eq!(r.next_i64(), -1757564495243068709);
}

#[test]
fn block_seed_values() {
    assert_eq!(block_seed(0, 0, 0), 0);
    assert_eq!(block_seed(1, 2, 3), -33674130277896);
    assert_eq!(block_seed(-100, 64, 2048), 50472536971916);
    assert_eq!(block_seed(i32::MAX, i32::MIN, 12345), -119635804080489);
}

#[test]
fn xoroshiro_seed_zero_sequence() {
    let mut r = XoroshiroRandom::new(0);
    assert_eq!(r.next_i64(), 3038984756725240190);
    assert_eq!(r.next_i64(), -3694039286755638414);
    assert_eq!(r.next_i64(), 4633751808701151732);
    let mut r = XoroshiroRandom::new(0);
    assert_eq!(r.next_i32(), -160476802);
    assert_eq!(r.next_i32(), 781697906);
    assert_eq!(r.next_i32(), 653572596);
}

#[test]
fn xoroshiro_all_zero_seed_is_replaced() {
    let mut a = XoroshiroRandom::new_128(0, 0);
    let mut b = XoroshiroRandom::new_128(-7046029254386353131, 7640891576956012809);
    assert_eq!(a.next_i64(), b.next_i64());
    assert_ne!(a.next_i64(), 0);
}

#[test]
fn xoroshiro_between_inclusive_sequence() {
    // The heights drawn for a spline sample generated by the reference.
    let expected = vec![
        23, -61, 96, 50, -94, 16, 63, 32, 72, -5, 7, -94, 59, -47, -41, 75, -5, 1, 1, -80, 57,
        20, -79, -85, 39, 68, 78, 74, -11, 44, -15, -38, 48, 72, 82, -96, 50, -14, 61, 36, 70,
        -5, 9, -28, -23, 74, -10, 60, 61, -47, 1, 30, 12, -54, 33, 16, 82, 36, 68, 19, 83, -32,
        -64, 90, 62, -86, -68, -38, 79, 26, -75, 22, 8, 4, 82, -55, 76, 5, -78, 3, 7, 30, -31,
        33, -33, 6, -73, -73, -81, 7, -5, 78, 51, -80, -14, 30, 48, -48, 91, 24, 25, -67, -19,
        -61, 9, -26, -86, -7, 25, -48, -47, -58, 32, -2, -81, 8, 49, -91, -2, -95, -30, 81, 44,
        57, 92, 48, -60, 26,
    ];
    let mut r = RandomSource::Xoroshiro(XoroshiroRandom::new(0x786b544d6f473757));
    for y in expected {
        assert_eq!(r.next_i32_between_inclusive((-96, 96)), y);
    }
}

#[test]
fn legacy_bounded_draws() {
    let mut r = LegacyRandom::new(42);
    let drawn: Vec<i32> = (0..5).map(|_| r.next_i32_bound(10)).collect();
    assert_eq!(drawn, vec![0, 3, 8, 4, 0]);
    let mut r = LegacyRandom::new(42);
    let drawn: Vec<i32> = (0..5).map(|_| r.next_i32_bound(16)).collect();
    assert_eq!(drawn, vec![11, 0, 10, 0, 4]);
}

#[test]
fn xoroshiro_bounded_draws() {
    let mut r = XoroshiroRandom::new(0);
    let drawn: Vec<i32> = (0..5).map(|_| r.next_i32_bound(100)).collect();
    assert_eq!(drawn, vec![96, 18, 15, 31, 88]);
    let mut r = XoroshiroRandom::new(0);
    assert_eq!(r.next_i32_bound(0), 0);
}

#[test]
fn legacy_wide_draws() {
    let mut r = LegacyRandom::new(0);
    assert_eq!(r.next_i64(), -4962768465676381896);
    assert_eq!(r.next_i64(), 4437113781045784766);
    assert_eq!(r.next_i64(), -6688467811848818630);
    let mut r = LegacyRandom::new(0);
    assert_eq!(r.next_f64_numerator(), 6583972509698697);
    assert_eq!(r.next_f64_numerator(), 2166559423974277);
    let mut r = LegacyRandom::new(0);
    assert_eq!(r.next_f32_numerator(), 12263604);
    assert_eq!(r.next_f32_numerator(), 13949265);
    let mut r = LegacyRandom::new(0);
    let bools: Vec<bool> = (0..8).map(|_| r.next_bool()).collect();
    assert_eq!(bools, vec![true, true, false, true, true, false, true, false]);
}

#[test]
fn xoroshiro_wide_draws() {
    let mut r = XoroshiroRandom::new(0);
    assert_eq!(r.next_f64_numerator(), 1483879275744746);
    assert_eq!(r.next_f64_numerator(), 7203469134254840);
    let mut r = XoroshiroRandom::new(0);
    assert_eq!(r.next_f32_numerator(), 2763940);
    assert_eq!(r.next_f32_numerator(), 13417506);
    let mut r = XoroshiroRandom::new(0);
    let bools: Vec<bool> = (0..4).map(|_| r.next_bool()).collect();
    assert_eq!(bools, vec![false, false, false, true]);
}

#[test]
fn set_seed_restarts_sequence() {
    let mut r = RandomSource::Legacy(LegacyRandom::new(5));
    r.next_i64();
    r.set_seed(0);
    assert_eq!(r.next_i32(), -1155484576);
    let mut x = RandomSource::Xoroshiro(XoroshiroRandom::new(5));
    x.next_i64();
    x.set_seed(0);
    assert_eq!(x.next_i64(), 3038984756725240190);
}

#[test]
fn consume_discards_draws() {
    let mut a = RandomSource::Legacy(LegacyRandom::new(0));
    a.consume(3);
    assert_eq!(a.next_i32(), -1690734402);
    let mut b = RandomSource::Xoroshiro(XoroshiroRandom::new(0));
    b.consume(2);
    assert_eq!(b.next_i32(), 653572596);
    let mut c = RandomSource::Legacy(LegacyRandom::new(0));
    c.consume(0);
    assert_eq!(c.next_i32(), -1155484576);
}

#[test]
fn fork_draws_from_parent() {
    let mut l = Kind::LegacyRandom.new_instance(7);
    let mut child = l.fork();
    assert_eq!(child.next_i32(), -1789332407);
    assert_eq!(l.next_i32(), -1077308326);
    assert_eq!(child.kind(), Kind::LegacyRandom);

    let mut x = Kind::Xoroshiro.new_instance(7);
    let mut child = x.fork();
    assert_eq!(child.next_i64(), 2426626644425281742);
    assert_eq!(x.next_i64(), 4190106153678085083);
    assert_eq!(child.kind(), Kind::Xoroshiro);
}

#[test]
fn positional_factories() {
    let mut x = Kind::Xoroshiro.new_instance(7);
    let f = x.fork_positional();
    assert_eq!(f.kind(), Kind::Xoroshiro);
    assert_eq!(f.at(10, 20, 30).next_i64(), 1839602093689432433);
    assert_eq!(f.at_block(BlockPos::new(10, 20, 30)).next_i64(), 1839602093689432433);

    let mut l = Kind::LegacyRandom.new_instance(7);
    let f = l.fork_positional();
    assert_eq!(f.kind(), Kind::LegacyRandom);
    assert_eq!(f.at(10, 20, 30).next_i32(), 1948793979);
    assert_eq!(f.with_hash_of("octave_-8").next_i32(), 2103130482);
}

#[test]
fn legacy_factory_from_seed() {
    let f = LegacyPositionalRandomFactory::from_seed(0);
    let mut r = f.at(0, 0, 0);
    assert_eq!(r.next_i32(), -1155484576);
}

#[test]
fn random_state_derives_factories() {
    let state = RandomState::new(Kind::Xoroshiro, 6646468147532173577);
    assert_eq!(state.get_seed(), 6646468147532173577);
    let expected_root = PositionalRandomFactory::Xoroshiro(XoroshiroPositionalRandomFactory::from_state(
        -730159004155745133i64 as u64,
        4905911735274578761i64 as u64,
    ));
    assert_eq!(state.root_factory().at(1, 2, 3).next_i64(), expected_root.at(1, 2, 3).next_i64());
    let expected_aquifer = XoroshiroPositionalRandomFactory::from_state(
        4474409980143200055i64 as u64,
        -2508761655746606073i64 as u64,
    );
    assert_eq!(state.aquifer_factory().at(4, 5, 6).next_i64(), expected_aquifer.at(4, 5, 6).next_i64());
    assert_eq!(state.noise_source("minecraft:temperature").next_i64(), 3437883920396065997);
    assert_eq!(state.ore_factory().kind(), Kind::Xoroshiro);
}

#[test]
fn xoroshiro_bounded_rejects_biased_draws() {
    // For this bound a quarter of the 32-bit draws fall below the threshold and
    // are drawn again.
    let mut r = XoroshiroRandom::new(0);
    let drawn: Vec<i32> = (0..10).map(|_| r.next_i32_bound(1610612736)).collect();
    assert_eq!(
        drawn,
        vec![
            1550433935, 293136714, 245089723, 1420909321, 1592882141, 128323464, 531561972,
            1056029944, 585030101, 1301821744,
        ]
    );
}
