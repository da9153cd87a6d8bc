use bincode_fuzz::random::{
    rand_option, rand_range, rand_string, rand_vector_string, seed_words, seeded_rng,
};
use rand::{Rng, SeedableRng, XorShiftRng};

#[test]
fn seed_words_of_zero_are_the_masks() {
    assert_eq!(seed_words(0), [0xc0077157, 0x7fd5d862, 0x8b5d4420, 0xc8167589]);
}

#[test]
fn seed_words_take_the_low_half_of_the_seed() {
    assert_eq!(
        seed_words(0xffff_ffff_0000_0000),
        [0xc0077157, 0x7fd5d862, 0x8b5d4420, 0xc8167589]
    );
    assert_eq!(
        seed_words(0x0000_0000_ffff_ffff),
        [!0xc0077157u32, !0x7fd5d862u32, !0x8b5d4420u32, !0xc8167589u32]
    );
    assert_eq!(seed_words(1), [0xc0077156, 0x7fd5d863, 0x8b5d4421, 0xc8167588]);
}

#[test]
fn seed_words_are_never_all_zero() {
    for seed in [0x4d3a1613c0077157u64, 0xaa99ab477fd5d862, 0xa16d13ad8b5d4420, 0x82e93fddc8167589]
    {
        let words = seed_words(seed);
        assert!(words.iter().any(|word| *word != 0));
        assert_eq!(words.iter().filter(|word| **word == 0).count(), 1);
    }
}

#[test]
fn seeded_rng_starts_from_the_seed_words() {
    for seed in [0u64, 1, 42, 0x4d3a1613c0077157, u64::MAX] {
        let mut ours = seeded_rng(seed);
        let mut theirs = XorShiftRng::from_seed(seed_words(seed));
        for _ in 0..16 {
            assert_eq!(ours.next_u32(), theirs.next_u32());
        }
    }
}

#[test]
fn seeded_rng_differs_between_seeds() {
    let mut a = seeded_rng(1);
    let mut b = seeded_rng(2);
    let first: Vec<u32> = (0..8).map(|_| a.next_u32()).collect();
    let second: Vec<u32> = (0..8).map(|_| b.next_u32()).collect();
    assert_ne!(first, second);
}

#[test]
fn rand_range_starts_at_zero_and_ends_below_max() {
    let mut rng = seeded_rng(3);
    for max in [1usize, 2, 32, 512, 1000] {
        for _ in 0..200 {
            let range = rand_range(&mut rng, max);
            assert_eq!(range.start, 0);
            assert!(range.end < max);
        }
    }
}

#[test]
fn rand_range_of_one_is_empty() {
    let mut rng = seeded_rng(4);
    for _ in 0..50 {
        assert_eq!(rand_range(&mut rng, 1), 0..0);
    }
}

#[test]
fn rand_range_takes_one_draw_modulo_max() {
    let mut ours = seeded_rng(5);
    let mut theirs = seeded_rng(5);
    for _ in 0..100 {
        let expected = theirs.gen::<usize>() % 512;
        assert_eq!(rand_range(&mut ours, 512), 0..expected);
    }
}

#[test]
fn rand_string_is_shorter_than_512_characters() {
    let mut rng = seeded_rng(6);
    let mut longest = 0;
    for _ in 0..300 {
        let text = rand_string(&mut rng);
        let length = text.chars().count();
        assert!(length < 512);
        if length > longest {
            longest = length;
        }
    }
    assert!(longest > 256);
}

#[test]
fn rand_string_collects_the_characters_drawn() {
    let mut ours = seeded_rng(7);
    let mut theirs = seeded_rng(7);
    for _ in 0..20 {
        let length = theirs.gen::<usize>() % 512;
        let mut expected = String::new();
        for _ in 0..length {
            expected.push(theirs.gen::<char>());
        }
        assert_eq!(rand_string(&mut ours), expected);
    }
}

#[test]
fn rand_vector_string_keeps_both_bounds() {
    let mut rng = seeded_rng(8);
    for _ in 0..50 {
        let texts = rand_vector_string(&mut rng);
        assert!(texts.len() < 32);
        for text in &texts {
            assert!(text.chars().count() < 512);
        }
    }
}

#[test]
fn rand_option_keeps_or_drops_the_value() {
    let mut rng = seeded_rng(9);
    let mut kept = 0;
    let mut dropped = 0;
    for i in 0..400u32 {
        match rand_option(&mut rng, i) {
            Some(value) => {
                assert_eq!(value, i);
                kept += 1;
            }
            None => dropped += 1,
        }
    }
    assert!(kept > 100);
    assert!(dropped > 100);
}

#[test]
fn rand_option_goes_by_one_random_bit() {
    let mut ours = seeded_rng(10);
    let mut theirs = seeded_rng(10);
    for i in 0..100u32 {
        let keep = theirs.gen::<bool>();
        assert_eq!(rand_option(&mut ours, i), if keep { Some(i) } else { None });
    }
}
