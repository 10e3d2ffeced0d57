use gacha_marketplace::error::GachaError;
use gacha_marketplace::sampling::{next_random, next_words, pick_positions, sample, ROUNDS};
use nanorand::{ChaCha, RNG};

#[test]
fn pick_positions_takes_word_modulo_working_set() {
    // Working set 0,1,2,3,4: word 7 picks position 7 % 5 = 2, leaving 0,1,3,4;
    // word 7 then picks 7 % 4 = 3, which is candidate 4; word 0 picks candidate 0.
    let picked = pick_positions(5, &vec![7, 7, 0]).unwrap();
    assert_eq!(picked, vec![2, 4, 0]);
}

#[test]
fn pick_positions_can_exhaust_the_candidates() {
    let picked = pick_positions(4, &vec![0, 0, 0, 0]).unwrap();
    assert_eq!(picked, vec![0, 1, 2, 3]);
    let picked = pick_positions(4, &vec![3, 2, 1, 0]).unwrap();
    assert_eq!(picked, vec![3, 2, 1, 0]);
    let picked = pick_positions(1, &vec![u64::MAX]).unwrap();
    assert_eq!(picked, vec![0]);
}

#[test]
fn pick_positions_with_no_words_picks_nothing() {
    assert_eq!(pick_positions(5, &vec![]), Ok(vec![]));
    assert_eq!(pick_positions(0, &vec![]), Ok(vec![]));
}

#[test]
fn pick_positions_refuses_more_words_than_candidates() {
    assert_eq!(pick_positions(2, &vec![1, 2, 3]), Err(GachaError::InvalidDrawSize));
    assert_eq!(pick_positions(0, &vec![1]), Err(GachaError::InvalidDrawSize));
}

#[test]
fn sample_more_than_available_is_an_error() {
    let seed = [0u8; 32];
    assert_eq!(sample(&seed, 3, 4), Err(GachaError::InvalidDrawSize));
    assert_eq!(sample(&seed, 0, 1), Err(GachaError::InvalidDrawSize));
}

#[test]
fn sample_of_nothing_is_empty() {
    let seed = [7u8; 32];
    assert_eq!(sample(&seed, 5, 0), Ok(vec![]));
    assert_eq!(sample(&seed, 0, 0), Ok(vec![]));
}

#[test]
fn rounds_are_even() {
    assert_eq!(ROUNDS, 254);
    assert_eq!(ROUNDS % 2, 0);
}

#[test]
fn next_random_has_known_values() {
    let zero = [0u8; 32];
    assert_eq!(next_random(&zero, 0), 6095478170515256135);
    assert_eq!(next_random(&zero, 1), 9672807339156015947);
    assert_eq!(next_random(&zero, 2), 17767634790539956710);
    let mut seed = [0u8; 32];
    seed[0] = 3;
    seed[16] = 3;
    assert_eq!(next_random(&seed, 0), 514878105387206845);
    assert_eq!(next_random(&seed, 1), 11518744470829372146);
    assert_eq!(next_random(&seed, 2), 13959522032062116884);
}

#[test]
fn next_random_is_the_first_word_of_a_keyed_generator() {
    let mut seed = [0u8; 32];
    for i in 0..32 {
        seed[i] = (i * 7 + 1) as u8;
    }
    for draw in [0u64, 1, 2, 255, 256, 65_536, u64::MAX] {
        let mut rng = ChaCha::new_key(ROUNDS, seed, draw.to_le_bytes());
        let expected: u64 = rng.generate();
        assert_eq!(next_random(&seed, draw), expected);
    }
}

#[test]
fn next_random_depends_on_seed_and_draw() {
    let a = [1u8; 32];
    let b = [2u8; 32];
    assert_ne!(next_random(&a, 0), next_random(&b, 0));
    assert_ne!(next_random(&a, 0), next_random(&a, 1));
}

#[test]
fn next_words_lists_the_draws_in_order() {
    let seed = [0u8; 32];
    assert_eq!(
        next_words(&seed, 3),
        vec![6095478170515256135, 9672807339156015947, 17767634790539956710]
    );
    assert_eq!(next_words(&seed, 0), Vec::<u64>::new());
}

#[test]
fn sample_has_known_values() {
    let zero = [0u8; 32];
    assert_eq!(sample(&zero, 5, 5), Ok(vec![0, 4, 1, 3, 2]));
    assert_eq!(sample(&zero, 3, 2), Ok(vec![2, 1]));
}

#[test]
fn sample_is_reproducible() {
    let seed = [42u8; 32];
    let first = sample(&seed, 20, 10).unwrap();
    let second = sample(&seed, 20, 10).unwrap();
    assert_eq!(first, second);
}

#[test]
fn sample_is_without_replacement() {
    for s in 0..20u8 {
        let seed = [s; 32];
        for n in 0..12usize {
            for k in 0..=n {
                let picked = sample(&seed, n, k).unwrap();
                assert_eq!(picked.len(), k);
                for i in 0..k {
                    assert!(picked[i] < n);
                    for j in 0..i {
                        assert_ne!(picked[i], picked[j]);
                    }
                }
            }
        }
    }
}

#[test]
fn sample_of_all_is_a_permutation() {
    let seed = [9u8; 32];
    let mut picked = sample(&seed, 50, 50).unwrap();
    picked.sort();
    let all: Vec<usize> = (0..50).collect();
    assert_eq!(picked, all);
}
