use veil::seeded::{draw_index, pick, pick_string, seeded_hash, shuffle, SeededRng};

#[test]
fn hash_of_the_empty_text_is_the_offset() {
    assert_eq!(seeded_hash(""), 2166136261);
}

#[test]
fn hash_matches_known_values() {
    assert_eq!(seeded_hash("a"), 0xe40c292c);
    assert_eq!(seeded_hash("foobar"), 0xbf9cf968);
    assert_eq!(seeded_hash("Ava-2024-03-01-Taurus-Calm-Dreamer"), 3976631266);
}

#[test]
fn hash_reads_bytes_not_characters() {
    // "é" is two bytes in UTF-8: 0xc3 0xa9.
    let mut expected: u32 = 2166136261;
    for byte in [0xc3u8, 0xa9u8] {
        expected ^= byte as u32;
        expected = expected.wrapping_mul(16777619);
    }
    assert_eq!(seeded_hash("é"), expected);
}

#[test]
fn draws_follow_the_recurrence() {
    let mut rng = SeededRng::new(12345);
    let draws: Vec<u32> = (0..5).map(|_| rng.next()).collect();
    assert_eq!(draws, vec![2403, 5569, 378, 5983, 3404]);
}

#[test]
fn draws_stay_below_ten_thousand() {
    let mut rng = SeededRng::new(0);
    for _ in 0..10_000 {
        assert!(rng.next() < 10_000);
    }
}

#[test]
fn same_seed_gives_same_draws() {
    let mut first = SeededRng::new(987654321);
    let mut second = SeededRng::new(987654321);
    for _ in 0..100 {
        assert_eq!(first.next(), second.next());
    }
}

#[test]
fn draw_index_scales_the_draw() {
    let mut reference = SeededRng::new(12345);
    let mut rng = SeededRng::new(12345);
    for count in [1usize, 2, 3, 9, 45, 1000] {
        let draw = reference.next() as usize;
        assert_eq!(draw_index(&mut rng, count), draw * count / 10_000);
    }
}

#[test]
fn pick_follows_the_draws() {
    let mut rng = SeededRng::new(7);
    let values = ["x", "y", "z"];
    let picked: Vec<&str> = (0..6).map(|_| pick(&mut rng, &values)).collect();
    assert_eq!(picked, vec!["y", "y", "y", "z", "x", "y"]);
}

#[test]
fn pick_string_agrees_with_pick() {
    let mut first = SeededRng::new(7);
    let mut second = SeededRng::new(7);
    let slices = ["x", "y", "z"];
    let strings = vec!["x".to_string(), "y".to_string(), "z".to_string()];
    for _ in 0..50 {
        assert_eq!(pick(&mut first, &slices), pick_string(&mut second, &strings));
    }
}

#[test]
fn pick_of_one_value_is_that_value() {
    let mut rng = SeededRng::new(99);
    for _ in 0..20 {
        assert_eq!(pick(&mut rng, &["only"]), "only");
    }
}

#[test]
fn shuffle_follows_the_draws() {
    let mut rng = SeededRng::new(42);
    let mut values = vec!["a", "b", "c", "d", "e", "f"];
    shuffle(&mut rng, &mut values);
    assert_eq!(values, vec!["c", "b", "f", "e", "a", "d"]);
}

#[test]
fn shuffle_takes_one_draw_less_than_items() {
    let mut shuffled = SeededRng::new(42);
    let mut plain = SeededRng::new(42);
    let mut values = vec!["a", "b", "c", "d", "e", "f"];
    shuffle(&mut shuffled, &mut values);
    for _ in 0..5 {
        plain.next();
    }
    assert_eq!(shuffled.next(), plain.next());
}

#[test]
fn shuffle_only_rearranges() {
    for seed in 0..500u32 {
        let mut rng = SeededRng::new(seed);
        let mut values = vec!["a", "b", "c", "d", "e", "f"];
        shuffle(&mut rng, &mut values);
        let mut sorted = values.clone();
        sorted.sort();
        assert_eq!(sorted, vec!["a", "b", "c", "d", "e", "f"]);
    }
}

#[test]
fn shuffle_leaves_short_lists_alone() {
    let mut rng = SeededRng::new(5);
    let mut none: Vec<&str> = Vec::new();
    shuffle(&mut rng, &mut none);
    assert!(none.is_empty());
    let mut one = vec!["a"];
    shuffle(&mut rng, &mut one);
    assert_eq!(one, vec!["a"]);
    let mut fresh = SeededRng::new(5);
    assert_eq!(rng.next(), fresh.next());
}
