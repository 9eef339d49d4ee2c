use degen_cash::sampler::{
    accept_draw, draws_needed, rejection_threshold, sample_variance, MAX_SAMPLING_ATTEMPTS,
};

#[test]
fn threshold_is_the_largest_multiple_of_the_range() {
    assert_eq!(MAX_SAMPLING_ATTEMPTS, 10);
    assert_eq!(rejection_threshold(0), 256);
    assert_eq!(rejection_threshold(1), 256);
    assert_eq!(rejection_threshold(2), 255);
    assert_eq!(rejection_threshold(100), 202);
    assert_eq!(rejection_threshold(127), 256);
    assert_eq!(rejection_threshold(128), 129);
    assert_eq!(rejection_threshold(254), 255);
    assert_eq!(rejection_threshold(255), 256);
}

#[test]
fn draws_below_the_threshold_are_reduced() {
    assert_eq!(accept_draw(0, 100), Some(0));
    assert_eq!(accept_draw(100, 100), Some(100));
    assert_eq!(accept_draw(101, 100), Some(0));
    assert_eq!(accept_draw(201, 100), Some(100));
    assert_eq!(accept_draw(202, 100), None);
    assert_eq!(accept_draw(255, 100), None);
    assert_eq!(accept_draw(255, 255), Some(255));
    assert_eq!(accept_draw(256, 255), None);
    assert_eq!(accept_draw(u128::MAX, 7), None);
}

#[test]
fn zero_variance_draws_nothing() {
    assert_eq!(sample_variance(&[], 0), Some(0));
    assert_eq!(sample_variance(&[255, 17, 200], 0), Some(0));
    let mut seed = 99u64;
    for _ in 0..1000 {
        seed = seed.wrapping_mul(6364136223846793005).wrapping_add(1442695040888963407);
        assert_eq!(sample_variance(&[(seed >> 40) as u128 & 0xff], 0), Some(0));
    }
}

#[test]
fn first_kept_draw_wins() {
    assert_eq!(sample_variance(&[250, 300, 5, 6], 100), Some(5));
    assert_eq!(sample_variance(&[150], 100), Some(49));
    assert_eq!(sample_variance(&[], 100), None);
    assert_eq!(sample_variance(&[202, 203], 100), None);
}

#[test]
fn retry_budget_is_ten() {
    let mut draws = vec![255u128; 9];
    draws.push(42);
    assert_eq!(sample_variance(&draws, 100), Some(42));
    let mut draws = vec![255u128; 10];
    draws.push(42);
    assert_eq!(sample_variance(&draws, 100), None);
}

#[test]
fn every_value_has_the_same_number_of_kept_draws() {
    for v in 0..=255u8 {
        let range = v as usize + 1;
        let mut hits = vec![0usize; range];
        for candidate in 0..256u128 {
            if let Some(roll) = accept_draw(candidate, v) {
                assert!(roll <= v);
                hits[roll as usize] += 1;
            }
        }
        for k in 0..range {
            assert_eq!(hits[k], 256 / range, "variance {} value {}", v, k);
        }
    }
}

#[test]
fn sampling_is_uniform_for_variance_100() {
    let mut seed = 0x9e3779b97f4a7c15u64;
    let mut next = move || {
        seed ^= seed << 13;
        seed ^= seed >> 7;
        seed ^= seed << 17;
        (seed >> 24) as u128 & 0xff
    };
    let mut hits = [0u32; 101];
    let mut failures = 0u32;
    for _ in 0..100_000 {
        let mut draws = [0u128; 10];
        for d in draws.iter_mut() {
            *d = next();
        }
        match sample_variance(&draws, 100) {
            Some(roll) => {
                assert!(roll <= 100);
                hits[roll as usize] += 1;
            }
            None => failures += 1,
        }
    }
    // Ten rejections in a row have probability (54/256)^10.
    assert!(failures <= 1);
    // Expected 990 per value, standard deviation about 31.
    for k in 0..=100 {
        assert!(hits[k] > 830 && hits[k] < 1150, "value {} drawn {} times", k, hits[k]);
    }
}

#[test]
fn draws_are_needed_only_with_variance() {
    assert_eq!(draws_needed(0), 0);
    assert_eq!(draws_needed(1), 10);
    assert_eq!(draws_needed(100), 10);
    assert_eq!(draws_needed(255), 10);
    // Draws beyond those needed change nothing.
    let needed = draws_needed(100);
    let mut draws = vec![255u128; needed - 1];
    draws.push(7);
    let sample = sample_variance(&draws, 100);
    draws.push(3);
    draws.push(4);
    assert_eq!(sample_variance(&draws, 100), sample);
    assert_eq!(sample, Some(7));
}
