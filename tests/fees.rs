use registrar::{
    base_fee_surged, estimate_priority_fee, percentage_change, premium_estimation, FeeError,
    FeeRecommendation,
};

#[test]
fn median_of_equal_samples() {
    assert_eq!(estimate_priority_fee(&vec![5, 5, 5]), 5);
}

#[test]
fn no_samples_gives_zero() {
    assert_eq!(estimate_priority_fee(&vec![]), 0);
}

#[test]
fn all_zero_samples_give_zero() {
    assert_eq!(estimate_priority_fee(&vec![0, 0, 0, 0]), 0);
}

#[test]
fn single_sample_is_the_fee() {
    assert_eq!(estimate_priority_fee(&vec![7]), 7);
    assert_eq!(estimate_priority_fee(&vec![0, 7, 0]), 7);
}

#[test]
fn zeros_are_dropped_and_samples_sorted() {
    // positives sorted: [100, 200, 300]; no spike; median index 1
    assert_eq!(estimate_priority_fee(&vec![0, 300, 100, 0, 200]), 200);
}

#[test]
fn even_length_takes_upper_middle() {
    assert_eq!(estimate_priority_fee(&vec![40, 10, 30, 20]), 30);
}

#[test]
fn late_spike_takes_tail_median() {
    // sorted: [1, 1, 1, 1, 100, 100, 100]; largest jump at index 3 >= 7 / 2
    // tail [1, 100, 100, 100] has median 100, the whole window has median 1
    assert_eq!(estimate_priority_fee(&vec![1, 100, 1, 100, 1, 100, 1]), 100);
}

#[test]
fn early_spike_is_ignored() {
    // jump at index 0 lies in the lower half
    assert_eq!(estimate_priority_fee(&vec![1, 100, 100, 100, 100, 100]), 100);
    assert_eq!(estimate_priority_fee(&vec![10, 1000, 1000, 1000, 1001, 1002]), 1000);
}

#[test]
fn small_jump_is_no_spike() {
    // jumps: 1, 0, 47, 0, 0 percent; below the threshold
    assert_eq!(estimate_priority_fee(&vec![100, 101, 102, 150, 151, 152]), 150);
}

#[test]
fn jump_of_exactly_threshold_is_a_spike() {
    // sorted: [10, 10, 10, 30, 30]; 10 -> 30 is +200% at index 2 >= 5 / 2
    // tail [10, 30, 30] has median 30; whole median is 10
    assert_eq!(estimate_priority_fee(&vec![10, 10, 10, 30, 30]), 30);
    // 10 -> 29 is +190%: no spike
    assert_eq!(estimate_priority_fee(&vec![10, 10, 10, 29, 29]), 10);
}

#[test]
fn first_of_equal_largest_jumps_is_used() {
    // sorted: [1, 1, 4, 4, 16, 16]; jumps 0, 300, 0, 300, 0; first max at 1 < 3
    assert_eq!(estimate_priority_fee(&vec![16, 4, 1, 16, 4, 1]), 4);
}

#[test]
fn largest_sample_values() {
    let m = u64::MAX;
    assert_eq!(estimate_priority_fee(&vec![m, m, m]), m);
    assert_eq!(estimate_priority_fee(&vec![1, 1, m, m]), m);
}

#[test]
fn percentage_change_is_exact() {
    assert_eq!(percentage_change(1, 1), 0);
    assert_eq!(percentage_change(3, 4), 33);
    assert_eq!(percentage_change(10, 30), 200);
    assert_eq!(percentage_change(1, u64::MAX), (u64::MAX as u128 - 1) * 100);
}

#[test]
fn surge_tiers() {
    assert_eq!(base_fee_surged(30_000_000_000), 60_000_000_000);
    assert_eq!(base_fee_surged(90_000_000_000), 144_000_000_000);
    assert_eq!(base_fee_surged(150_000_000_000), 210_000_000_000);
    assert_eq!(base_fee_surged(300_000_000_000), 360_000_000_000);
}

#[test]
fn surge_tier_boundaries() {
    assert_eq!(base_fee_surged(0), 0);
    assert_eq!(base_fee_surged(40_000_000_000), 80_000_000_000);
    assert_eq!(base_fee_surged(40_000_000_001), 64_000_000_001);
    assert_eq!(base_fee_surged(100_000_000_000), 160_000_000_000);
    assert_eq!(base_fee_surged(200_000_000_000), 280_000_000_000);
    assert_eq!(base_fee_surged(200_000_000_001), 240_000_000_001);
    assert_eq!(base_fee_surged(7), 14);
    assert_eq!(base_fee_surged(u64::MAX), u64::MAX as u128 * 12 / 10);
}

#[test]
fn missing_base_fee_is_an_error() {
    assert_eq!(
        premium_estimation(None, &vec![1, 2, 3]),
        Err(FeeError::Eip1559NotActivated)
    );
}

#[test]
fn fee_cap_is_surged_base_when_tip_is_small() {
    assert_eq!(
        premium_estimation(Some(30_000_000_000), &vec![2_000_000_000, 2_000_000_000]),
        Ok(FeeRecommendation {
            max_priority_fee_per_gas: 2_000_000_000,
            max_fee_per_gas: 60_000_000_000,
        })
    );
}

#[test]
fn fee_cap_adds_tip_when_tip_exceeds_surged_base() {
    assert_eq!(
        premium_estimation(Some(10), &vec![50, 0, 50]),
        Ok(FeeRecommendation {
            max_priority_fee_per_gas: 50,
            max_fee_per_gas: 70,
        })
    );
    // equal tip and surged base: no addition
    assert_eq!(
        premium_estimation(Some(10), &vec![20]),
        Ok(FeeRecommendation {
            max_priority_fee_per_gas: 20,
            max_fee_per_gas: 20,
        })
    );
}

#[test]
fn fee_cap_with_no_samples() {
    assert_eq!(
        premium_estimation(Some(90_000_000_000), &vec![]),
        Ok(FeeRecommendation {
            max_priority_fee_per_gas: 0,
            max_fee_per_gas: 144_000_000_000,
        })
    );
}
