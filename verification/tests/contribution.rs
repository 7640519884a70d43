use paraloom::resource::monitor::{
    compute_contribution, ResourceMonitor, PLACEHOLDER_BANDWIDTH_KBPS, SAMPLE_INTERVAL_SECS,
};
use paraloom::types::ResourceContribution;

const MB: u64 = 1024 * 1024;

#[test]
fn half_of_eight_thousand_megabytes_and_capped_storage() {
    let contribution = compute_contribution(4, 8_000_000, &[2000 * MB], 50, 1000);
    assert_eq!(contribution.memory_mb, 3906);
    assert_eq!(contribution.storage_mb, 1000);
    assert_eq!(contribution.cpu_cores, 4);
    assert_eq!(contribution.bandwidth_kbps, 10000);
}

#[test]
fn memory_is_the_ceilings_share_of_the_total() {
    for (total_kb, pct) in [(0u64, 50u8), (1024, 100), (1_048_576, 70), (16_000_000, 80), (u64::MAX, 100), (u64::MAX, 255), (123_456_789, 0)] {
        let contribution = compute_contribution(1, total_kb, &[], pct, 0);
        let expected = (total_kb as u128 * pct as u128 / 100 / 1024) as u64;
        assert_eq!(contribution.memory_mb, expected);
        if pct <= 100 {
            assert!(contribution.memory_mb <= total_kb / 1024);
        }
    }
    assert_eq!(compute_contribution(1, 1_048_576, &[], 70, 0).memory_mb, 716);
    assert_eq!(compute_contribution(1, 1024, &[], 100, 0).memory_mb, 1);
    assert_eq!(compute_contribution(1, 1023, &[], 100, 0).memory_mb, 0);
}

#[test]
fn storage_never_exceeds_the_ceiling() {
    for ceiling in [0u64, 1, 1000, 10240, u64::MAX] {
        for disks in [vec![], vec![0u64], vec![5 * MB, 7 * MB], vec![u64::MAX, u64::MAX, u64::MAX]] {
            let contribution = compute_contribution(1, 0, &disks, 0, ceiling);
            assert!(contribution.storage_mb <= ceiling);
        }
    }
}

#[test]
fn storage_is_the_sum_of_all_volumes_in_whole_megabytes() {
    let disks = [5 * MB + 1, 7 * MB + MB - 1, MB - 1];
    assert_eq!(compute_contribution(1, 0, &disks, 0, 10240).storage_mb, 13);
    assert_eq!(compute_contribution(1, 0, &disks, 0, 13).storage_mb, 13);
    assert_eq!(compute_contribution(1, 0, &disks, 0, 12).storage_mb, 12);
    assert_eq!(compute_contribution(1, 0, &[], 0, 10240).storage_mb, 0);
    assert_eq!(compute_contribution(1, 0, &[MB - 1], 0, 10240).storage_mb, 0);
}

#[test]
fn bytes_left_over_on_each_volume_add_up() {
    assert_eq!(compute_contribution(1, 0, &[1_572_864, 1_572_864], 0, 1000).storage_mb, 3);
    assert_eq!(compute_contribution(1, 0, &[MB - 1, 1], 0, 1000).storage_mb, 1);
    assert_eq!(compute_contribution(1, 0, &[MB - 1, MB - 1, MB - 1, 3], 0, 1000).storage_mb, 3);
    let disks = vec![MB / 2; 2001];
    assert_eq!(compute_contribution(1, 0, &disks, 0, 10240).storage_mb, 1000);
    assert_eq!(compute_contribution(1, 0, &disks, 0, 999).storage_mb, 999);
}

#[test]
fn storage_agrees_with_the_sum_in_wide_integers() {
    let lists: [Vec<u64>; 4] = [
        vec![u64::MAX, u64::MAX, 1],
        vec![123_456_789, 987_654_321, 55],
        vec![MB, MB - 1, MB + 1, 0],
        vec![u64::MAX; 17],
    ];
    for disks in lists {
        let total: u128 = disks.iter().map(|&bytes| bytes as u128).sum();
        for ceiling in [0u64, 1, 1 << 20, 1 << 45, u64::MAX] {
            let expected = std::cmp::min(total / (MB as u128), ceiling as u128) as u64;
            assert_eq!(compute_contribution(1, 0, &disks, 0, ceiling).storage_mb, expected);
        }
    }
}

#[test]
fn storage_sum_beyond_the_integer_range_is_capped() {
    let disks = vec![u64::MAX; 3_000_000];
    assert!((u64::MAX as u128) * 3_000_000 / (MB as u128) > u64::MAX as u128);
    assert_eq!(compute_contribution(1, 0, &disks, 0, u64::MAX).storage_mb, u64::MAX);
}

#[test]
fn core_count_keeps_its_low_eight_bits() {
    assert_eq!(compute_contribution(8, 0, &[], 0, 0).cpu_cores, 8);
    assert_eq!(compute_contribution(255, 0, &[], 0, 0).cpu_cores, 255);
    assert_eq!(compute_contribution(256, 0, &[], 0, 0).cpu_cores, 0);
    assert_eq!(compute_contribution(300, 0, &[], 0, 0).cpu_cores, 44);
}

#[test]
fn contribution_before_the_first_sample_is_zero_but_for_the_cores() {
    let monitor = ResourceMonitor::new(50, 50, 1000);
    let contribution = monitor.get_contribution();
    assert!(contribution.cpu_cores > 0);
    assert_eq!(contribution.memory_mb, 0);
    assert_eq!(contribution.storage_mb, 0);
    assert_eq!(contribution.bandwidth_kbps, 0);
    assert_eq!(monitor.get_contribution(), contribution);
}

#[test]
fn a_sample_replaces_all_figures_together() {
    let mut monitor = ResourceMonitor::new(80, 70, 10240);
    let before = monitor.get_contribution();
    let sampled = monitor.tick();
    assert_eq!(monitor.get_contribution(), sampled);
    assert_eq!(sampled.cpu_cores, before.cpu_cores);
    assert!(sampled.memory_mb > 0);
    assert!(sampled.storage_mb <= 10240);
    assert_eq!(sampled.bandwidth_kbps, PLACEHOLDER_BANDWIDTH_KBPS);
}

#[test]
fn a_sample_with_zero_ceilings_offers_nothing() {
    let mut monitor = ResourceMonitor::new(0, 0, 0);
    let sampled = monitor.tick();
    assert_eq!(sampled.memory_mb, 0);
    assert_eq!(sampled.storage_mb, 0);
}

#[test]
fn update_keeps_the_snapshot_and_gives_the_same_figures_again() {
    let mut monitor = ResourceMonitor::new(80, 70, 10240);
    monitor.update_contribution();
    let first = monitor.get_contribution();
    monitor.update_contribution();
    assert_eq!(monitor.get_contribution(), first);
    assert_eq!(first.bandwidth_kbps, 10000);
}

#[test]
fn sampling_constants() {
    assert_eq!(SAMPLE_INTERVAL_SECS, 5);
    assert_eq!(PLACEHOLDER_BANDWIDTH_KBPS, 10000);
    let zero = ResourceContribution { cpu_cores: 0, memory_mb: 0, storage_mb: 0, bandwidth_kbps: 0 };
    assert_eq!(zero.clone(), zero);
}
