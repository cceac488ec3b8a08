use vello::scan::{
    is_prefix_sum_of, lookback, prefix_sum, ramp, reduce_total, replace_value, scan_tiles,
    ScanError, TileStatus, TOTAL_LIMIT,
};

fn running_sums(input: &[u32]) -> Vec<u32> {
    let mut agg = 0u32;
    input
        .iter()
        .map(|v| {
            agg += v;
            agg
        })
        .collect()
}

#[test]
fn ramp_scan_matches_running_sum() {
    let input = ramp(256 * 10_000, 32);
    assert_eq!(input.len(), 2_560_000);
    assert_eq!(&input[..4], &[0, 1, 2, 3]);
    assert_eq!(input[31], 31);
    assert_eq!(input[32], 0);
    let expected_total = reduce_total(&input).unwrap();
    assert_eq!(expected_total, 80_000 * 496);
    let result = prefix_sum(&input, 256).unwrap();
    assert_eq!(result.len(), input.len());
    let mut agg = 0u32;
    for (v, actual) in input.iter().zip(&result) {
        agg += v;
        assert_eq!(*actual, agg);
    }
    assert!(is_prefix_sum_of(&input, &result));
}

#[test]
fn remapped_ramp_scan_matches_running_sum() {
    let input = replace_value(&ramp(256 * 10_000, 32), 15, 16);
    assert_eq!(input[15], 16);
    assert_eq!(input[16], 16);
    assert_eq!(input[47], 16);
    assert_eq!(input[14], 14);
    let result = prefix_sum(&input, 256).unwrap();
    assert_eq!(result, running_sums(&input));
    assert_eq!(*result.last().unwrap(), 80_000 * 497);
    assert!(is_prefix_sum_of(&input, &result));
}

#[test]
fn total_at_limit_is_refused() {
    assert_eq!(TOTAL_LIMIT, 1u64 << 31);
    let input = vec![0x4000_0000u32, 0x4000_0000];
    assert_eq!(reduce_total(&input), Err(ScanError::TotalTooLarge));
    assert_eq!(prefix_sum(&input, 256), Err(ScanError::TotalTooLarge));
    let input = vec![u32::MAX];
    assert_eq!(prefix_sum(&input, 1), Err(ScanError::TotalTooLarge));
}

#[test]
fn total_just_below_limit_is_accepted() {
    let input = vec![0x4000_0000u32, 0x3FFF_FFFF];
    assert_eq!(reduce_total(&input), Ok(0x7FFF_FFFF));
    assert_eq!(prefix_sum(&input, 1), Ok(vec![0x4000_0000, 0x7FFF_FFFF]));
}

#[test]
fn zero_tile_width_is_refused() {
    assert_eq!(prefix_sum(&vec![1, 2, 3], 0), Err(ScanError::ZeroTileWidth));
}

#[test]
fn partial_last_tile() {
    let input: Vec<u32> = (0..1000u32).map(|i| i % 7 + 1).collect();
    let expected = running_sums(&input);
    for w in [1usize, 3, 256, 999, 1000, 1001, 5000] {
        assert_eq!(prefix_sum(&input, w), Ok(expected.clone()), "tile width {w}");
    }
}

#[test]
fn empty_input() {
    assert_eq!(prefix_sum(&Vec::new(), 4), Ok(Vec::new()));
    assert_eq!(reduce_total(&Vec::new()), Ok(0));
    assert!(is_prefix_sum_of(&Vec::new(), &Vec::new()));
}

#[test]
fn wrapping_scan_wraps() {
    let input = vec![u32::MAX, 2, 3];
    assert_eq!(scan_tiles(&input, 2), vec![u32::MAX, 1, 4]);
}

#[test]
fn lookback_folds_aggregates_until_a_prefix() {
    let status = vec![
        TileStatus::Aggregate(3u32),
        TileStatus::Prefix(10),
        TileStatus::Aggregate(4),
        TileStatus::Aggregate(5),
    ];
    assert_eq!(lookback(&status, 0), 0);
    assert_eq!(lookback(&status, 1), 3);
    assert_eq!(lookback(&status, 2), 10);
    assert_eq!(lookback(&status, 4), 19);
    let aggregates = vec![
        TileStatus::Aggregate(1u32),
        TileStatus::Aggregate(2),
        TileStatus::Aggregate(4),
    ];
    assert_eq!(lookback(&aggregates, 3), 7);
}

#[test]
fn prefix_check_detects_errors() {
    let input = vec![1u32, 2, 3];
    assert!(is_prefix_sum_of(&input, &vec![1, 3, 6]));
    assert!(!is_prefix_sum_of(&input, &vec![1, 3, 7]));
    assert!(!is_prefix_sum_of(&input, &vec![1, 3]));
    assert!(!is_prefix_sum_of(&vec![u32::MAX, 1], &vec![u32::MAX, 0]));
}

#[test]
fn ramp_and_replace_values() {
    assert_eq!(ramp(7, 3), vec![0, 1, 2, 0, 1, 2, 0]);
    assert_eq!(ramp(0, 5), Vec::<u32>::new());
    assert_eq!(replace_value(&vec![1, 2, 1], 1, 9), vec![9, 2, 9]);
}
