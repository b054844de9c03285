use audiofft::errors::VisualizerError;
use audiofft::normalizer::normalize;
use audiofft::smoother::FrameExtrema;
use audiofft::SCALE;

#[test]
fn heights_lie_in_display_range() {
    let smoothed: Vec<u64> = vec![3, 0, 5, 10, 7];
    let ex = FrameExtrema { min: 0, max: 10 };
    let heights = normalize(&smoothed, ex).unwrap();
    assert_eq!(heights.len(), 4);
    for &h in &heights {
        assert!(h <= 2 * SCALE);
    }
    // element equal to the minimum maps to 0, the maximum to 2 (fixed point)
    assert_eq!(heights[0], 0);
    assert_eq!(heights[2], 2 * SCALE);
    // exact formula: ((v - min) / (max - min)) * 2, in fixed point
    assert_eq!(heights[1], 5 * 2 * SCALE / 10);
    assert_eq!(heights[3], 7 * 2 * SCALE / 10);
}

#[test]
fn index_zero_is_excluded() {
    let smoothed: Vec<u64> = vec![10, 0];
    let ex = FrameExtrema { min: 0, max: 10 };
    let heights = normalize(&smoothed, ex).unwrap();
    assert_eq!(heights, vec![0]);
}

#[test]
fn degenerate_range_is_flat_and_deterministic() {
    let smoothed: Vec<u64> = vec![7, 7, 7];
    let ex = FrameExtrema { min: 7, max: 7 };
    let first = normalize(&smoothed, ex).unwrap();
    let second = normalize(&smoothed, ex).unwrap();
    assert_eq!(first, vec![0, 0]);
    assert_eq!(first, second);
}

#[test]
fn empty_state_fails_normalization() {
    let smoothed: Vec<u64> = vec![];
    let ex = FrameExtrema { min: 0, max: 0 };
    assert_eq!(normalize(&smoothed, ex), Err(VisualizerError::LengthMismatch));
}
