use audiofft::errors::VisualizerError;
use audiofft::pipeline::process_frame;
use audiofft::SCALE;

fn steps4() -> Vec<u64> {
    vec![SCALE / 4, SCALE / 4, SCALE / 4, SCALE / 4]
}

#[test]
fn silent_frames_keep_all_bars_flat() {
    let n: usize = 4;
    let steps = steps4();
    let zeros: Vec<u64> = vec![0; n + 2];
    let first = process_frame(&zeros, &zeros, &steps).unwrap();
    assert_eq!(first.smoothed, zeros);
    let second = process_frame(&first.smoothed, &zeros, &steps).unwrap();
    assert_eq!(second.smoothed, zeros);
    // degenerate extrema: every height is the documented flat value 0
    assert_eq!(second.heights, vec![0; n + 1]);
    // every top vertex sits on the baseline, y == -1 in fixed point
    for m in (n + 1)..(3 * n + 1) {
        assert_eq!(second.vertices[m].y, -(SCALE as i64));
    }
}

#[test]
fn spike_then_silence_decays_faster_than_attack_would() {
    let n: usize = 4;
    let steps = steps4();
    let zeros: Vec<u64> = vec![0; n + 2];
    let mut spike: Vec<u64> = vec![0; n + 2];
    spike[2] = 1000;
    // attack frame: slow rise, weight 0.2 on the new spike
    let first = process_frame(&zeros, &spike, &steps).unwrap();
    assert_eq!(first.smoothed[2], 200);
    // silent frame: fast fall, weight 0.2 on the previous value
    let second = process_frame(&first.smoothed, &zeros, &steps).unwrap();
    assert_eq!(second.smoothed[2], 40);
    // the attack-path weights on the same pair would have left 160
    let attack_path = (8 * first.smoothed[2] + 2 * 0) / 10;
    assert_eq!(attack_path, 160);
    assert!(second.smoothed[2] < attack_path);
}

#[test]
fn spike_raises_exactly_one_bar() {
    let n: usize = 4;
    let steps = steps4();
    let zeros: Vec<u64> = vec![0; n + 2];
    let mut spike: Vec<u64> = vec![0; n + 2];
    spike[2] = 1000;
    let out = process_frame(&zeros, &spike, &steps).unwrap();
    // extrema are (0, 200); bar 1 (smoothed index 2) maps to the top of the
    // range, every other bar to the bottom
    assert_eq!(out.heights, vec![0, 2 * SCALE, 0, 0, 0]);
    // its two top vertices (for bar 1: positions n+1+2 and n+1+3) sit at
    // height 2.0 - 1.0 == 1.0
    assert_eq!(out.vertices[n + 1 + 2].y, SCALE as i64);
    assert_eq!(out.vertices[n + 1 + 3].y, SCALE as i64);
    assert_eq!(out.vertices[n + 1].y, -(SCALE as i64));
}

#[test]
fn wrong_frame_length_fails() {
    let steps = steps4();
    let zeros5: Vec<u64> = vec![0; 5];
    let zeros6: Vec<u64> = vec![0; 6];
    assert_eq!(
        process_frame(&zeros5, &zeros6, &steps).err(),
        Some(VisualizerError::LengthMismatch)
    );
    assert_eq!(
        process_frame(&zeros5, &zeros5, &steps).err(),
        Some(VisualizerError::LengthMismatch)
    );
}
