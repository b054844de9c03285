use audiofft::errors::VisualizerError;
use audiofft::geometry::{compute_bar_indices, compute_bar_vertice};
use audiofft::{N, SCALE};

/// The fixed-point increment table the frame driver hands to the builder:
/// for bar `i` (from 1), the real value `(log10((i+1)/i) / log10(n)) * 2.0`.
fn log_steps(n: usize) -> Vec<u64> {
    let cap = (n as f32).log10();
    let mut steps: Vec<u64> = Vec::new();
    for i in 1..=n {
        let real = (((i + 1) as f32) / (i as f32)).log10() / cap * 2.0;
        let fixed = (real * SCALE as f32) as u64;
        steps.push(fixed.clamp(1, 4 * SCALE));
    }
    steps
}

#[test]
fn four_bars_make_eight_distinct_triangles() {
    let n: usize = 4;
    let tris = compute_bar_indices(n);
    assert_eq!(tris.len(), 2 * n);
    // two triangles per bar: (i, i+1, n+1+2i) and (i+1, n+1+2i, n+1+2i+1)
    for i in 0..n as u32 {
        let mid = n as u32 + 1;
        let t0 = tris[2 * i as usize];
        let t1 = tris[2 * i as usize + 1];
        assert_eq!((t0.a, t0.b, t0.c), (i, i + 1, mid + 2 * i));
        assert_eq!((t1.a, t1.b, t1.c), (i + 1, mid + 2 * i, mid + 2 * i + 1));
    }
    // every index addresses the 3n+1 vertices
    for t in &tris {
        assert!(t.a < 3 * n as u32 + 1);
        assert!(t.b < 3 * n as u32 + 1);
        assert!(t.c < 3 * n as u32 + 1);
    }
    // no triangle repeats
    for i in 0..tris.len() {
        for j in (i + 1)..tris.len() {
            assert_ne!(tris[i], tris[j]);
        }
    }
}

#[test]
fn baseline_is_strictly_increasing_across_full_span() {
    let n = N;
    let steps = log_steps(n);
    let heights: Vec<u64> = vec![0; n];
    let v = compute_bar_vertice(&heights, &steps).unwrap();
    assert_eq!(v.len(), 3 * n + 1);
    assert_eq!(v[0].x, -(SCALE as i64));
    for i in 1..=n {
        assert!(v[i - 1].x < v[i].x);
        assert_eq!(v[i].y, -(SCALE as i64));
    }
    // the telescoping sum of the increments spans [-1, 1] up to rounding
    let drift = v[n].x - SCALE as i64;
    assert!(drift.abs() < SCALE as i64 / 100);
}

#[test]
fn top_band_shares_baseline_x_and_carries_heights() {
    let n: usize = 1;
    let heights: Vec<u64> = vec![SCALE];
    let steps: Vec<u64> = vec![SCALE / 2];
    let v = compute_bar_vertice(&heights, &steps).unwrap();
    assert_eq!(v.len(), 4);
    let s = SCALE as i64;
    assert_eq!((v[0].x, v[0].y, v[0].z), (-s, -s, 0));
    assert_eq!((v[1].x, v[1].y, v[1].z), (-s + s / 2, -s, 0));
    // two top vertices: left shares x with baseline 0, right with baseline 1,
    // both at height 1.0 - 1.0 == 0
    assert_eq!((v[2].x, v[2].y, v[2].z), (-s, 0, 0));
    assert_eq!((v[3].x, v[3].y, v[3].z), (-s + s / 2, 0, 0));
}

#[test]
fn mismatched_heights_length_fails() {
    let heights: Vec<u64> = vec![0, 0, 0];
    let steps: Vec<u64> = vec![1, 1, 1, 1];
    assert_eq!(
        compute_bar_vertice(&heights, &steps),
        Err(VisualizerError::LengthMismatch)
    );
}
