use beatrec::envelope::{compute_envelope, window_size};
use beatrec::sample::SAMPLE_SCALE;

fn mono_segment(frames: usize, value: i32) -> Vec<Vec<i32>> {
    let mut seg = Vec::new();
    for _ in 0..frames {
        seg.push(vec![value]);
    }
    seg
}

#[test]
fn window_size_rounds_cycle_over_resolution() {
    assert_eq!(window_size(24000), 10);
    assert_eq!(window_size(2400), 1);
    assert_eq!(window_size(4800), 2);
    assert_eq!(window_size(0), 0);
    // Below half a window the rounded size is zero.
    assert_eq!(window_size(1199), 0);
    assert_eq!(window_size(1200), 1);
}

#[test]
fn full_cycle_gives_resolution_many_values() {
    let half = SAMPLE_SCALE / 2;
    let seg = mono_segment(24000, half);
    let env = compute_envelope(&seg, 24000);
    assert_eq!(env.len(), 2400);
    for v in env {
        assert_eq!(v, -half);
    }
}

#[test]
fn trailing_partial_window_is_discarded() {
    let seg = mono_segment(25, 1000);
    let env = compute_envelope(&seg, 24000);
    assert_eq!(env.len(), 2);
}

#[test]
fn zero_window_size_gives_empty_envelope() {
    let seg = mono_segment(100, 1000);
    assert_eq!(compute_envelope(&seg, 0), Vec::<i32>::new());
    assert_eq!(compute_envelope(&seg, 1199), Vec::<i32>::new());
}

#[test]
fn envelope_values_are_clamped_for_extreme_samples() {
    let loud = mono_segment(4, i32::MAX);
    let env = compute_envelope(&loud, 2400);
    assert_eq!(env.len(), 4);
    for v in env {
        assert_eq!(v, -SAMPLE_SCALE);
    }
    let quiet = mono_segment(4, i32::MIN);
    let env = compute_envelope(&quiet, 2400);
    assert_eq!(env.len(), 4);
    for v in env {
        assert_eq!(v, SAMPLE_SCALE);
    }
}

#[test]
fn envelope_means_across_channels_and_frames() {
    // Window size 2: each value is the negated mean of two frame means.
    let seg = vec![vec![SAMPLE_SCALE, 0], vec![3], vec![4], vec![-3], vec![-4]];
    let env = compute_envelope(&vec![seg[1].clone(), seg[2].clone()], 4800);
    assert_eq!(env, vec![-3]); // (3 + 4) / 2 truncates toward zero
    let env = compute_envelope(&vec![seg[3].clone(), seg[4].clone()], 4800);
    assert_eq!(env, vec![3]); // (-3 + -4) / 2 truncates toward zero
    let env = compute_envelope(&vec![seg[0].clone(), seg[0].clone()], 4800);
    assert_eq!(env, vec![-SAMPLE_SCALE / 2]); // per-frame mean across channels
}
