use toy_piano::audio::fill_silence;
use toy_piano::audio::finish_block;
use toy_piano::audio::frame_count;
use toy_piano::audio::interleave;

fn half_sum(l: f32, r: f32) -> f32 {
    (l + r) * 0.5
}

#[test]
fn block_has_n_times_c_samples_and_silent_extra_channels() {
    for n in 1usize..=9 {
        for c in [1usize, 2, 4] {
            let left: Vec<f32> = (0..n).map(|i| 0.25 + i as f32).collect();
            let right: Vec<f32> = (0..n).map(|i| -0.5 - i as f32).collect();
            let mut out = vec![7.0f32; n * c];
            finish_block(&mut out, c, true, &left, &right, 0.0, half_sum);
            assert_eq!(out.len(), n * c);
            for (k, s) in out.iter().enumerate() {
                if k % c >= 2 {
                    assert_eq!(*s, 0.0);
                }
            }
        }
    }
}

#[test]
fn stereo_interleaves_left_then_right() {
    let left = vec![1.0f32, 2.0, 3.0];
    let right = vec![-1.0f32, -2.0, -3.0];
    let mut out = vec![9.0f32; 6];
    interleave(&mut out, 2, &left, &right, 0.0, half_sum);
    assert_eq!(out, vec![1.0, -1.0, 2.0, -2.0, 3.0, -3.0]);
}

#[test]
fn four_channels_silence_beyond_second() {
    let left = vec![0.5f32, 0.25];
    let right = vec![-0.5f32, -0.25];
    let mut out = vec![9.0f32; 8];
    interleave(&mut out, 4, &left, &right, 0.0, half_sum);
    assert_eq!(out, vec![0.5, -0.5, 0.0, 0.0, 0.25, -0.25, 0.0, 0.0]);
}

#[test]
fn mono_mixes_down() {
    let left = vec![1.0f32, 0.5, 0.0];
    let right = vec![0.0f32, 0.5, -1.0];
    let mut out = vec![9.0f32; 3];
    interleave(&mut out, 1, &left, &right, 0.0, half_sum);
    assert_eq!(out, vec![0.5, 0.5, -0.5]);
}

#[test]
fn failed_render_gives_silence() {
    let left = vec![1.0f32, 2.0];
    let right = vec![3.0f32, 4.0];
    let mut out = vec![9.0f32; 4];
    finish_block(&mut out, 2, false, &left, &right, 0.0, half_sum);
    assert_eq!(out, vec![0.0; 4]);
}

#[test]
fn fill_silence_clears_block() {
    let mut out = vec![1i16, -2, 3];
    fill_silence(&mut out, 0);
    assert_eq!(out, vec![0, 0, 0]);
    let mut empty: Vec<i16> = Vec::new();
    fill_silence(&mut empty, 0);
    assert!(empty.is_empty());
}

#[test]
fn frame_count_divides_by_channels() {
    assert_eq!(frame_count(512, 2), 256);
    assert_eq!(frame_count(512, 1), 512);
    assert_eq!(frame_count(12, 4), 3);
    assert_eq!(frame_count(0, 2), 0);
    assert_eq!(frame_count(7, 2), 3);
}
