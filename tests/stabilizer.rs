use oscilloscope::buffer::{mid_mix, padded_buffer};
use oscilloscope::stabilizer::{stabilize, SEARCH_RADIUS};

const B: usize = 4096;
const S: u32 = 48000;
const F: u32 = 60;

fn mono_buffer(samples: &[i32], b: usize) -> Vec<i32> {
    let stereo: Vec<(i32, i32)> = samples.iter().map(|&s| (s, s)).collect();
    padded_buffer(&stereo, b)
}

fn cursor(k: usize) -> usize {
    2 * B + (k as u64 * S as u64 / F as u64) as usize
}

fn clamp(v: usize, lo: usize, hi: usize) -> usize {
    v.max(lo).min(hi)
}

#[test]
fn mid_mix_rounds_down() {
    assert_eq!(mid_mix(3, 0), 1);
    assert_eq!(mid_mix(-3, 0), -2);
    assert_eq!(mid_mix(-1, 0), -1);
    assert_eq!(mid_mix(10, -4), 3);
    assert_eq!(mid_mix(i32::MAX, i32::MAX), i32::MAX);
    assert_eq!(mid_mix(i32::MIN, i32::MIN), i32::MIN);
    assert_eq!(mid_mix(i32::MIN, i32::MAX), -1);
}

#[test]
fn buffer_is_padded_mid_mix() {
    let stereo = vec![(2, 4), (-1, -2), (7, -7), (5, 0)];
    let b = 3;
    let buf = padded_buffer(&stereo, b);
    assert_eq!(buf.len(), 4 * b + stereo.len());
    for j in 0..2 * b {
        assert_eq!(buf[j], 0);
    }
    assert_eq!(&buf[2 * b..2 * b + 4], &[3, -2, 0, 2]);
    for j in 2 * b + stereo.len()..buf.len() {
        assert_eq!(buf[j], 0);
    }
}

#[test]
fn empty_input_gives_only_padding() {
    let buf = padded_buffer(&[], 5);
    assert_eq!(buf, vec![0; 20]);
    let table = stabilize(&buf, 5, S, F, SEARCH_RADIUS);
    assert!(table.iter().all(|&i| 10 <= i && i <= 20));
    assert_eq!(*table.last().unwrap(), 20);
}

#[test]
fn sine_wave_locks_to_whole_periods() {
    let samples: Vec<i32> = (0..S as usize)
        .map(|i| {
            let t = i as f64 / S as f64;
            ((2.0 * std::f64::consts::PI * 440.0 * t).sin() * 1_000_000.0).floor() as i32
        })
        .collect();
    let buf = mono_buffer(&samples, B);
    let table = stabilize(&buf, B, S, F, SEARCH_RADIUS);
    // While the signal fills the search window, every step is a whole number
    // of periods (48000 / 440 samples), up to the one-sample grid.
    let mut k = 1;
    while cursor(k) <= 2 * B + samples.len() {
        let d = (table[k] - table[k - 1]) as i64;
        let periods = (d * 440 + 24000) / 48000;
        assert!(periods >= 1, "frame {k} did not advance: {d}");
        assert!((d * 440 - periods * 48000).abs() <= 440, "frame {k}: step {d}");
        k += 1;
    }
    assert_eq!(k, 61);
}

#[test]
fn dc_signal_follows_cursor() {
    let samples = vec![0; 2 * S as usize];
    let buf = mono_buffer(&samples, B);
    let table = stabilize(&buf, B, S, F, SEARCH_RADIUS);
    let n = table.len() - 1;
    for k in 0..n {
        assert_eq!(table[k], clamp(cursor(k) + B / 2, 2 * B, buf.len()));
    }
    assert_eq!(table[n], buf.len());
    assert!(cursor(n) > buf.len());
    assert!(cursor(n - 1) <= buf.len());
}

#[test]
fn short_buffer_ends_on_second_frame() {
    let b = 4;
    let samples: Vec<i32> = (0..100).map(|i| if i % 10 < 5 { -50 } else { 50 }).collect();
    let buf = mono_buffer(&samples, b);
    assert!(buf.len() < 2 * b + (S / F) as usize);
    let table = stabilize(&buf, b, S, F, SEARCH_RADIUS);
    assert_eq!(table.len(), 2);
    assert_eq!(table[1], buf.len());
}

#[test]
fn index_table_length() {
    let samples = vec![0; 48000];
    let buf = mono_buffer(&samples, B);
    let table = stabilize(&buf, B, S, F, SEARCH_RADIUS);
    // One entry for each frame whose cursor lies in the padded buffer, then
    // the closing entry.
    let expected = ((buf.len() - 2 * B + 1) * F as usize - 1) / S as usize + 2;
    assert_eq!(expected, 72);
    assert_eq!(table.len(), expected);
}

#[test]
fn table_entries_stay_in_buffer() {
    let samples: Vec<i32> = (0..20000)
        .map(|i| ((i * 7919 + 13) % 2001) as i32 - 1000)
        .collect();
    let buf = mono_buffer(&samples, 512);
    let table = stabilize(&buf, 512, 8000, 30, 300);
    assert!(table.iter().all(|&i| 1024 <= i && i <= buf.len()));
    assert_eq!(*table.last().unwrap(), buf.len());
    let expected = ((buf.len() - 1024 + 1) * 30 - 1) / 8000 + 2;
    assert_eq!(table.len(), expected);
}

#[test]
fn stabilizing_twice_gives_same_table() {
    let samples: Vec<i32> = (0..30000)
        .map(|i| (((i * 37) % 211) as i32 - 105) * 1000 + ((i * 13) % 17) as i32)
        .collect();
    let buf = mono_buffer(&samples, B);
    let first = stabilize(&buf, B, S, F, SEARCH_RADIUS);
    let second = stabilize(&buf, B, S, F, SEARCH_RADIUS);
    assert_eq!(first, second);
}

#[test]
fn closest_crossing_wins_and_ties_go_high() {
    // A square wave with period 10: crossings at 2b + 5, 2b + 15, ...
    let b = 8;
    let samples: Vec<i32> = (0..60).map(|i| if i % 10 < 5 { -50 } else { 50 }).collect();
    let buf = mono_buffer(&samples, b);
    // s / f = 20 samples per frame, radius 20.
    let table = stabilize(&buf, b, 20, 1, 20);
    // Frame 0: the search window lies in the leading zeros.
    assert_eq!(table[0], 2 * b + b / 2);
    // Frame 1: crossings 2b + 5 and 2b + 15 against the zero window: the
    // window before 2b + 5 is closer (distance 250 against 400).
    assert_eq!(table[1], 2 * b + 5 + b / 2);
    // Frame 2: crossings 2b + 25 and 2b + 35 against the window before
    // 2b + 5: both at distance 150, a tie won by the higher one.
    assert_eq!(table[2], 2 * b + 35 + b / 2);
}
