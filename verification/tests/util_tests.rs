use black_sitizator::songs::{tetris_bass, tetris_melody};
use black_sitizator::util::{peak_brightness, track_total_ms, vibrato_freq};

// --- vibrato_freq ---

#[test]
fn vibrato_zero_cents_is_identity() {
    for freq in [110u32, 220, 440, 880] {
        assert_eq!(vibrato_freq(freq, 0), freq);
    }
}

#[test]
fn vibrato_positive_cents_raises_freq() {
    assert!(vibrato_freq(440, 10) > 440);
    assert!(vibrato_freq(880, 50) > 880);
}

#[test]
fn vibrato_negative_cents_lowers_freq() {
    assert!(vibrato_freq(440, -10) < 440);
    assert!(vibrato_freq(880, -50) < 880);
}

#[test]
fn vibrato_exact_values() {
    // 440 * 10060 / 10000 = 442.64 -> 442; 440 * 9940 / 10000 = 437.36 -> 437.
    assert_eq!(vibrato_freq(440, 10), 442);
    assert_eq!(vibrato_freq(440, -10), 437);
    assert_eq!(vibrato_freq(1000, 100), 1060);
    assert_eq!(vibrato_freq(0, 100), 0);
}

#[test]
fn vibrato_negative_quotient_wraps_modulo_2_pow_32() {
    // 10 * (10000 - 6 * 2000) / 10000 = -2 (rounded toward zero), taken mod 2^32.
    assert_eq!(vibrato_freq(10, -2000), u32::MAX - 1);
    // -0.6 rounds toward zero to 0.
    assert_eq!(vibrato_freq(3, -1700), 0);
}

#[test]
fn vibrato_stays_within_seven_percent() {
    for freq in [80u32, 200, 440, 1999] {
        for cents in [-100i32, -57, 0, 33, 99, 100] {
            let r = vibrato_freq(freq, cents);
            assert!(r >= freq * 93 / 100);
            assert!(r <= freq * 107 / 100 + 1);
        }
    }
}

#[test]
fn vibrato_sign_follows_cents_in_music_range() {
    for freq in [200u32, 523, 1999] {
        for cents in [20i32, 50, 99] {
            assert!(vibrato_freq(freq, cents) > freq);
            assert!(vibrato_freq(freq, -cents) < freq);
        }
    }
}

// --- peak_brightness ---

#[test]
fn peak_brightness_clamps_low_to_minimum() {
    // freq < low_hz -> min brightness = max/8
    let max = 16_000u32;
    assert_eq!(peak_brightness(50, 200, 900, max), max / 8);
}

#[test]
fn peak_brightness_clamps_high_to_maximum() {
    // freq > high_hz -> full brightness = max
    let max = 16_000u32;
    assert_eq!(peak_brightness(2000, 200, 900, max), max);
}

#[test]
fn peak_brightness_at_low_endpoint_is_min() {
    let max = 16_000u32;
    assert_eq!(peak_brightness(200, 200, 900, max), max / 8);
}

#[test]
fn peak_brightness_at_high_endpoint_is_max() {
    let max = 16_000u32;
    assert_eq!(peak_brightness(900, 200, 900, max), max);
}

#[test]
fn peak_brightness_interpolates_linearly() {
    // 2000 + 14000 * 350 / 700 = 9000
    assert_eq!(peak_brightness(550, 200, 900, 16_000), 9_000);
    // 2000 + 14000 * 100 / 700 = 4000
    assert_eq!(peak_brightness(300, 200, 900, 16_000), 4_000);
}

#[test]
fn peak_brightness_full_when_max_not_multiple_of_eight() {
    // At and above high_hz the LED is at full brightness, even when max / 8 and
    // max * 7 / 8 would round down to one less.
    assert_eq!(peak_brightness(5_000, 200, 900, 9), 9);
    assert_eq!(peak_brightness(900, 200, 900, 15), 15);
    // Just below the top the linear part applies: 1 + 13 * 699 / 700 = 13.
    assert_eq!(peak_brightness(899, 200, 900, 15), 13);
}

#[test]
fn peak_brightness_large_max_does_not_overflow() {
    let max = u32::MAX;
    let b = peak_brightness(900, 200, 900, max);
    assert_eq!(b, max);
    let mid = peak_brightness(550, 200, 900, max);
    assert_eq!(mid as u64, max as u64 / 8 + (max as u64 * 7 / 8) * 350 / 700);
    assert!(b >= max / 8 && b <= max);
}

#[test]
fn peak_brightness_monotonic_in_freq() {
    let mut last = 0u32;
    let mut f = 100u32;
    while f < 2_000 {
        let b = peak_brightness(f, 200, 900, 16_000);
        assert!(b >= last);
        last = b;
        f += 37;
    }
}

// --- track_total_ms ---

#[test]
fn track_total_ms_empty_is_zero() {
    let empty: &[(u32, u32)] = &[];
    assert_eq!(track_total_ms(empty), 0);
}

#[test]
fn track_total_ms_sums_durations() {
    let t: &[(u32, u32)] = &[(440, 100), (494, 200), (523, 300)];
    assert_eq!(track_total_ms(t), 600);
}

#[test]
fn track_total_ms_ignores_frequencies() {
    // Same total whether the frequencies are A4 or A5 — only durations matter.
    let t1: &[(u32, u32)] = &[(440, 200), (440, 200)];
    let t2: &[(u32, u32)] = &[(880, 200), (110, 200)];
    assert_eq!(track_total_ms(t1), track_total_ms(t2));
}

#[test]
fn track_total_ms_handles_large_durations() {
    let t: &[(u32, u32)] = &[(1, u32::MAX), (2, u32::MAX), (3, 1)];
    assert_eq!(track_total_ms(t), 2 * u32::MAX as u64 + 1);
}

// --- songs ---

#[test]
fn tetris_tracks_are_phase_locked() {
    let melody = tetris_melody();
    let bass = tetris_bass();
    assert_eq!(melody.len(), 39);
    assert_eq!(bass.len(), 16);
    assert_eq!(track_total_ms(&melody), track_total_ms(&bass));
    assert_eq!(track_total_ms(&bass), 12_800);
}

#[test]
fn tetris_tracks_start_and_end_as_written() {
    let melody = tetris_melody();
    let bass = tetris_bass();
    assert_eq!(melody[0], (659, 400));
    assert_eq!(melody[38], (0, 400));
    assert_eq!(bass[0], (110, 800));
    assert_eq!(bass[15], (165, 800));
    assert!(bass.iter().all(|&(_, d)| d == 800));
}
