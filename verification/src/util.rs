//! Pitch, brightness and track-length arithmetic shared by the voice and
//! light-show tasks.

use vstd::prelude::*;

verus! {

/// Rust's `/` on signed integers: the quotient rounded toward zero.
pub open spec fn trunc_div(a: int, b: int) -> int
    recommends
        b > 0,
{
    if a >= 0 {
        a / b
    } else {
        -((-a) / b)
    }
}

/// The multiplier numerator used for `cents` of vibrato: `10000 + 6 * cents`.
pub open spec fn vibrato_scale(cents: int) -> int {
    10_000 + cents * 6
}

/// The exact (unwrapped) vibrato frequency: `base * (10000 + 6 * cents) / 10000`,
/// rounded toward zero.
pub open spec fn vibrato_exact(base_hz: int, cents: int) -> int {
    trunc_div(base_hz * vibrato_scale(cents), 10_000)
}

/// Apply a vibrato cents offset to a base frequency.
///
/// 1 cent is about 0.0578 %, so for small offsets the multiplier
/// `1 + cents * 6 / 10000` is a tight linear approximation. The result is the
/// exact quotient taken modulo 2^32 (it is the quotient itself whenever that
/// fits a `u32`).
pub fn vibrato_freq(base_hz: u32, cents: i32) -> (r: u32)
    requires
        i64::MIN <= base_hz * vibrato_scale(cents as int) <= i64::MAX,
    ensures
        r as int == vibrato_exact(base_hz as int, cents as int) % 0x1_0000_0000,
        0 <= vibrato_exact(base_hz as int, cents as int) <= u32::MAX ==> r as int
            == vibrato_exact(base_hz as int, cents as int),
{
    let scaled: i64 = 10_000i64 + cents as i64 * 6;
    let product: i64 = base_hz as i64 * scaled;
    let q: i64 = product / 10_000;
    let m: i64 = q % 0x1_0000_0000;
    let w: i64 = if m < 0 { m + 0x1_0000_0000 } else { m };
    w as u32
}


/// `freq` clamped into `[low, high]`.
pub open spec fn clamp_hz(freq: int, low: int, high: int) -> int {
    if freq < low {
        low
    } else if freq > high {
        high
    } else {
        freq
    }
}

/// The brightness for a note: full brightness `max` once the frequency
/// reaches `high`; below that, `max / 8` plus `max * 7 / 8` scaled linearly
/// by where the clamped frequency sits in `[low, high]` (integer division at
/// each step).
pub open spec fn peak_brightness_spec(freq: int, low: int, high: int, max: int) -> int {
    if freq >= high {
        max
    } else {
        max / 8 + (max * 7 / 8) * (clamp_hz(freq, low, high) - low) / (high - low)
    }
}

/// Map a note frequency to peak LED brightness via linear interpolation over
/// `[low_hz, high_hz]`, clamped to `[max_duty / 8, max_duty]` so even the
/// quietest note stays visible.
///
/// Computed in `u64` internally so that large `max_duty` values cannot
/// overflow.
pub fn peak_brightness(freq_hz: u32, low_hz: u32, high_hz: u32, max_duty: u32) -> (r: u32)
    requires
        low_hz < high_hz,
    ensures
        r == peak_brightness_spec(freq_hz as int, low_hz as int, high_hz as int, max_duty as int),
        max_duty / 8 <= r <= max_duty,
        freq_hz >= high_hz ==> r == max_duty,
        freq_hz <= low_hz ==> r == max_duty / 8,
{
    if freq_hz >= high_hz {
        return max_duty;
    }
    let f: u32 = if freq_hz < low_hz {
        low_hz
    } else if freq_hz > high_hz {
        high_hz
    } else {
        freq_hz
    };
    let max: u64 = max_duty as u64;
    let span: u64 = (high_hz - low_hz) as u64;
    let offset: u64 = (f - low_hz) as u64;
    let min_b: u64 = max / 8;
    let scaled: u64 = max * 7 / 8;
    proof {
        lemma_scaled_fraction(scaled as int, offset as int, span as int);
        assert(scaled * offset <= scaled * span) by (nonlinear_arith)
            requires
                offset <= span,
        ;
        assert(scaled * span <= 0xffff_ffff * 0xffff_ffff) by (nonlinear_arith)
            requires
                scaled <= 0xffff_ffff,
                span <= 0xffff_ffff,
        ;
    }
    let frac: u64 = scaled * offset / span;
    proof {
        assert(max / 8 + max * 7 / 8 <= max);
        assert(scaled * 0 == 0);
    }
    (min_b + frac) as u32
}

/// `s * o / d` lies in `[0, s]` when `0 <= o <= d` and `d > 0`.
pub proof fn lemma_scaled_fraction(s: int, o: int, d: int)
    requires
        s >= 0,
        0 <= o <= d,
        d > 0,
    ensures
        0 <= s * o / d <= s,
{
    assert(0 <= s * o) by (nonlinear_arith)
        requires
            s >= 0,
            o >= 0,
    ;
    assert(s * o <= s * d) by (nonlinear_arith)
        requires
            s >= 0,
            o <= d,
    ;
    vstd::arithmetic::div_mod::lemma_div_is_ordered(s * o, s * d, d);
    vstd::arithmetic::div_mod::lemma_div_multiples_vanish(s, d);
    assert(s * d == d * s) by (nonlinear_arith);
    vstd::arithmetic::div_mod::lemma_div_pos_is_pos(s * o, d);
}

/// Sum of the durations (second components) of a track.
pub open spec fn total_ms(track: Seq<(u32, u32)>) -> nat
    decreases track.len(),
{
    if track.len() == 0 {
        0
    } else {
        total_ms(track.drop_last()) + track.last().1 as nat
    }
}

/// Total duration of a track in milliseconds.
pub fn track_total_ms(track: &[(u32, u32)]) -> (r: u64)
    requires
        total_ms(track@) <= u64::MAX,
    ensures
        r == total_ms(track@),
{
    let mut total: u64 = 0;
    let mut i: usize = 0;
    while i < track.len()
        invariant
            i <= track@.len(),
            total == total_ms(track@.take(i as int)),
            total_ms(track@) <= u64::MAX,
        decreases track.len() - i,
    {
        proof {
            assert(track@.take(i as int + 1).drop_last() =~= track@.take(i as int));
            lemma_total_prefix_le(track@, i as int + 1);
        }
        total = total + track[i].1 as u64;
        i = i + 1;
    }
    proof {
        assert(track@.take(i as int) =~= track@);
    }
    total
}

/// The total of a prefix never exceeds the total of the whole track.
pub proof fn lemma_total_prefix_le(track: Seq<(u32, u32)>, n: int)
    requires
        0 <= n <= track.len(),
    ensures
        total_ms(track.take(n)) <= total_ms(track),
    decreases track.len(),
{
    if n < track.len() {
        assert(track.drop_last().take(n) =~= track.take(n));
        lemma_total_prefix_le(track.drop_last(), n);
    } else {
        assert(track.take(n) =~= track);
    }
}


/// With zero cents of vibrato the frequency is returned unchanged.
pub proof fn law_vibrato_zero_cents_is_identity(base_hz: u32)
    ensures
        vibrato_exact(base_hz as int, 0) == base_hz,
{
    assert(base_hz * vibrato_scale(0) == base_hz * 10_000);
}

/// For offsets of at most 100 cents either way the vibrato frequency stays
/// within seven percent of the base: between `base * 93 / 100` and
/// `base * 107 / 100 + 1`.
pub proof fn law_vibrato_within_seven_percent(base_hz: u32, cents: i32)
    requires
        -100 <= cents <= 100,
    ensures
        base_hz * 93 / 100 <= vibrato_exact(base_hz as int, cents as int),
        vibrato_exact(base_hz as int, cents as int) <= base_hz * 107 / 100 + 1,
{
    let b = base_hz as int;
    let c = cents as int;
    let p = b * vibrato_scale(c);
    assert(b * 9_400 <= p <= b * 10_600) by (nonlinear_arith)
        requires
            p == b * (10_000 + c * 6),
            -100 <= c <= 100,
            b >= 0,
    ;
    assert(p >= 0);
    vstd::arithmetic::div_mod::lemma_div_is_ordered(b * 9_300, b * 9_400, 10_000);
    vstd::arithmetic::div_mod::lemma_div_is_ordered(b * 9_400, p, 10_000);
    vstd::arithmetic::div_mod::lemma_div_is_ordered(p, b * 10_600, 10_000);
    vstd::arithmetic::div_mod::lemma_div_is_ordered(b * 10_600, b * 10_700, 10_000);
    assert(b * 9_300 / 10_000 == b * 93 / 100);
    assert(b * 10_700 / 10_000 == b * 107 / 100);
}

/// Positive cents raise the frequency once the shift `base * cents * 6 /
/// 10000` reaches at least one hertz; the same negative offset then lowers it.
pub proof fn law_vibrato_sign_follows_cents(base_hz: u32, cents: i32)
    requires
        cents > 0,
        cents * 6 <= 10_000,
        base_hz * cents * 6 >= 10_000,
    ensures
        vibrato_exact(base_hz as int, cents as int) > base_hz,
        vibrato_exact(base_hz as int, -cents as int) < base_hz,
{
    let b = base_hz as int;
    let c = cents as int;
    let d = b * c * 6;
    assert(b * vibrato_scale(c) == b * 10_000 + d) by (nonlinear_arith)
        requires
            d == b * c * 6,
    ;
    assert(b * vibrato_scale(-c) == b * 10_000 - d) by (nonlinear_arith)
        requires
            d == b * c * 6,
    ;
    assert(b * 10_000 - d >= 0) by (nonlinear_arith)
        requires
            d == b * c * 6,
            c * 6 <= 10_000,
            b >= 0,
    ;
    vstd::arithmetic::div_mod::lemma_div_is_ordered(b * 10_000 + 10_000, b * 10_000 + d, 10_000);
    assert((b * 10_000 + 10_000) / 10_000 == b + 1);
    vstd::arithmetic::div_mod::lemma_div_is_ordered(b * 10_000 - d, b * 10_000 - 1, 10_000);
    assert((b * 10_000 - 1) / 10_000 == b - 1);
}

/// Brighter for higher notes: the peak brightness never decreases as the
/// frequency rises.
pub proof fn law_peak_brightness_monotonic(f1: u32, f2: u32, low_hz: u32, high_hz: u32, max_duty: u32)
    requires
        low_hz < high_hz,
        f1 <= f2,
    ensures
        peak_brightness_spec(f1 as int, low_hz as int, high_hz as int, max_duty as int)
            <= peak_brightness_spec(f2 as int, low_hz as int, high_hz as int, max_duty as int),
{
    let s = max_duty * 7 / 8;
    let o1 = clamp_hz(f1 as int, low_hz as int, high_hz as int) - low_hz;
    let o2 = clamp_hz(f2 as int, low_hz as int, high_hz as int) - low_hz;
    assert(s * o1 <= s * o2) by (nonlinear_arith)
        requires
            s >= 0,
            o1 <= o2,
    ;
    vstd::arithmetic::div_mod::lemma_div_is_ordered(s * o1, s * o2, high_hz - low_hz);
    lemma_scaled_fraction(s, o1, high_hz - low_hz);
    assert(max_duty / 8 + max_duty * 7 / 8 <= max_duty);
}

/// Notes at or below `low_hz` get the minimum `max / 8`; notes at or above
/// `high_hz` get full brightness `max`.
pub proof fn law_peak_brightness_endpoints(freq_hz: u32, low_hz: u32, high_hz: u32, max_duty: u32)
    requires
        low_hz < high_hz,
    ensures
        freq_hz <= low_hz ==> peak_brightness_spec(
            freq_hz as int,
            low_hz as int,
            high_hz as int,
            max_duty as int,
        ) == max_duty / 8,
        freq_hz >= high_hz ==> peak_brightness_spec(
            freq_hz as int,
            low_hz as int,
            high_hz as int,
            max_duty as int,
        ) == max_duty,
{
    let s = max_duty * 7 / 8;
    assert(s * 0 == 0);
}

/// A track's total duration depends only on its durations, not on its
/// frequencies.
pub proof fn law_total_ignores_frequencies(t1: Seq<(u32, u32)>, t2: Seq<(u32, u32)>)
    requires
        t1.len() == t2.len(),
        forall|i: int| 0 <= i < t1.len() ==> #[trigger] t1[i].1 == t2[i].1,
    ensures
        total_ms(t1) == total_ms(t2),
    decreases t1.len(),
{
    if t1.len() > 0 {
        law_total_ignores_frequencies(t1.drop_last(), t2.drop_last());
    }
}

} // verus!
