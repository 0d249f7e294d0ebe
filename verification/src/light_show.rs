//! LED light show: on every note attack the LED flashes to a brightness peak
//! that depends on pitch (higher note, brighter), then fades linearly over
//! the note's duration. On a rest the LED is dark.

use vstd::prelude::*;

use crate::util::peak_brightness;

verus! {

/// Notes at or below this frequency get the minimum brightness.
pub const LOW_HZ: u32 = 200;

/// Notes at or above this frequency get full brightness.
pub const HIGH_HZ: u32 = 900;

/// Number of linear fade steps from the peak down toward off.
pub const FADE_STEPS: u64 = 24;

/// How one note is shown: the duty of each fade step, in order, and how long
/// each step lasts. The LED goes dark after the last step.
pub struct Flash {
    pub step_ms: u64,
    pub duties: Vec<u16>,
}

/// Duty of fade step `i` (of 24) for a flash peaking at `peak`.
pub open spec fn fade_duty_spec(peak: int, i: int) -> int {
    peak * (24 - i) / 24
}

/// Length of one fade step for a note of `tone_ms`: a 24th of it, at least
/// one millisecond.
pub open spec fn fade_step_spec(tone_ms: int) -> int {
    if tone_ms / 24 < 1 {
        1
    } else {
        tone_ms / 24
    }
}

/// The flash for a note: `None` for a rest (frequency zero), which keeps the
/// LED dark; otherwise a fade from the pitch-dependent peak over
/// `[LOW_HZ, HIGH_HZ]`.
pub fn note_flash(freq_hz: u32, tone_ms: u64, max_duty: u16) -> (f: Option<Flash>)
    ensures
        freq_hz == 0 <==> f is None,
        f matches Some(fl) ==> {
            &&& fl.step_ms == fade_step_spec(tone_ms as int)
            &&& fl.duties@.len() == FADE_STEPS
            &&& forall|i: int|
                0 <= i < FADE_STEPS ==> #[trigger] fl.duties@[i] == fade_duty_spec(
                    crate::util::peak_brightness_spec(
                        freq_hz as int,
                        LOW_HZ as int,
                        HIGH_HZ as int,
                        max_duty as int,
                    ),
                    i,
                )
        },
{
    if freq_hz == 0 {
        return None;
    }
    let peak: u32 = peak_brightness(freq_hz, LOW_HZ, HIGH_HZ, max_duty as u32);
    let share: u64 = tone_ms / FADE_STEPS;
    let step_ms: u64 = if share < 1 { 1 } else { share };
    let mut duties: Vec<u16> = Vec::new();
    let mut i: u64 = 0;
    while i < FADE_STEPS
        invariant
            i <= FADE_STEPS,
            peak <= 0xffff,
            duties@.len() == i,
            forall|j: int| 0 <= j < i ==> #[trigger] duties@[j] == fade_duty_spec(peak as int, j),
        decreases FADE_STEPS - i,
    {
        let left: u32 = (FADE_STEPS - i) as u32;
        assert(peak * left <= 0xffff * 24) by (nonlinear_arith)
            requires
                peak <= 0xffff,
                left <= 24,
        ;
        proof {
            crate::util::lemma_scaled_fraction(peak as int, left as int, 24);
            assert(peak * left == left * peak) by (nonlinear_arith);
        }
        let duty: u32 = peak * left / (FADE_STEPS as u32);
        duties.push(duty as u16);
        i = i + 1;
    }
    Some(Flash { step_ms, duties })
}

/// The fade starts at the peak, never brightens, and never exceeds the peak.
pub proof fn law_fade_is_monotone(peak: nat, i: int, j: int)
    requires
        0 <= i <= j < 24,
    ensures
        fade_duty_spec(peak as int, 0) == peak,
        fade_duty_spec(peak as int, j) <= fade_duty_spec(peak as int, i) <= peak,
{
    assert(peak * (24 - j) <= peak * (24 - i)) by (nonlinear_arith)
        requires
            i <= j,
    ;
    vstd::arithmetic::div_mod::lemma_div_is_ordered(peak * (24 - j), peak * (24 - i), 24);
    crate::util::lemma_scaled_fraction(peak as int, 24 - i, 24);
    assert(peak * (24 - i) == (24 - i) * peak) by (nonlinear_arith);
}


/// The 24 fade steps span the note: for a note of at least 24 ms each step
/// is the note's length divided into 24 (rounded down), so the fade ends
/// within 24 ms of the note's end; shorter notes step every millisecond.
pub proof fn law_fade_spans_the_note(tone_ms: u64)
    ensures
        tone_ms >= 24 ==> fade_step_spec(tone_ms as int) * 24 <= tone_ms < (fade_step_spec(
            tone_ms as int,
        ) + 1) * 24,
        tone_ms < 24 ==> fade_step_spec(tone_ms as int) == 1,
{
}

} // verus!
