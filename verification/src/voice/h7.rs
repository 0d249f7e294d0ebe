//! STM32H743 voice backend: eight logical DDS voices mixed onto one PWM
//! audio pin. Each voice is a phase accumulator driving a triangle wave; the
//! active voices are averaged into one duty cycle per audio sample.

use vstd::prelude::*;

use crate::voice::{Delivery, RoutedVoiceCmd, VoiceCmd, LED_FADE_HINT_MS};

verus! {

/// Number of logical voices on this board.
pub const VOICE_COUNT: usize = 8;

/// Audio sample rate of the mixer.
pub const AUDIO_SAMPLE_HZ: u32 = 8_192;

/// PWM carrier frequency of the audio pin.
pub const AUDIO_PWM_HZ: u32 = 65_536;

/// Peak amplitude of one voice's triangle wave.
pub const WAVE_PEAK: i32 = 127;

/// Share of the PWM range used at full output, in percent.
pub const OUTPUT_DUTY_PCT: i32 = 20;

/// One DDS voice: the note it plays (if any), its phase accumulator and the
/// phase increment per sample.
#[derive(Clone, Copy, Debug, PartialEq, Eq, Structural)]
pub struct Oscillator {
    pub note: Option<u8>,
    pub phase: u32,
    pub phase_step: u32,
}

/// The silent oscillator.
pub open spec fn idle_spec() -> Oscillator {
    Oscillator { note: None, phase: 0, phase_step: 0 }
}

impl Oscillator {
    /// A silent voice.
    pub fn idle() -> (o: Self)
        ensures
            o == idle_spec(),
    {
        Oscillator { note: None, phase: 0, phase_step: 0 }
    }
}

/// Phase increment per sample for `freq_hz`: `freq * 2^32 / 8192` taken
/// modulo 2^32 (a full turn of the accumulator is one period).
pub open spec fn phase_step_spec(freq_hz: u32) -> u32 {
    ((freq_hz as int * 524_288) % 0x1_0000_0000) as u32
}

/// Phase increment per sample for a note of `freq_hz`.
pub fn phase_step(freq_hz: u32) -> (r: u32)
    ensures
        r == phase_step_spec(freq_hz),
{
    let wide: u64 = ((freq_hz as u64) << 32u64) / (AUDIO_SAMPLE_HZ as u64);
    let f: u64 = freq_hz as u64;
    assert(wide == f * 524_288) by (bit_vector)
        requires
            wide == (f << 32u64) / 8192u64,
            f <= 0xffff_ffff,
    ;
    let r: u32 = wide as u32;
    assert(r == wide % 0x1_0000_0000) by (bit_vector)
        requires
            r == wide as u32,
    ;
    r
}

/// The triangle wave at `phase`: using the top eight bits `x`, it rises as
/// `2x - 127` over the first half turn and falls as `383 - 2x` over the
/// second.
pub open spec fn triangle_spec(phase: u32) -> int {
    let x = phase as int / 0x100_0000;
    if x < 128 {
        x * 2 - 127
    } else {
        383 - x * 2
    }
}

/// One sample of the triangle wave at `phase`.
pub fn triangle_sample(phase: u32) -> (s: i32)
    ensures
        s == triangle_spec(phase),
        -WAVE_PEAK <= s <= WAVE_PEAK,
{
    let top: u32 = phase >> 24u32;
    assert(top == phase / 0x100_0000) by (bit_vector)
        requires
            top == phase >> 24u32,
    ;
    let x: i32 = top as i32;
    if x < 128 {
        x * 2 - WAVE_PEAK
    } else {
        383 - x * 2
    }
}

/// A voice after one sample: an active voice advances its phase (wrapping
/// modulo 2^32); an idle voice is left alone.
pub open spec fn advance(o: Oscillator) -> Oscillator {
    if o.note is Some {
        Oscillator {
            note: o.note,
            phase: ((o.phase + o.phase_step) % 0x1_0000_0000) as u32,
            phase_step: o.phase_step,
        }
    } else {
        o
    }
}

/// Sum of the triangle samples of the active voices after they advance.
pub open spec fn mix_of(voices: Seq<Oscillator>) -> int
    decreases voices.len(),
{
    if voices.len() == 0 {
        0
    } else {
        mix_of(voices.drop_last()) + if voices.last().note is Some {
            triangle_spec(advance(voices.last()).phase)
        } else {
            0
        }
    }
}

/// Number of active voices.
pub open spec fn active_of(voices: Seq<Oscillator>) -> int
    decreases voices.len(),
{
    if voices.len() == 0 {
        0
    } else {
        active_of(voices.drop_last()) + if voices.last().note is Some {
            1int
        } else {
            0
        }
    }
}

/// The duty cycle for a mix of `active` voices: zero when none is active;
/// otherwise the average sample (rounded toward zero) is shifted to
/// `[0, 254]` and scaled into `[0, max_duty * 20 / 100]`, then clamped to
/// `[0, max_duty]`.
pub open spec fn duty_spec(mix: int, active: int, max_duty: int) -> int {
    if active == 0 {
        0
    } else {
        let unsigned = crate::util::trunc_div(mix, active) + 127;
        let max_output = max_duty * 20 / 100;
        let scaled = crate::util::trunc_div(unsigned * max_output, 254);
        if scaled < 0 {
            0
        } else if scaled > max_duty {
            max_duty
        } else {
            scaled
        }
    }
}

/// The mix of a prefix is bounded by the peak times the active count, and
/// the active count by the prefix length.
pub proof fn lemma_mix_bounds(voices: Seq<Oscillator>)
    ensures
        0 <= active_of(voices) <= voices.len(),
        -127 * active_of(voices) <= mix_of(voices) <= 127 * active_of(voices),
    decreases voices.len(),
{
    if voices.len() > 0 {
        lemma_mix_bounds(voices.drop_last());
    }
}

/// The average of `active` samples in `[-127, 127]` is itself in that range.
pub proof fn lemma_average_in_range(mix: int, active: int)
    requires
        active > 0,
        -127 * active <= mix <= 127 * active,
    ensures
        -127 <= crate::util::trunc_div(mix, active) <= 127,
{
    vstd::arithmetic::div_mod::lemma_div_multiples_vanish(127, active);
    assert(127 * active == active * 127) by (nonlinear_arith);
    if mix >= 0 {
        vstd::arithmetic::div_mod::lemma_div_is_ordered(mix, 127 * active, active);
        vstd::arithmetic::div_mod::lemma_div_pos_is_pos(mix, active);
    } else {
        vstd::arithmetic::div_mod::lemma_div_is_ordered(-mix, 127 * active, active);
        vstd::arithmetic::div_mod::lemma_div_pos_is_pos(-mix, active);
    }
}

/// Advance every active voice by one sample and return the PWM duty for the
/// averaged mix. Idle voices do not count toward the average.
pub fn next_duty(voices: &mut Vec<Oscillator>, max_duty: u16) -> (duty: u16)
    requires
        old(voices)@.len() == VOICE_COUNT,
    ensures
        final(voices)@ == old(voices)@.map_values(|o: Oscillator| advance(o)),
        duty as int == duty_spec(mix_of(old(voices)@), active_of(old(voices)@), max_duty as int),
{
    let ghost start = voices@;
    let mut mix: i32 = 0;
    let mut active: i32 = 0;
    let mut i: usize = 0;
    while i < voices.len()
        invariant
            start.len() == VOICE_COUNT,
            voices@.len() == start.len(),
            i <= start.len(),
            forall|j: int| 0 <= j < i ==> voices@[j] == advance(start[j]),
            forall|j: int| i <= j < start.len() ==> voices@[j] == start[j],
            mix == mix_of(start.take(i as int)),
            active == active_of(start.take(i as int)),
        decreases start.len() - i,
    {
        proof {
            assert(start.take(i as int + 1).drop_last() =~= start.take(i as int));
            lemma_mix_bounds(start.take(i as int));
        }
        let v = voices[i];
        if v.note.is_some() {
            let ph: u32 = v.phase.wrapping_add(v.phase_step);
            voices.set(i, Oscillator { note: v.note, phase: ph, phase_step: v.phase_step });
            let s: i32 = triangle_sample(ph);
            mix = mix + s;
            active = active + 1;
        }
        i = i + 1;
    }
    proof {
        assert(start.take(i as int) =~= start);
        assert(voices@ =~= start.map_values(|o: Oscillator| advance(o)));
        lemma_mix_bounds(start);
    }
    if active == 0 {
        return 0;
    }
    proof {
        lemma_average_in_range(mix as int, active as int);
    }
    let averaged: i32 = mix / active;
    let unsigned: i32 = averaged + WAVE_PEAK;
    let max_output: i32 = max_duty as i32 * OUTPUT_DUTY_PCT / 100;
    assert(0 <= unsigned * max_output <= 254 * 13_107) by (nonlinear_arith)
        requires
            0 <= unsigned <= 254,
            0 <= max_output <= 13_107,
    ;
    let scaled: i32 = unsigned * max_output / (WAVE_PEAK * 2);
    let clamped: i32 = if scaled < 0 {
        0
    } else if scaled > max_duty as i32 {
        max_duty as i32
    } else {
        scaled
    };
    clamped as u16
}


/// The effect of one routed command on the voices, and the note (with the
/// LED fade hint) to announce to the light show, if any.
///
/// Note-On restarts the addressed voice at phase zero with the step for its
/// frequency; Note-Off silences the addressed voice only if it still plays
/// that note; All-Off silences every voice. Commands for a voice that does
/// not exist are ignored.
pub open spec fn apply_spec(voices: Seq<Oscillator>, routed: RoutedVoiceCmd) -> (
    Seq<Oscillator>,
    Option<(u32, u64)>,
) {
    match routed.cmd {
        VoiceCmd::NoteOn { note, freq_hz } => {
            if routed.idx < voices.len() {
                (
                    voices.update(
                        routed.idx as int,
                        Oscillator { note: Some(note), phase: 0, phase_step: phase_step_spec(freq_hz) },
                    ),
                    Some((freq_hz, LED_FADE_HINT_MS)),
                )
            } else {
                (voices, None)
            }
        },
        VoiceCmd::NoteOff { note } => {
            if routed.idx < voices.len() && voices[routed.idx as int].note == Some(note) {
                (voices.update(routed.idx as int, idle_spec()), None)
            } else {
                (voices, None)
            }
        },
        VoiceCmd::AllOff => (Seq::new(voices.len(), |i: int| idle_spec()), None),
    }
}

/// Apply one command received from the voice queue.
pub fn apply_command(voices: &mut Vec<Oscillator>, routed: RoutedVoiceCmd) -> (announce: Option<
    (u32, u64),
>)
    ensures
        (final(voices)@, announce) == apply_spec(old(voices)@, routed),
{
    match routed.cmd {
        VoiceCmd::NoteOn { note, freq_hz } => {
            if routed.idx < voices.len() {
                let step: u32 = phase_step(freq_hz);
                voices.set(routed.idx, Oscillator { note: Some(note), phase: 0, phase_step: step });
                Some((freq_hz, LED_FADE_HINT_MS))
            } else {
                None
            }
        },
        VoiceCmd::NoteOff { note } => {
            if routed.idx < voices.len() {
                if voices[routed.idx].note == Some(note) {
                    voices.set(routed.idx, Oscillator::idle());
                }
            }
            None
        },
        VoiceCmd::AllOff => {
            let mut i: usize = 0;
            while i < voices.len()
                invariant
                    i <= voices@.len(),
                    voices@.len() == old(voices)@.len(),
                    forall|j: int| 0 <= j < i ==> voices@[j] == idle_spec(),
                decreases voices@.len() - i,
            {
                voices.set(i, Oscillator::idle());
                i = i + 1;
            }
            proof {
                assert(voices@ =~= Seq::new(old(voices)@.len(), |i: int| idle_spec()));
            }
            None
        },
    }
}

/// The voices after applying `cmds` in order, and the notes announced on
/// the way.
pub open spec fn drain_spec(voices: Seq<Oscillator>, cmds: Seq<RoutedVoiceCmd>) -> (
    Seq<Oscillator>,
    Seq<(u32, u64)>,
)
    decreases cmds.len(),
{
    if cmds.len() == 0 {
        (voices, Seq::empty())
    } else {
        let (before, said) = drain_spec(voices, cmds.drop_last());
        let (after, announce) = apply_spec(before, cmds.last());
        (
            after,
            match announce {
                Some(a) => said.push(a),
                None => said,
            },
        )
    }
}

/// Apply every command taken from the voice queue, in order. Returns the
/// notes to announce to the light show, in order.
pub fn drain_commands(voices: &mut Vec<Oscillator>, received: &[RoutedVoiceCmd]) -> (announced: Vec<
    (u32, u64),
>)
    ensures
        (final(voices)@, announced@) == drain_spec(old(voices)@, received@),
{
    let mut announced: Vec<(u32, u64)> = Vec::new();
    let mut i: usize = 0;
    while i < received.len()
        invariant
            i <= received@.len(),
            (voices@, announced@) == drain_spec(old(voices)@, received@.take(i as int)),
        decreases received@.len() - i,
    {
        proof {
            assert(received@.take(i as int + 1).drop_last() =~= received@.take(i as int));
        }
        let a = apply_command(voices, received[i]);
        match a {
            Some(note) => announced.push(note),
            None => {},
        }
        i = i + 1;
    }
    proof {
        assert(received@.take(i as int) =~= received@);
    }
    announced
}

/// How a command for logical voice `idx` reaches the shared audio queue.
///
/// `AllOff` discards everything still queued and is then sent (addressed to
/// voice 0, it silences all voices), so a panic wins over stale note events.
/// Other commands are sent when `idx` names a voice and dropped otherwise; a
/// full queue drops them too.
pub open spec fn dispatch_spec(idx: usize, cmd: VoiceCmd) -> Delivery {
    if cmd is AllOff {
        Delivery::ClearThenSend(RoutedVoiceCmd { idx: 0, cmd: VoiceCmd::AllOff })
    } else if idx < VOICE_COUNT {
        Delivery::Send(RoutedVoiceCmd { idx, cmd })
    } else {
        Delivery::Drop
    }
}

/// Route a `VoiceCmd` to one logical voice.
pub fn dispatch(idx: usize, cmd: VoiceCmd) -> (d: Delivery)
    ensures
        d == dispatch_spec(idx, cmd),
{
    if let VoiceCmd::AllOff = cmd {
        return Delivery::ClearThenSend(RoutedVoiceCmd { idx: 0, cmd });
    }
    if idx < VOICE_COUNT {
        Delivery::Send(RoutedVoiceCmd { idx, cmd })
    } else {
        Delivery::Drop
    }
}

/// A panic wins: an `AllOff` for any voice empties the queue and leaves the
/// single command that, once drained, silences every voice, after which the
/// mixer outputs zero duty.
pub proof fn law_all_off_silences_everything(voices: Seq<Oscillator>, idx: usize, max_duty: u16)
    ensures
        ({
            let d = dispatch_spec(idx, VoiceCmd::AllOff);
            &&& d is ClearThenSend
            &&& ({
                let after = drain_spec(voices, seq![d->ClearThenSend_0]).0;
                &&& after.len() == voices.len()
                &&& forall|j: int| 0 <= j < after.len() ==> after[j] == idle_spec()
                &&& duty_spec(mix_of(after), active_of(after), max_duty as int) == 0
            })
        }),
{
    let d = dispatch_spec(idx, VoiceCmd::AllOff);
    let cmds = seq![d->ClearThenSend_0];
    assert(cmds.drop_last() =~= Seq::<RoutedVoiceCmd>::empty());
    reveal_with_fuel(drain_spec, 2);
    let after = drain_spec(voices, cmds).0;
    assert(after =~= Seq::new(voices.len(), |i: int| idle_spec()));
    lemma_idle_voices_are_silent(after);
}

/// With no active voice the mix is empty.
pub proof fn lemma_idle_voices_are_silent(voices: Seq<Oscillator>)
    requires
        forall|j: int| 0 <= j < voices.len() ==> voices[j].note is None,
    ensures
        active_of(voices) == 0,
        mix_of(voices) == 0,
    decreases voices.len(),
{
    if voices.len() > 0 {
        lemma_idle_voices_are_silent(voices.drop_last());
    }
}

/// The mixer never drives the pin beyond its output share: the duty is
/// always within `[0, max_duty * 20 / 100]`.
pub proof fn law_duty_within_output_share(voices: Seq<Oscillator>, max_duty: u16)
    ensures
        0 <= duty_spec(mix_of(voices), active_of(voices), max_duty as int) <= max_duty * 20 / 100,
{
    lemma_mix_bounds(voices);
    let a = active_of(voices);
    if a > 0 {
        let m = mix_of(voices);
        lemma_average_in_range(m, a);
        let u = crate::util::trunc_div(m, a) + 127;
        let mo = max_duty * 20 / 100;
        crate::util::lemma_scaled_fraction(mo, u, 254);
        assert(u * mo == mo * u) by (nonlinear_arith);
    }
}

/// Note-Off only silences a voice that still plays that very note: a
/// release for another note, or for a voice that was retaken, leaves the
/// voices as they were.
pub proof fn law_note_off_needs_matching_note(voices: Seq<Oscillator>, idx: usize, note: u8)
    requires
        idx < voices.len() ==> voices[idx as int].note != Some(note),
    ensures
        apply_spec(voices, RoutedVoiceCmd { idx, cmd: VoiceCmd::NoteOff { note } }) == (
            voices,
            None::<(u32, u64)>,
        ),
{
}


/// Replacing one voice, at any position, changes the mix by exactly that
/// voice's contribution: its sample after the advance if it plays, nothing
/// if it is idle; the active count changes likewise. So every voice counts
/// the same wherever it sits.
pub proof fn law_each_voice_counts_once(voices: Seq<Oscillator>, j: int, o: Oscillator)
    requires
        0 <= j < voices.len(),
    ensures
        mix_of(voices.update(j, o)) == mix_of(voices) - (if voices[j].note is Some {
            triangle_spec(advance(voices[j]).phase)
        } else {
            0
        }) + (if o.note is Some {
            triangle_spec(advance(o).phase)
        } else {
            0
        }),
        active_of(voices.update(j, o)) == active_of(voices) - (if voices[j].note is Some {
            1int
        } else {
            0
        }) + (if o.note is Some {
            1int
        } else {
            0
        }),
    decreases voices.len(),
{
    let w = voices.update(j, o);
    if j == voices.len() - 1 {
        assert(w.drop_last() =~= voices.drop_last());
    } else {
        assert(w.drop_last() =~= voices.drop_last().update(j, o));
        law_each_voice_counts_once(voices.drop_last(), j, o);
    }
}

/// The active count is the number of voices that play a note.
pub proof fn law_active_counts_playing_voices(voices: Seq<Oscillator>)
    ensures
        active_of(voices) == voices.filter(|o: Oscillator| o.note is Some).len(),
    decreases voices.len(),
{
    reveal(Seq::filter);
    if voices.len() > 0 {
        law_active_counts_playing_voices(voices.drop_last());
    }
}

/// One playing voice among idle ones, at any position, is the whole mix:
/// its own sample, averaged over one voice.
pub proof fn law_single_voice_is_the_mix(voices: Seq<Oscillator>, j: int, o: Oscillator)
    requires
        0 <= j < voices.len(),
        forall|i: int| 0 <= i < voices.len() ==> voices[i].note is None,
        o.note is Some,
    ensures
        mix_of(voices.update(j, o)) == triangle_spec(advance(o).phase),
        active_of(voices.update(j, o)) == 1,
{
    lemma_idle_voices_are_silent(voices);
    law_each_voice_counts_once(voices, j, o);
}

/// When every active voice is at its positive peak the output is the full
/// output share `max_duty * 20 / 100`; at the negative peak it is zero.
pub proof fn law_duty_extremes(active: int, max_duty: u16)
    requires
        active > 0,
    ensures
        duty_spec(127 * active, active, max_duty as int) == max_duty * 20 / 100,
        duty_spec(-127 * active, active, max_duty as int) == 0,
{
    vstd::arithmetic::div_mod::lemma_div_multiples_vanish(127, active);
    assert(127 * active == active * 127) by (nonlinear_arith);
    let mo = max_duty * 20 / 100;
    vstd::arithmetic::div_mod::lemma_div_multiples_vanish(mo, 254);
    assert(254 * mo == mo * 254) by (nonlinear_arith);
    assert(0 * mo == 0);
    assert(mo <= max_duty);
}

/// The phase increment is the frequency as a fraction of the sample rate,
/// in units of 2^-32 of a turn: `freq * 2^32 / 8192`, modulo 2^32.
pub proof fn law_phase_step_is_frequency_fraction(freq_hz: u32)
    ensures
        phase_step_spec(freq_hz) as int == (freq_hz as int * 0x1_0000_0000 / AUDIO_SAMPLE_HZ as int)
            % 0x1_0000_0000,
{
    let f = freq_hz as int;
    assert(f * 0x1_0000_0000 == (f * 524_288) * 8192) by (nonlinear_arith);
    vstd::arithmetic::div_mod::lemma_div_multiples_vanish(f * 524_288, 8192);
    assert((f * 524_288) * 8192 == 8192 * (f * 524_288)) by (nonlinear_arith);
}

/// A note command touches only the voice it addresses: every other voice is
/// left as it was and the number of voices is kept.
pub proof fn law_note_commands_touch_one_voice(voices: Seq<Oscillator>, routed: RoutedVoiceCmd)
    requires
        !(routed.cmd is AllOff),
    ensures
        ({
            let after = apply_spec(voices, routed).0;
            &&& after.len() == voices.len()
            &&& forall|j: int| 0 <= j < voices.len() && j != routed.idx ==> after[j] == voices[j]
        }),
{
}

/// A Note-On for an existing voice restarts it at phase zero on the note's
/// phase step, whatever it played before, and is announced with the LED
/// fade hint.
pub proof fn law_note_on_starts_addressed_voice(
    voices: Seq<Oscillator>,
    idx: usize,
    note: u8,
    freq_hz: u32,
)
    requires
        idx < voices.len(),
    ensures
        ({
            let (after, announce) = apply_spec(
                voices,
                RoutedVoiceCmd { idx, cmd: VoiceCmd::NoteOn { note, freq_hz } },
            );
            &&& after[idx as int] == (Oscillator {
                note: Some(note),
                phase: 0,
                phase_step: phase_step_spec(freq_hz),
            })
            &&& announce == Some((freq_hz, LED_FADE_HINT_MS))
        }),
{
}

/// All-Off silences every voice and announces nothing.
pub proof fn law_all_off_idles_every_voice(voices: Seq<Oscillator>, idx: usize)
    ensures
        ({
            let (after, announce) = apply_spec(voices, RoutedVoiceCmd { idx, cmd: VoiceCmd::AllOff });
            &&& after.len() == voices.len()
            &&& forall|j: int| 0 <= j < voices.len() ==> after[j] == idle_spec()
            &&& announce is None
        }),
{
}


/// One sample moves an active voice's phase forward by its step, wrapping
/// around after a full turn, and keeps its note and step; an idle voice does
/// not move.
pub proof fn law_advance_moves_active_voices(o: Oscillator)
    ensures
        advance(o).note == o.note,
        advance(o).phase_step == o.phase_step,
        o.note is Some ==> advance(o).phase as int == (o.phase as int + o.phase_step as int)
            % 0x1_0000_0000,
        o.note is None ==> advance(o) == o,
{
}

/// Releasing the note a voice plays silences that voice.
pub proof fn law_note_off_silences_its_voice(voices: Seq<Oscillator>, idx: usize, note: u8)
    requires
        idx < voices.len(),
        voices[idx as int].note == Some(note),
    ensures
        apply_spec(voices, RoutedVoiceCmd { idx, cmd: VoiceCmd::NoteOff { note } }).0[idx as int]
            == idle_spec(),
{
}

/// The triangle is symmetric: the second half-turn mirrors the first, so
/// the phase and its mirror image `u32::MAX - phase` give the same sample.
/// It peaks at +127 in the middle of the turn and bottoms out at -127 at
/// both ends.
pub proof fn law_triangle_is_symmetric(phase: u32)
    ensures
        triangle_spec(phase) == triangle_spec((u32::MAX - phase) as u32),
        triangle_spec(0) == -127,
        triangle_spec(0x7f00_0000) == 127,
        triangle_spec(0x8000_0000) == 127,
{
    let p = phase as int;
    let q = p / 0x100_0000;
    let r = p % 0x100_0000;
    vstd::arithmetic::div_mod::lemma_fundamental_div_mod(p, 0x100_0000);
    let m = 0xffff_ffff - p;
    assert(m == (255 - q) * 0x100_0000 + (0xff_ffff - r));
    vstd::arithmetic::div_mod::lemma_fundamental_div_mod_converse_div(m, 0x100_0000, 255 - q, 0xff_ffff - r);
}

} // verus!
