//! Songs as note tracks. Each entry is `(freq_hz, duration_ms)`; a frequency
//! of zero is a rest. The voice tasks loop through these forever.

use vstd::prelude::*;

verus! {

/// Tetris A-theme (Korobeiniki) melody, about 150 BPM: eighth = 200 ms,
/// quarter = 400 ms, dotted quarter = 600 ms.
pub open spec fn tetris_melody_spec() -> Seq<(u32, u32)> {
    seq![
        (659u32, 400u32),
        (494u32, 200u32),
        (523u32, 200u32),
        (587u32, 400u32),
        (523u32, 200u32),
        (494u32, 200u32),
        (440u32, 400u32),
        (440u32, 200u32),
        (523u32, 200u32),
        (659u32, 400u32),
        (587u32, 200u32),
        (523u32, 200u32),
        (494u32, 600u32),
        (523u32, 200u32),
        (587u32, 400u32),
        (659u32, 400u32),
        (523u32, 400u32),
        (440u32, 400u32),
        (440u32, 400u32),
        (0u32, 400u32),
        (587u32, 600u32),
        (698u32, 200u32),
        (880u32, 400u32),
        (784u32, 200u32),
        (698u32, 200u32),
        (659u32, 600u32),
        (523u32, 200u32),
        (659u32, 400u32),
        (587u32, 200u32),
        (523u32, 200u32),
        (494u32, 400u32),
        (494u32, 200u32),
        (523u32, 200u32),
        (587u32, 400u32),
        (659u32, 400u32),
        (523u32, 400u32),
        (440u32, 400u32),
        (440u32, 400u32),
        (0u32, 400u32),
    ]
}

/// Bass line: octave-alternating root notes, 16 entries of 800 ms each.
pub open spec fn tetris_bass_spec() -> Seq<(u32, u32)> {
    seq![
        (110u32, 800u32),
        (165u32, 800u32),
        (110u32, 800u32),
        (165u32, 800u32),
        (82u32, 800u32),
        (123u32, 800u32),
        (110u32, 800u32),
        (165u32, 800u32),
        (73u32, 800u32),
        (110u32, 800u32),
        (131u32, 800u32),
        (98u32, 800u32),
        (110u32, 800u32),
        (165u32, 800u32),
        (110u32, 800u32),
        (165u32, 800u32),
    ]
}

/// The Tetris melody track.
pub fn tetris_melody() -> (t: Vec<(u32, u32)>)
    ensures
        t@ == tetris_melody_spec(),
{
    let mut t: Vec<(u32, u32)> = Vec::new();
    t.push((659, 400));
    t.push((494, 200));
    t.push((523, 200));
    t.push((587, 400));
    t.push((523, 200));
    t.push((494, 200));
    t.push((440, 400));
    t.push((440, 200));
    t.push((523, 200));
    t.push((659, 400));
    t.push((587, 200));
    t.push((523, 200));
    t.push((494, 600));
    t.push((523, 200));
    t.push((587, 400));
    t.push((659, 400));
    t.push((523, 400));
    t.push((440, 400));
    t.push((440, 400));
    t.push((0, 400));
    t.push((587, 600));
    t.push((698, 200));
    t.push((880, 400));
    t.push((784, 200));
    t.push((698, 200));
    t.push((659, 600));
    t.push((523, 200));
    t.push((659, 400));
    t.push((587, 200));
    t.push((523, 200));
    t.push((494, 400));
    t.push((494, 200));
    t.push((523, 200));
    t.push((587, 400));
    t.push((659, 400));
    t.push((523, 400));
    t.push((440, 400));
    t.push((440, 400));
    t.push((0, 400));
    t
}

/// The Tetris bass track.
pub fn tetris_bass() -> (t: Vec<(u32, u32)>)
    ensures
        t@ == tetris_bass_spec(),
{
    let mut t: Vec<(u32, u32)> = Vec::new();
    t.push((110, 800));
    t.push((165, 800));
    t.push((110, 800));
    t.push((165, 800));
    t.push((82, 800));
    t.push((123, 800));
    t.push((110, 800));
    t.push((165, 800));
    t.push((73, 800));
    t.push((110, 800));
    t.push((131, 800));
    t.push((98, 800));
    t.push((110, 800));
    t.push((165, 800));
    t.push((110, 800));
    t.push((165, 800));
    t
}

/// The melody and the bass have the same total duration, so they stay
/// phase-locked when both are looped forever.
pub proof fn law_tetris_tracks_phase_locked()
    ensures
        crate::util::total_ms(tetris_melody_spec()) == crate::util::total_ms(tetris_bass_spec()),
        crate::util::total_ms(tetris_bass_spec()) == 12800,
{
    reveal_with_fuel(crate::util::total_ms, 40);
}

} // verus!
