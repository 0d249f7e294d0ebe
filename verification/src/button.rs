//! The on-board button as a test trigger: while it is held, logical voice 0
//! sustains a test note (A4 = MIDI 69); releasing it stops the note. The
//! button is polled every 15 ms, which doubles as a cheap debounce.

use vstd::prelude::*;

use crate::voice::{RoutedVoiceCmd, VoiceCmd};

verus! {

/// MIDI 69 = A4 = 440 Hz (concert pitch).
pub const TEST_NOTE: u8 = 69;

/// Button polling interval.
pub const BUTTON_POLL_MS: u64 = 15;

/// The command caused by one poll: nothing while the button keeps its state;
/// on a press, Note-On of the test note at its table frequency for voice 0;
/// on a release, Note-Off of the test note for voice 0. The indicator LED
/// follows `pressed` whenever a command is sent.
pub open spec fn button_spec(prev_pressed: bool, pressed: bool, note_hz: Seq<u32>) -> Option<
    RoutedVoiceCmd,
> {
    if pressed == prev_pressed {
        None
    } else if pressed {
        Some(
            RoutedVoiceCmd {
                idx: 0,
                cmd: VoiceCmd::NoteOn { note: TEST_NOTE, freq_hz: note_hz[TEST_NOTE as int] },
            },
        )
    } else {
        Some(RoutedVoiceCmd { idx: 0, cmd: VoiceCmd::NoteOff { note: TEST_NOTE } })
    }
}

/// React to one poll of the button, given its state at the previous poll.
pub fn button_event(prev_pressed: bool, pressed: bool, note_hz: &[u32]) -> (r: Option<
    RoutedVoiceCmd,
>)
    requires
        note_hz@.len() == crate::usb::MIDI_NOTE_COUNT,
    ensures
        r == button_spec(prev_pressed, pressed, note_hz@),
{
    if pressed == prev_pressed {
        None
    } else if pressed {
        let freq: u32 = note_hz[TEST_NOTE as usize];
        Some(RoutedVoiceCmd { idx: 0, cmd: VoiceCmd::NoteOn { note: TEST_NOTE, freq_hz: freq } })
    } else {
        Some(RoutedVoiceCmd { idx: 0, cmd: VoiceCmd::NoteOff { note: TEST_NOTE } })
    }
}

/// Only edges count: a held or untouched button sends nothing, and a press
/// followed by a release starts and then stops the same note on voice 0.
pub proof fn law_button_edges(state: bool, note_hz: Seq<u32>)
    ensures
        button_spec(state, state, note_hz) is None,
        button_spec(false, true, note_hz) matches Some(on) && on.idx == 0
            && on.cmd == (VoiceCmd::NoteOn { note: TEST_NOTE, freq_hz: note_hz[TEST_NOTE as int] }),
        button_spec(true, false, note_hz) matches Some(off) && off.idx == 0
            && off.cmd == (VoiceCmd::NoteOff { note: TEST_NOTE }),
{
}

} // verus!
