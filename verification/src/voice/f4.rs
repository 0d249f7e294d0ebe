//! STM32F411 voice backend: two independent hardware PWM square waves, each
//! fed by its own bounded command queue.

use vstd::prelude::*;

use crate::voice::{Delivery, RoutedVoiceCmd, VoiceCmd, LED_FADE_HINT_MS};

verus! {

/// Number of physical voices on this board.
pub const VOICE_COUNT: usize = 2;

/// PWM duty cycle of a sounding square-wave voice, in percent.
pub const NOTE_DUTY_PCT: u32 = 50;

/// What a square-wave voice does with its PWM channel after a command.
#[derive(Clone, Copy, Debug, PartialEq, Eq, Structural)]
pub enum SquareAction {
    /// Retune to `freq_hz` and sound at the note duty.
    Sound { freq_hz: u32 },
    /// Set the duty to zero.
    Mute,
    /// Leave the channel as it is.
    Keep,
}

/// A voice's reaction to a command, given the note it currently holds: the
/// note it holds afterwards, the PWM action, and the note (with the LED fade
/// hint) to announce to the light show, if any.
///
/// Note-On always takes over the voice and is announced; Note-Off mutes it
/// only when it holds that note; All-Off mutes it.
pub open spec fn voice_step_spec(current: Option<u8>, cmd: VoiceCmd) -> (
    Option<u8>,
    SquareAction,
    Option<(u32, u64)>,
) {
    match cmd {
        VoiceCmd::NoteOn { note, freq_hz } => (
            Some(note),
            SquareAction::Sound { freq_hz },
            Some((freq_hz, LED_FADE_HINT_MS)),
        ),
        VoiceCmd::NoteOff { note } => {
            if current == Some(note) {
                (None, SquareAction::Mute, None)
            } else {
                (current, SquareAction::Keep, None)
            }
        },
        VoiceCmd::AllOff => (None, SquareAction::Mute, None),
    }
}

/// Handle one command received by a square-wave voice.
pub fn voice_step(current: Option<u8>, cmd: VoiceCmd) -> (r: (
    Option<u8>,
    SquareAction,
    Option<(u32, u64)>,
))
    ensures
        r == voice_step_spec(current, cmd),
{
    match cmd {
        VoiceCmd::NoteOn { note, freq_hz } => (
            Some(note),
            SquareAction::Sound { freq_hz },
            Some((freq_hz, LED_FADE_HINT_MS)),
        ),
        VoiceCmd::NoteOff { note } => {
            if current == Some(note) {
                (None, SquareAction::Mute, None)
            } else {
                (current, SquareAction::Keep, None)
            }
        },
        VoiceCmd::AllOff => (None, SquareAction::Mute, None),
    }
}

/// The duty of a sounding voice: `NOTE_DUTY_PCT` percent of the channel's
/// maximum duty, rounded down.
pub fn note_duty(max_duty: u16) -> (d: u16)
    ensures
        d == max_duty * 50 / 100,
{
    (max_duty as u32 * NOTE_DUTY_PCT / 100) as u16
}

/// How a command for physical voice `idx` is queued: voices 0 and 1 each
/// have their own queue; any other index is dropped. A full queue drops the
/// command too.
pub open spec fn dispatch_spec(idx: usize, cmd: VoiceCmd) -> Delivery {
    if idx < VOICE_COUNT {
        Delivery::Send(RoutedVoiceCmd { idx, cmd })
    } else {
        Delivery::Drop
    }
}

/// Route a `VoiceCmd` to physical voice `idx`.
pub fn dispatch(idx: usize, cmd: VoiceCmd) -> (d: Delivery)
    ensures
        d == dispatch_spec(idx, cmd),
{
    match idx {
        0 => Delivery::Send(RoutedVoiceCmd { idx: 0, cmd }),
        1 => Delivery::Send(RoutedVoiceCmd { idx: 1, cmd }),
        _ => Delivery::Drop,
    }
}

/// A voice's note is released only by its own Note-Off: a Note-Off for a
/// different note keeps the voice sounding, and after All-Off the voice is
/// silent whatever it held.
pub proof fn law_voice_release_matches_note(current: Option<u8>, note: u8, freq_hz: u32, other: u8)
    requires
        other != note,
    ensures
        ({
            let (held, _, _) = voice_step_spec(current, VoiceCmd::NoteOn { note, freq_hz });
            &&& voice_step_spec(held, VoiceCmd::NoteOff { note: other }) == (
                held,
                SquareAction::Keep,
                None::<(u32, u64)>,
            )
            &&& voice_step_spec(held, VoiceCmd::NoteOff { note }) == (
                None::<u8>,
                SquareAction::Mute,
                None::<(u32, u64)>,
            )
        }),
        voice_step_spec(current, VoiceCmd::AllOff) == (
            None::<u8>,
            SquareAction::Mute,
            None::<(u32, u64)>,
        ),
{
}


/// A Note-On always retunes and sounds the voice at the command's frequency,
/// takes over the voice for its note and is announced to the light show,
/// whatever the voice was playing before.
pub proof fn law_note_on_always_sounds(current: Option<u8>, note: u8, freq_hz: u32)
    ensures
        voice_step_spec(current, VoiceCmd::NoteOn { note, freq_hz }) == (
            Some(note),
            SquareAction::Sound { freq_hz },
            Some((freq_hz, LED_FADE_HINT_MS)),
        ),
{
}

} // verus!
