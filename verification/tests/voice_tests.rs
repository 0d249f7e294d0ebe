use black_sitizator::voice::h7::{
    apply_command, dispatch as h7_dispatch, drain_commands, next_duty, phase_step,
    triangle_sample, Oscillator, VOICE_COUNT as H7_VOICES,
};
use black_sitizator::voice::f4::{
    dispatch as f4_dispatch, note_duty, voice_step, SquareAction, VOICE_COUNT as F4_VOICES,
};
use black_sitizator::voice::{dispatch_all_off, Allocator, Delivery, RoutedVoiceCmd, VoiceCmd};

// --- Allocator ---

#[test]
fn allocator_prefers_idle_then_steals_round_robin() {
    let mut a = Allocator::new(2);
    assert_eq!(a.note_on(60), 0);
    assert_eq!(a.note_on(62), 1);
    // All busy: steal voice 0, then voice 1, then voice 0 again.
    assert_eq!(a.note_on(64), 0);
    assert_eq!(a.note_on(65), 1);
    assert_eq!(a.note_on(67), 0);
}

#[test]
fn allocator_note_off_frees_the_holding_voice() {
    let mut a = Allocator::new(2);
    assert_eq!(a.note_on(60), 0);
    assert_eq!(a.note_on(62), 1);
    assert_eq!(a.note_off(60), Some(0));
    // Note 60 is no longer held anywhere.
    assert_eq!(a.note_off(60), None);
    // The freed voice is taken first.
    assert_eq!(a.note_on(70), 0);
}

#[test]
fn allocator_stolen_note_is_forgotten() {
    let mut a = Allocator::new(1);
    assert_eq!(a.note_on(60), 0);
    assert_eq!(a.note_on(61), 0);
    assert_eq!(a.note_off(60), None);
    assert_eq!(a.note_off(61), Some(0));
}

#[test]
fn allocator_note_on_then_off_returns_same_voice() {
    let mut a = Allocator::new(8);
    for n in 0u8..5 {
        assert_eq!(a.note_on(n), n as usize);
    }
    let i = a.note_on(100);
    assert_eq!(i, 5);
    assert_eq!(a.note_off(100), Some(5));
    assert_eq!(a.note_on(101), 5);
}

#[test]
fn allocator_all_off_then_note_on_takes_first_voice() {
    let mut a = Allocator::new(3);
    a.note_on(1);
    a.note_on(2);
    a.note_on(3);
    a.note_on(4); // steals 0, cursor moves to 1
    a.all_off();
    assert_eq!(a.note_off(4), None);
    assert_eq!(a.note_on(9), 0);
    assert_eq!(a.note_on(10), 1);
}

#[test]
fn dispatch_all_off_addresses_every_voice() {
    let cmds = dispatch_all_off(H7_VOICES);
    assert_eq!(cmds.len(), 8);
    for (i, c) in cmds.iter().enumerate() {
        assert_eq!(*c, RoutedVoiceCmd { idx: i, cmd: VoiceCmd::AllOff });
    }
    assert_eq!(dispatch_all_off(0).len(), 0);
}

// --- STM32F411 square voices ---

#[test]
fn f4_dispatch_routes_voices_zero_and_one_only() {
    assert_eq!(F4_VOICES, 2);
    let on = VoiceCmd::NoteOn { note: 60, freq_hz: 262 };
    assert_eq!(f4_dispatch(0, on), Delivery::Send(RoutedVoiceCmd { idx: 0, cmd: on }));
    assert_eq!(f4_dispatch(1, VoiceCmd::AllOff), Delivery::Send(RoutedVoiceCmd { idx: 1, cmd: VoiceCmd::AllOff }));
    assert_eq!(f4_dispatch(2, on), Delivery::Drop);
}

#[test]
fn f4_voice_step_follows_its_note() {
    let (held, act, said) = voice_step(None, VoiceCmd::NoteOn { note: 69, freq_hz: 440 });
    assert_eq!(held, Some(69));
    assert_eq!(act, SquareAction::Sound { freq_hz: 440 });
    assert_eq!(said, Some((440, 200)));
    assert_eq!(voice_step(held, VoiceCmd::NoteOff { note: 70 }), (Some(69), SquareAction::Keep, None));
    assert_eq!(voice_step(held, VoiceCmd::NoteOff { note: 69 }), (None, SquareAction::Mute, None));
    assert_eq!(voice_step(Some(5), VoiceCmd::AllOff), (None, SquareAction::Mute, None));
    assert_eq!(voice_step(None, VoiceCmd::AllOff), (None, SquareAction::Mute, None));
}

#[test]
fn f4_note_duty_is_half() {
    assert_eq!(note_duty(1000), 500);
    assert_eq!(note_duty(65_535), 32_767);
    assert_eq!(note_duty(1), 0);
}

// --- STM32H743 DDS mixer ---

#[test]
fn h7_phase_step_is_freq_times_2_pow_19_wrapped() {
    assert_eq!(phase_step(440), 440 * 524_288);
    assert_eq!(phase_step(1), 524_288);
    // 8192 Hz is one full turn per sample: the step wraps to zero.
    assert_eq!(phase_step(8_192), 0);
    assert_eq!(phase_step(8_193), 524_288);
}

#[test]
fn h7_triangle_wave_shape() {
    assert_eq!(triangle_sample(0), -127);
    assert_eq!(triangle_sample(64 << 24), 1);
    assert_eq!(triangle_sample(127 << 24), 127);
    assert_eq!(triangle_sample(128 << 24), 127);
    assert_eq!(triangle_sample(255 << 24), -127);
    assert_eq!(triangle_sample(u32::MAX), -127);
}

fn idle_voices() -> Vec<Oscillator> {
    vec![Oscillator::idle(); H7_VOICES]
}

#[test]
fn h7_silent_when_no_voice_is_active() {
    let mut v = idle_voices();
    assert_eq!(next_duty(&mut v, 1000), 0);
    assert_eq!(v, idle_voices());
}

#[test]
fn h7_single_voice_at_peak_gives_full_output_share() {
    let mut v = idle_voices();
    v[3] = Oscillator { note: Some(60), phase: 0, phase_step: 128 << 24 };
    // Sample 127 -> 254 * (1000 * 20 / 100) / 254 = 200.
    assert_eq!(next_duty(&mut v, 1000), 200);
    assert_eq!(v[3].phase, 128 << 24);
    // The idle voices did not move.
    assert_eq!(v[0], Oscillator::idle());
}

#[test]
fn h7_opposite_voices_average_to_midpoint() {
    let mut v = idle_voices();
    v[0] = Oscillator { note: Some(60), phase: 0, phase_step: 128 << 24 };
    v[1] = Oscillator { note: Some(61), phase: 0, phase_step: 0 };
    // (127 + -127) / 2 = 0 -> 127 * 200 / 254 = 100.
    assert_eq!(next_duty(&mut v, 1000), 100);
}

#[test]
fn h7_average_rounds_toward_zero() {
    let mut v = idle_voices();
    v[0] = Oscillator { note: Some(1), phase: 0, phase_step: 0 };
    v[1] = Oscillator { note: Some(2), phase: 0, phase_step: 0 };
    v[2] = Oscillator { note: Some(3), phase: 64 << 24, phase_step: 0 };
    // mix = -127 - 127 + 1 = -253; -253 / 3 = -84 (toward zero);
    // (-84 + 127) * (10000 * 20 / 100) / 254 = 43 * 2000 / 254 = 338.
    assert_eq!(next_duty(&mut v, 10_000), 338);
}

#[test]
fn h7_phase_wraps_around() {
    let mut v = idle_voices();
    v[0] = Oscillator { note: Some(1), phase: u32::MAX, phase_step: 2 };
    next_duty(&mut v, 100);
    assert_eq!(v[0].phase, 1);
}

#[test]
fn h7_apply_note_on_off_and_all_off() {
    let mut v = idle_voices();
    let a = apply_command(&mut v, RoutedVoiceCmd { idx: 2, cmd: VoiceCmd::NoteOn { note: 69, freq_hz: 440 } });
    assert_eq!(a, Some((440, 200)));
    assert_eq!(v[2], Oscillator { note: Some(69), phase: 0, phase_step: 440 * 524_288 });
    // A release for another note leaves the voice alone.
    assert_eq!(apply_command(&mut v, RoutedVoiceCmd { idx: 2, cmd: VoiceCmd::NoteOff { note: 70 } }), None);
    assert_eq!(v[2].note, Some(69));
    assert_eq!(apply_command(&mut v, RoutedVoiceCmd { idx: 2, cmd: VoiceCmd::NoteOff { note: 69 } }), None);
    assert_eq!(v[2], Oscillator::idle());
    // Out-of-range voices are ignored.
    assert_eq!(apply_command(&mut v, RoutedVoiceCmd { idx: 8, cmd: VoiceCmd::NoteOn { note: 1, freq_hz: 9 } }), None);
    assert_eq!(v, idle_voices());
    apply_command(&mut v, RoutedVoiceCmd { idx: 0, cmd: VoiceCmd::NoteOn { note: 1, freq_hz: 9 } });
    apply_command(&mut v, RoutedVoiceCmd { idx: 7, cmd: VoiceCmd::NoteOn { note: 2, freq_hz: 9 } });
    apply_command(&mut v, RoutedVoiceCmd { idx: 0, cmd: VoiceCmd::AllOff });
    assert_eq!(v, idle_voices());
}

#[test]
fn h7_drain_applies_in_order_and_collects_announcements() {
    let mut v = idle_voices();
    let cmds = [
        RoutedVoiceCmd { idx: 0, cmd: VoiceCmd::NoteOn { note: 60, freq_hz: 262 } },
        RoutedVoiceCmd { idx: 1, cmd: VoiceCmd::NoteOn { note: 64, freq_hz: 330 } },
        RoutedVoiceCmd { idx: 0, cmd: VoiceCmd::NoteOff { note: 60 } },
    ];
    let said = drain_commands(&mut v, &cmds);
    assert_eq!(said, vec![(262, 200), (330, 200)]);
    assert_eq!(v[0], Oscillator::idle());
    assert_eq!(v[1].note, Some(64));
}

#[test]
fn h7_dispatch_all_off_clears_queue_first() {
    let d = h7_dispatch(5, VoiceCmd::AllOff);
    let r = RoutedVoiceCmd { idx: 0, cmd: VoiceCmd::AllOff };
    assert_eq!(d, Delivery::ClearThenSend(r));
    let mut v = idle_voices();
    v[4] = Oscillator { note: Some(3), phase: 7, phase_step: 9 };
    drain_commands(&mut v, &[r]);
    assert_eq!(v, idle_voices());
    assert_eq!(next_duty(&mut v, 500), 0);
}

#[test]
fn h7_dispatch_routes_in_range_and_drops_others() {
    let on = VoiceCmd::NoteOn { note: 60, freq_hz: 262 };
    assert_eq!(h7_dispatch(7, on), Delivery::Send(RoutedVoiceCmd { idx: 7, cmd: on }));
    assert_eq!(h7_dispatch(8, on), Delivery::Drop);
    let off = VoiceCmd::NoteOff { note: 60 };
    assert_eq!(h7_dispatch(0, off), Delivery::Send(RoutedVoiceCmd { idx: 0, cmd: off }));
}
