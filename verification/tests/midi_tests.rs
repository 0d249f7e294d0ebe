use black_sitizator::button::{button_event, TEST_NOTE};
use black_sitizator::clock::{f411_clock_config, h743_clock_config, PllPlan};
use black_sitizator::light_show::{note_flash, FADE_STEPS};
use black_sitizator::probe::{echo_reply, probe_banner};
use black_sitizator::usb::{handle_event, handle_packet, silence_commands};
use black_sitizator::voice::{Allocator, RoutedVoiceCmd, VoiceCmd};

/// Equal-tempered note table, A4 (MIDI 69) = 440 Hz.
fn note_table() -> Vec<u32> {
    (0..128)
        .map(|n| (440.0f64 * 2f64.powf((n as f64 - 69.0) / 12.0)).round() as u32)
        .collect()
}

fn on(idx: usize, note: u8, t: &[u32]) -> RoutedVoiceCmd {
    RoutedVoiceCmd { idx, cmd: VoiceCmd::NoteOn { note, freq_hz: t[note as usize] } }
}

fn off(idx: usize, note: u8) -> RoutedVoiceCmd {
    RoutedVoiceCmd { idx, cmd: VoiceCmd::NoteOff { note } }
}

#[test]
fn midi_note_on_and_off_route_through_allocator() {
    let t = note_table();
    let mut a = Allocator::new(2);
    assert_eq!(handle_event(&mut a, 0x90, 69, 100, &t), vec![on(0, 69, &t)]);
    assert_eq!(handle_event(&mut a, 0x91, 72, 1, &t), vec![on(1, 72, &t)]);
    assert_eq!(handle_event(&mut a, 0x80, 69, 64, &t), vec![off(0, 69)]);
    // Releasing a note nobody holds dispatches nothing.
    assert_eq!(handle_event(&mut a, 0x80, 69, 64, &t), vec![]);
}

#[test]
fn midi_velocity_zero_note_on_is_note_off() {
    let t = note_table();
    let mut a = Allocator::new(8);
    handle_event(&mut a, 0x90, 60, 90, &t);
    assert_eq!(handle_event(&mut a, 0x9F, 60, 0, &t), vec![off(0, 60)]);
}

#[test]
fn midi_all_notes_off_controller_silences_board() {
    let t = note_table();
    let mut a = Allocator::new(2);
    handle_event(&mut a, 0x90, 60, 90, &t);
    handle_event(&mut a, 0x90, 61, 90, &t);
    let cmds = handle_event(&mut a, 0xB3, 123, 0, &t);
    assert_eq!(cmds, silence_commands());
    assert_eq!(
        cmds,
        vec![
            RoutedVoiceCmd { idx: 0, cmd: VoiceCmd::AllOff },
            RoutedVoiceCmd { idx: 1, cmd: VoiceCmd::AllOff },
        ]
    );
    // Every voice is free again.
    assert_eq!(handle_event(&mut a, 0x90, 62, 90, &t), vec![on(0, 62, &t)]);
}

#[test]
fn midi_ignores_other_messages_and_high_notes() {
    let t = note_table();
    let mut a = Allocator::new(2);
    assert_eq!(handle_event(&mut a, 0x90, 128, 90, &t), vec![]);
    assert_eq!(handle_event(&mut a, 0xB0, 7, 90, &t), vec![]);
    assert_eq!(handle_event(&mut a, 0xE0, 10, 10, &t), vec![]);
    // Nothing was allocated by the ignored events.
    assert_eq!(handle_event(&mut a, 0x90, 1, 90, &t), vec![on(0, 1, &t)]);
}

#[test]
fn midi_packet_handles_each_complete_event() {
    let t = note_table();
    let mut a = Allocator::new(2);
    let packet = [
        0x09, 0x90, 60, 100, // note on 60
        0x09, 0x90, 64, 100, // note on 64
        0x08, 0x80, 60, 0, // note off 60
        0x09, 0x90, // partial trailing group
    ];
    let cmds = handle_packet(&mut a, &packet, &t);
    assert_eq!(cmds, vec![on(0, 60, &t), on(1, 64, &t), off(0, 60)]);
    assert_eq!(handle_packet(&mut a, &[], &t), vec![]);
    assert_eq!(handle_packet(&mut a, &[0x09, 0x90, 1], &t), vec![]);
}

#[test]
fn note_table_has_concert_pitch() {
    assert_eq!(note_table()[69], 440);
}

#[test]
fn button_edges_start_and_stop_test_note() {
    let t = note_table();
    assert_eq!(button_event(false, false, &t), None);
    assert_eq!(button_event(true, true, &t), None);
    assert_eq!(button_event(false, true, &t), Some(on(0, TEST_NOTE, &t)));
    assert_eq!(button_event(true, false, &t), Some(off(0, TEST_NOTE)));
    assert_eq!(TEST_NOTE, 69);
}

#[test]
fn light_show_rest_is_dark() {
    assert!(note_flash(0, 400, 1000).is_none());
}

#[test]
fn light_show_fade_from_pitch_peak() {
    let f = note_flash(900, 240, 1000).unwrap();
    assert_eq!(f.step_ms, 10);
    assert_eq!(f.duties.len() as u64, FADE_STEPS);
    // 1000 / 8 + 875 = 1000 at the top of the range.
    assert_eq!(f.duties[0], 1000);
    assert_eq!(f.duties[12], 500);
    assert_eq!(f.duties[23], 41);
    assert!(f.duties.windows(2).all(|w| w[0] >= w[1]));
}

#[test]
fn light_show_short_notes_step_at_least_one_ms() {
    let f = note_flash(440, 5, 160).unwrap();
    assert_eq!(f.step_ms, 1);
    // 160 / 8 + 140 * 240 / 700 = 20 + 48 = 68.
    assert_eq!(f.duties[0], 68);
}

#[test]
fn clock_plans_match_board_documentation() {
    let f = f411_clock_config();
    assert_eq!(f.hse_hz, 25_000_000);
    assert!(!f.hsi_enabled);
    assert!(!f.hse_bypass);
    assert!(f.pll_from_hse && f.sysclk_from_pll_p);
    assert_eq!(f.pll, PllPlan { prediv: 25, mul: 192, divp: Some(2), divq: Some(4), divr: None });
    assert_eq!((f.ahb_div, f.apb1_div, f.apb2_div), (1, 2, 1));
    assert_eq!(f.hse_hz / f.pll.prediv * f.pll.mul / f.pll.divp.unwrap(), 96_000_000);
    assert_eq!(f.hse_hz / f.pll.prediv * f.pll.mul / f.pll.divq.unwrap(), 48_000_000);
    let h = h743_clock_config();
    assert!(h.hse_bypass && !h.hsi48_enabled);
    assert!(h.pll3_from_hse && h.usb_from_pll3_q);
    assert_eq!(h.hse_hz / h.pll3.prediv * h.pll3.mul / h.pll3.divq.unwrap(), 48_000_000);
    assert_eq!(h.pll3.divp, None);
}

#[test]
fn probe_echoes_non_empty_packets() {
    assert_eq!(echo_reply(&[]), None);
    assert_eq!(echo_reply(b"hi"), Some(b"hi".to_vec()));
}

#[test]
fn probe_greets_the_host() {
    assert_eq!(probe_banner(), b"USB probe ready\r\n".to_vec());
}
