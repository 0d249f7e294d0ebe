//! USB-MIDI event handling. The board is a class-compliant USB MIDI device;
//! incoming Note-On / Note-Off messages are routed through the voice
//! allocator, and each handled event yields the voice commands to dispatch.

use vstd::prelude::*;

use crate::voice::{Allocator, AllocatorView, RoutedVoiceCmd, VoiceCmd};

verus! {

/// Number of entries in the MIDI note frequency table (one per MIDI note).
pub const MIDI_NOTE_COUNT: usize = 128;

/// The MIDI controller number of "All Notes Off".
pub const CC_ALL_NOTES_OFF: u8 = 123;

/// The commands that silence the board: `AllOff` to voice 0, then to voice 1.
pub open spec fn silence_spec() -> Seq<RoutedVoiceCmd> {
    seq![
        RoutedVoiceCmd { idx: 0, cmd: VoiceCmd::AllOff },
        RoutedVoiceCmd { idx: 1, cmd: VoiceCmd::AllOff },
    ]
}

/// The commands sent when the host goes away or asks for all notes off, so
/// that no note keeps sounding.
pub fn silence_commands() -> (cmds: Vec<RoutedVoiceCmd>)
    ensures
        cmds@ == silence_spec(),
{
    let mut cmds: Vec<RoutedVoiceCmd> = Vec::new();
    cmds.push(RoutedVoiceCmd { idx: 0, cmd: VoiceCmd::AllOff });
    cmds.push(RoutedVoiceCmd { idx: 1, cmd: VoiceCmd::AllOff });
    proof {
        assert(cmds@ =~= silence_spec());
    }
    cmds
}

/// One MIDI event (status, note, velocity) applied to the allocator: the new
/// allocator state and the voice commands to dispatch.
///
/// Only the message type (the high nibble of `status`) matters. Notes of 128
/// and above are ignored. Note-On with a nonzero velocity takes a voice and
/// starts the note at its table frequency; Note-Off, or Note-On with
/// velocity zero, releases the voice holding the note (if any); controller
/// 123 (All Notes Off) frees every voice and silences the board; anything
/// else is ignored.
pub open spec fn event_spec(
    v: AllocatorView,
    status: u8,
    note: u8,
    velocity: u8,
    note_hz: Seq<u32>,
) -> (AllocatorView, Seq<RoutedVoiceCmd>) {
    let event = status & 0xF0u8;
    if note >= 128 {
        (v, Seq::empty())
    } else if event == 0x90u8 && velocity > 0 {
        let (w, i) = crate::voice::note_on_spec(v, note);
        (
            w,
            seq![RoutedVoiceCmd { idx: i as usize, cmd: VoiceCmd::NoteOn { note, freq_hz: note_hz[note as int] } }],
        )
    } else if event == 0x80u8 || event == 0x90u8 {
        let (w, r) = crate::voice::note_off_spec(v, note);
        match r {
            Some(i) => (w, seq![RoutedVoiceCmd { idx: i as usize, cmd: VoiceCmd::NoteOff { note } }]),
            None => (w, Seq::empty()),
        }
    } else if event == 0xB0u8 && note == 123 {
        (crate::voice::all_off_spec(v), silence_spec())
    } else {
        (v, Seq::empty())
    }
}

/// Handle one MIDI event: update the allocator and return the voice commands
/// to dispatch, in order.
pub fn handle_event(
    alloc: &mut Allocator,
    status: u8,
    note: u8,
    velocity: u8,
    note_hz: &[u32],
) -> (cmds: Vec<RoutedVoiceCmd>)
    requires
        crate::voice::alloc_valid(old(alloc)@),
        note_hz@.len() == MIDI_NOTE_COUNT,
    ensures
        (final(alloc)@, cmds@) == event_spec(old(alloc)@, status, note, velocity, note_hz@),
        crate::voice::alloc_valid(final(alloc)@),
{
    let event: u8 = status & 0xF0u8;
    let mut cmds: Vec<RoutedVoiceCmd> = Vec::new();
    if note >= 128 {
        return cmds;
    }
    if event == 0x90u8 && velocity > 0 {
        let freq: u32 = note_hz[note as usize];
        let idx: usize = alloc.note_on(note);
        cmds.push(RoutedVoiceCmd { idx, cmd: VoiceCmd::NoteOn { note, freq_hz: freq } });
        proof {
            assert(cmds@ =~= event_spec(old(alloc)@, status, note, velocity, note_hz@).1);
        }
    } else if event == 0x80u8 || event == 0x90u8 {
        match alloc.note_off(note) {
            Some(idx) => {
                cmds.push(RoutedVoiceCmd { idx, cmd: VoiceCmd::NoteOff { note } });
                proof {
                    assert(cmds@ =~= event_spec(old(alloc)@, status, note, velocity, note_hz@).1);
                }
            },
            None => {},
        }
    } else if event == 0xB0u8 && note == CC_ALL_NOTES_OFF {
        alloc.all_off();
        cmds = silence_commands();
    }
    cmds
}

/// The events of a USB-MIDI packet: one per complete four-byte group, whose
/// bytes 1, 2 and 3 are status, note and velocity (byte 0 is the cable
/// header). The first `k` events are applied in order.
pub open spec fn packet_spec(v: AllocatorView, packet: Seq<u8>, note_hz: Seq<u32>, k: nat) -> (
    AllocatorView,
    Seq<RoutedVoiceCmd>,
)
    decreases k,
{
    if k == 0 {
        (v, Seq::empty())
    } else {
        let (w, before) = packet_spec(v, packet, note_hz, (k - 1) as nat);
        let b = 4 * (k - 1);
        let (u, more) = event_spec(w, packet[b + 1], packet[b + 2], packet[b + 3], note_hz);
        (u, before + more)
    }
}

/// Handle every complete USB-MIDI event in a received packet; a trailing
/// partial group is ignored. Returns the voice commands to dispatch, in
/// order.
pub fn handle_packet(alloc: &mut Allocator, packet: &[u8], note_hz: &[u32]) -> (cmds: Vec<
    RoutedVoiceCmd,
>)
    requires
        crate::voice::alloc_valid(old(alloc)@),
        note_hz@.len() == MIDI_NOTE_COUNT,
    ensures
        (final(alloc)@, cmds@) == packet_spec(
            old(alloc)@,
            packet@,
            note_hz@,
            (packet@.len() / 4) as nat,
        ),
        packet@.len() == 4 ==> (final(alloc)@, cmds@) == event_spec(
            old(alloc)@,
            packet@[1],
            packet@[2],
            packet@[3],
            note_hz@,
        ),
        crate::voice::alloc_valid(final(alloc)@),
{
    let mut cmds: Vec<RoutedVoiceCmd> = Vec::new();
    let mut i: usize = 0;
    let n: usize = packet.len();
    while i <= n && n - i >= 4
        invariant
            n == packet@.len(),
            i % 4 == 0,
            i <= n,
            note_hz@.len() == MIDI_NOTE_COUNT,
            crate::voice::alloc_valid(alloc@),
            (alloc@, cmds@) == packet_spec(old(alloc)@, packet@, note_hz@, (i / 4) as nat),
        decreases n - i,
    {
        let status: u8 = packet[i + 1];
        let note: u8 = packet[i + 2];
        let velocity: u8 = packet[i + 3];
        let more = handle_event(alloc, status, note, velocity, note_hz);
        let mut j: usize = 0;
        let ghost before = cmds@;
        while j < more.len()
            invariant
                j <= more@.len(),
                cmds@ == before + more@.take(j as int),
            decreases more@.len() - j,
        {
            cmds.push(more[j]);
            j = j + 1;
            proof {
                assert(more@.take(j as int).drop_last() =~= more@.take(j as int - 1));
                assert(cmds@ =~= before + more@.take(j as int));
            }
        }
        proof {
            assert(more@.take(j as int) =~= more@);
            assert((i + 4) / 4 == i / 4 + 1);
        }
        i = i + 4;
    }
    proof {
        assert(i / 4 == n / 4);
        if n == 4 {
            law_single_event_packet(old(alloc)@, packet@, note_hz@);
        }
    }
    cmds
}


/// Only the message type matters, not the channel; and a Note-On with
/// velocity zero is handled exactly like a Note-Off.
pub proof fn law_velocity_zero_note_on_is_note_off(
    v: AllocatorView,
    on_status: u8,
    off_status: u8,
    note: u8,
    off_velocity: u8,
    note_hz: Seq<u32>,
)
    requires
        on_status & 0xF0u8 == 0x90u8,
        off_status & 0xF0u8 == 0x80u8,
    ensures
        event_spec(v, on_status, note, 0, note_hz) == event_spec(
            v,
            off_status,
            note,
            off_velocity,
            note_hz,
        ),
{
}

/// Notes outside the MIDI range (128 and above) are ignored.
pub proof fn law_out_of_range_notes_ignored(
    v: AllocatorView,
    status: u8,
    note: u8,
    velocity: u8,
    note_hz: Seq<u32>,
)
    requires
        note >= 128,
    ensures
        event_spec(v, status, note, velocity, note_hz) == (v, Seq::<RoutedVoiceCmd>::empty()),
{
}

/// All Notes Off (controller 123) frees every voice and sends `AllOff` to
/// voices 0 and 1.
pub proof fn law_all_notes_off_frees_every_voice(
    v: AllocatorView,
    status: u8,
    velocity: u8,
    note_hz: Seq<u32>,
)
    requires
        status & 0xF0u8 == 0xB0u8,
    ensures
        ({
            let (w, cmds) = event_spec(v, status, CC_ALL_NOTES_OFF, velocity, note_hz);
            &&& cmds == silence_spec()
            &&& w.0.len() == v.0.len()
            &&& forall|j: int| 0 <= j < w.0.len() ==> w.0[j] == None::<u8>
        }),
{
}

/// Pressing and releasing a key that no voice holds starts the note on one
/// voice at its table frequency and then stops it on that same voice; if
/// that voice had been idle, the allocator ends where it started.
pub proof fn law_key_press_then_release(
    v: AllocatorView,
    on_status: u8,
    off_status: u8,
    note: u8,
    velocity: u8,
    off_velocity: u8,
    note_hz: Seq<u32>,
)
    requires
        crate::voice::alloc_valid(v),
        note < 128,
        velocity > 0,
        on_status & 0xF0u8 == 0x90u8,
        off_status & 0xF0u8 == 0x80u8,
        forall|j: int| 0 <= j < v.0.len() ==> v.0[j] != Some(note),
    ensures
        ({
            let (w, on_cmds) = event_spec(v, on_status, note, velocity, note_hz);
            let (u, off_cmds) = event_spec(w, off_status, note, off_velocity, note_hz);
            let i = crate::voice::note_on_spec(v, note).1;
            &&& on_cmds == seq![
                RoutedVoiceCmd {
                    idx: i as usize,
                    cmd: VoiceCmd::NoteOn { note, freq_hz: note_hz[note as int] },
                },
            ]
            &&& off_cmds == seq![RoutedVoiceCmd { idx: i as usize, cmd: VoiceCmd::NoteOff { note } }]
            &&& (v.0[i] == None::<u8> ==> u == v)
        }),
{
    crate::voice::law_note_on_then_off(v, note);
}


/// A packet holding a single complete event (plus at most a partial group)
/// is handled exactly like that event.
pub proof fn law_single_event_packet(v: AllocatorView, packet: Seq<u8>, note_hz: Seq<u32>)
    requires
        4 <= packet.len() < 8,
    ensures
        packet_spec(v, packet, note_hz, (packet.len() / 4) as nat) == event_spec(
            v,
            packet[1],
            packet[2],
            packet[3],
            note_hz,
        ),
{
    assert(packet.len() / 4 == 1);
    reveal_with_fuel(packet_spec, 2);
    let (u, more) = event_spec(v, packet[1], packet[2], packet[3], note_hz);
    assert(Seq::<RoutedVoiceCmd>::empty() + more =~= more);
}

/// Handling the first `k` events reads only the first `4 * k` bytes: what
/// follows them (more events, or a trailing partial group) does not change
/// the outcome.
pub proof fn law_packet_reads_only_complete_groups(
    v: AllocatorView,
    packet: Seq<u8>,
    rest: Seq<u8>,
    note_hz: Seq<u32>,
    k: nat,
)
    requires
        4 * k <= packet.len(),
    ensures
        packet_spec(v, packet + rest, note_hz, k) == packet_spec(v, packet, note_hz, k),
    decreases k,
{
    if k > 0 {
        law_packet_reads_only_complete_groups(v, packet, rest, note_hz, (k - 1) as nat);
        let b = 4 * (k - 1);
        assert((packet + rest)[b + 1] == packet[b + 1]);
        assert((packet + rest)[b + 2] == packet[b + 2]);
        assert((packet + rest)[b + 3] == packet[b + 3]);
    }
}

/// The first `n + k` events of `p + q`, where `p` holds exactly `n` complete
/// events, are the `n` events of `p` followed by the first `k` events of `q`
/// from the state `p` left.
proof fn lemma_packet_split(v: AllocatorView, p: Seq<u8>, q: Seq<u8>, note_hz: Seq<u32>, k: nat)
    requires
        p.len() % 4 == 0,
        4 * k <= q.len(),
    ensures
        ({
            let n = (p.len() / 4) as nat;
            let (w, first) = packet_spec(v, p, note_hz, n);
            let (u, second) = packet_spec(w, q, note_hz, k);
            packet_spec(v, p + q, note_hz, n + k) == (u, first + second)
        }),
    decreases k,
{
    let n = (p.len() / 4) as nat;
    let (w, first) = packet_spec(v, p, note_hz, n);
    if k == 0 {
        law_packet_reads_only_complete_groups(v, p, q, note_hz, n);
        assert(first + Seq::<RoutedVoiceCmd>::empty() =~= first);
    } else {
        lemma_packet_split(v, p, q, note_hz, (k - 1) as nat);
        let (u0, second0) = packet_spec(w, q, note_hz, (k - 1) as nat);
        let b = 4 * (k - 1);
        let c = 4 * (n + k - 1);
        assert(c == p.len() + b);
        assert((p + q)[c + 1] == q[b + 1]);
        assert((p + q)[c + 2] == q[b + 2]);
        assert((p + q)[c + 3] == q[b + 3]);
        assert((n + k - 1) as nat == n + (k - 1) as nat);
        let (u, more) = event_spec(u0, q[b + 1], q[b + 2], q[b + 3], note_hz);
        assert(first + second0 + more =~= first + (second0 + more));
    }
}

/// Packets compose: handling `p` (whole events only) followed by `q` in one
/// packet gives the commands of `p` then those of `q`, and the state that
/// handling `q` after `p` leaves. So no complete event of either packet is
/// lost or reordered.
pub proof fn law_packet_concat(v: AllocatorView, p: Seq<u8>, q: Seq<u8>, note_hz: Seq<u32>)
    requires
        p.len() % 4 == 0,
    ensures
        ({
            let (w, first) = packet_spec(v, p, note_hz, (p.len() / 4) as nat);
            let (u, second) = packet_spec(w, q, note_hz, (q.len() / 4) as nat);
            packet_spec(v, p + q, note_hz, ((p + q).len() / 4) as nat) == (u, first + second)
        }),
{
    lemma_packet_split(v, p, q, note_hz, (q.len() / 4) as nat);
    assert((p + q).len() / 4 == p.len() / 4 + q.len() / 4);
}

} // verus!
