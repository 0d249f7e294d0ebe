//! Board-independent MIDI voice routing: the commands sent to voices and the
//! allocator that picks which logical voice sounds a new note.
//!
//! The STM32F411 profile drives two physical PWM voices (`f4`); the STM32H743
//! profile mixes eight logical DDS voices onto one PWM pin (`h7`).

use vstd::prelude::*;

pub mod f4;
pub mod h7;

verus! {

/// LED fade hint used by the light show: MIDI notes have no a priori
/// duration, so a perceptually pleasant value is used.
pub const LED_FADE_HINT_MS: u64 = 200;

/// A command for one voice.
#[derive(Clone, Copy, Debug, PartialEq, Eq, Structural)]
pub enum VoiceCmd {
    NoteOn { note: u8, freq_hz: u32 },
    NoteOff { note: u8 },
    AllOff,
}

/// A command addressed to logical voice `idx`.
#[derive(Clone, Copy, Debug, PartialEq, Eq, Structural)]
pub struct RoutedVoiceCmd {
    pub idx: usize,
    pub cmd: VoiceCmd,
}

/// What to do with a command on the way to a voice queue.
#[derive(Clone, Copy, Debug, PartialEq, Eq, Structural)]
pub enum Delivery {
    /// The command is dropped.
    Drop,
    /// The command is appended to the queue (and dropped if the queue is full).
    Send(RoutedVoiceCmd),
    /// Everything still queued is discarded first, then the command is sent.
    ClearThenSend(RoutedVoiceCmd),
}

/// Index of the first slot equal to `target`, or `slots.len()` when there is
/// none.
pub open spec fn first_match(slots: Seq<Option<u8>>, target: Option<u8>) -> int
    decreases slots.len(),
{
    if slots.len() == 0 {
        0
    } else if slots[0] == target {
        0
    } else {
        1 + first_match(slots.drop_first(), target)
    }
}

/// `first_match` is the least index holding `target`, or the length.
pub proof fn lemma_first_match(slots: Seq<Option<u8>>, target: Option<u8>)
    ensures
        0 <= first_match(slots, target) <= slots.len(),
        first_match(slots, target) < slots.len() ==> slots[first_match(slots, target)] == target,
        forall|j: int| 0 <= j < first_match(slots, target) ==> slots[j] != target,
    decreases slots.len(),
{
    if slots.len() > 0 && slots[0] != target {
        lemma_first_match(slots.drop_first(), target);
        let r = first_match(slots.drop_first(), target);
        assert forall|j: int| 0 <= j < 1 + r implies slots[j] != target by {
            if j > 0 {
                assert(slots[j] == slots.drop_first()[j - 1]);
            }
        }
    }
}

/// When no slot before `i` holds `target` and slot `i` (if it exists) does,
/// `first_match` is `i`.
pub proof fn lemma_first_match_at(slots: Seq<Option<u8>>, target: Option<u8>, i: int)
    requires
        0 <= i <= slots.len(),
        i < slots.len() ==> slots[i] == target,
        forall|j: int| 0 <= j < i ==> slots[j] != target,
    ensures
        first_match(slots, target) == i,
{
    lemma_first_match(slots, target);
    let r = first_match(slots, target);
    if r < i {
        assert(slots[r] == target);
    } else if i < r {
        assert(slots[i] != target);
    }
}

/// The abstract allocator: which note each logical voice holds, and the
/// round-robin steal cursor.
pub type AllocatorView = (Seq<Option<u8>>, nat);

/// An allocator state is valid when it has at least one voice and the steal
/// cursor points at one of them.
pub open spec fn alloc_valid(v: AllocatorView) -> bool {
    &&& v.0.len() > 0
    &&& v.1 < v.0.len()
}

/// Note-On: the first idle voice takes the note; when none is idle the voice
/// under the steal cursor takes it and the cursor advances round-robin.
/// Returns the new state and the chosen voice.
pub open spec fn note_on_spec(v: AllocatorView, note: u8) -> (AllocatorView, int) {
    let i = first_match(v.0, None);
    if i < v.0.len() {
        ((v.0.update(i, Some(note)), v.1), i)
    } else {
        ((v.0.update(v.1 as int, Some(note)), ((v.1 + 1) % v.0.len()) as nat), v.1 as int)
    }
}

/// Note-Off: the first voice holding the note is freed and returned.
pub open spec fn note_off_spec(v: AllocatorView, note: u8) -> (AllocatorView, Option<int>) {
    let i = first_match(v.0, Some(note));
    if i < v.0.len() {
        ((v.0.update(i, None), v.1), Some(i))
    } else {
        (v, None)
    }
}

/// All-off: every voice is freed; the steal cursor stays.
pub open spec fn all_off_spec(v: AllocatorView) -> AllocatorView {
    (Seq::new(v.0.len(), |i: int| None), v.1)
}

/// Tracks which MIDI note (if any) each logical voice is currently sounding,
/// and chooses targets for new Note-Ons via round-robin steal.
pub struct Allocator {
    notes: Vec<Option<u8>>,
    next_steal: usize,
}

impl View for Allocator {
    type V = AllocatorView;

    closed spec fn view(&self) -> AllocatorView {
        (self.notes@, self.next_steal as nat)
    }
}

impl Allocator {
    /// An allocator for `voice_count` voices, all idle.
    pub fn new(voice_count: usize) -> (a: Self)
        requires
            voice_count > 0,
        ensures
            a@.0 == Seq::new(voice_count as nat, |i: int| None::<u8>),
            a@.1 == 0,
            alloc_valid(a@),
    {
        let mut notes: Vec<Option<u8>> = Vec::new();
        let mut i: usize = 0;
        while i < voice_count
            invariant
                i <= voice_count,
                notes@ == Seq::new(i as nat, |j: int| None::<u8>),
            decreases voice_count - i,
        {
            notes.push(None);
            i = i + 1;
        }
        Allocator { notes, next_steal: 0 }
    }

    /// Pick a voice to sound `note`. Prefer an idle slot; otherwise steal one
    /// in round-robin order. Returns the logical voice index.
    pub fn note_on(&mut self, note: u8) -> (idx: usize)
        requires
            alloc_valid(old(self)@),
        ensures
            (final(self)@, idx as int) == note_on_spec(old(self)@, note),
            idx < old(self)@.0.len(),
            alloc_valid(final(self)@),
    {
        let mut i: usize = 0;
        while i < self.notes.len()
            invariant
                i <= self.notes@.len(),
                self.notes@ == old(self).notes@,
                self.next_steal == old(self).next_steal,
                alloc_valid(old(self)@),
                forall|j: int| 0 <= j < i ==> self.notes@[j] != None::<u8>,
            decreases self.notes@.len() - i,
        {
            if self.notes[i].is_none() {
                proof {
                    lemma_first_match_at(self.notes@, None, i as int);
                }
                self.notes.set(i, Some(note));
                return i;
            }
            i = i + 1;
        }
        proof {
            lemma_first_match_at(self.notes@, None, i as int);
        }
        let idx: usize = self.next_steal;
        self.next_steal = (idx + 1) % self.notes.len();
        self.notes.set(idx, Some(note));
        idx
    }

    /// Return the voice (if any) that was holding this note; clears it.
    pub fn note_off(&mut self, note: u8) -> (r: Option<usize>)
        requires
            alloc_valid(old(self)@),
        ensures
            (final(self)@, match r {
                Some(i) => Some(i as int),
                None => None,
            }) == note_off_spec(old(self)@, note),
            alloc_valid(final(self)@),
    {
        let mut i: usize = 0;
        while i < self.notes.len()
            invariant
                i <= self.notes@.len(),
                self.notes@ == old(self).notes@,
                self.next_steal == old(self).next_steal,
                alloc_valid(old(self)@),
                forall|j: int| 0 <= j < i ==> self.notes@[j] != Some(note),
            decreases self.notes@.len() - i,
        {
            if self.notes[i] == Some(note) {
                proof {
                    lemma_first_match_at(self.notes@, Some(note), i as int);
                }
                self.notes.set(i, None);
                return Some(i);
            }
            i = i + 1;
        }
        proof {
            lemma_first_match_at(self.notes@, Some(note), i as int);
        }
        None
    }

    /// Free every voice.
    pub fn all_off(&mut self)
        requires
            alloc_valid(old(self)@),
        ensures
            final(self)@ == all_off_spec(old(self)@),
            alloc_valid(final(self)@),
    {
        let mut i: usize = 0;
        while i < self.notes.len()
            invariant
                i <= self.notes@.len(),
                self.notes@.len() == old(self).notes@.len(),
                self.next_steal == old(self).next_steal,
                alloc_valid(old(self)@),
                forall|j: int| 0 <= j < i ==> self.notes@[j] == None::<u8>,
            decreases self.notes@.len() - i,
        {
            self.notes.set(i, None);
            i = i + 1;
        }
        proof {
            assert(self.notes@ =~= all_off_spec(old(self)@).0);
        }
    }
}


/// The commands that silence every one of `voice_count` voices: an `AllOff`
/// addressed to each index in turn.
pub open spec fn all_off_commands(voice_count: nat) -> Seq<RoutedVoiceCmd> {
    Seq::new(voice_count, |i: int| RoutedVoiceCmd { idx: i as usize, cmd: VoiceCmd::AllOff })
}

/// Send `AllOff` to every logical voice: returns, in order, the commands to
/// dispatch.
pub fn dispatch_all_off(voice_count: usize) -> (cmds: Vec<RoutedVoiceCmd>)
    ensures
        cmds@ == all_off_commands(voice_count as nat),
{
    let mut cmds: Vec<RoutedVoiceCmd> = Vec::new();
    let mut idx: usize = 0;
    while idx < voice_count
        invariant
            idx <= voice_count,
            cmds@ == all_off_commands(idx as nat),
        decreases voice_count - idx,
    {
        cmds.push(RoutedVoiceCmd { idx, cmd: VoiceCmd::AllOff });
        idx = idx + 1;
        proof {
            assert(cmds@ =~= all_off_commands(idx as nat));
        }
    }
    cmds
}

/// Every operation keeps the allocator valid, and Note-On always answers a
/// voice that exists and now holds the note.
pub proof fn law_allocator_stays_valid(v: AllocatorView, note: u8)
    requires
        alloc_valid(v),
    ensures
        alloc_valid(note_on_spec(v, note).0),
        0 <= note_on_spec(v, note).1 < v.0.len(),
        note_on_spec(v, note).0.0[note_on_spec(v, note).1] == Some(note),
        alloc_valid(note_off_spec(v, note).0),
        alloc_valid(all_off_spec(v)),
{
    lemma_first_match(v.0, None);
    lemma_first_match(v.0, Some(note));
}

/// An idle voice is always preferred: while one exists, Note-On takes the
/// first idle voice, changes no other voice and does not move the steal
/// cursor.
pub proof fn law_idle_voice_preferred(v: AllocatorView, note: u8, k: int)
    requires
        alloc_valid(v),
        0 <= k < v.0.len(),
        v.0[k] == None::<u8>,
    ensures
        ({
            let (w, i) = note_on_spec(v, note);
            &&& i <= k
            &&& v.0[i] == None::<u8>
            &&& forall|j: int| 0 <= j < i ==> v.0[j] != None::<u8>
            &&& w.0 == v.0.update(i, Some(note))
            &&& w.1 == v.1
        }),
{
    lemma_first_match(v.0, None);
}

/// When every voice is busy, Note-On steals the voice under the cursor,
/// advances the cursor round-robin, and every voice stays busy, so
/// successive steals walk through the voices in turn.
pub proof fn law_round_robin_steal(v: AllocatorView, note: u8)
    requires
        alloc_valid(v),
        forall|j: int| 0 <= j < v.0.len() ==> v.0[j] != None::<u8>,
    ensures
        ({
            let (w, i) = note_on_spec(v, note);
            &&& i == v.1
            &&& w.1 == (v.1 + 1) % v.0.len()
            &&& forall|j: int| 0 <= j < w.0.len() ==> w.0[j] != None::<u8>
        }),
{
    lemma_first_match_at(v.0, None, v.0.len() as int);
}

/// Releasing a note that was just pressed frees the very voice that took it;
/// when that voice had been idle the allocator is back where it started.
pub proof fn law_note_on_then_off(v: AllocatorView, note: u8)
    requires
        alloc_valid(v),
        forall|j: int| 0 <= j < v.0.len() ==> v.0[j] != Some(note),
    ensures
        ({
            let (w, i) = note_on_spec(v, note);
            let (u, r) = note_off_spec(w, note);
            &&& r == Some(i)
            &&& u.0 == v.0.update(i, None)
            &&& u.1 == w.1
            &&& (v.0[i] == None::<u8> ==> u == v)
        }),
{
    lemma_first_match(v.0, None);
    let (w, i) = note_on_spec(v, note);
    assert forall|j: int| 0 <= j < i implies w.0[j] != Some(note) by {
        assert(w.0[j] == v.0[j]);
    }
    lemma_first_match_at(w.0, Some(note), i);
    let (u, r) = note_off_spec(w, note);
    assert(u.0 =~= v.0.update(i, None));
    if v.0[i] == None::<u8> {
        assert(u.0 =~= v.0);
    }
}

/// Releasing a note that no voice holds changes nothing.
pub proof fn law_note_off_unheld_is_noop(v: AllocatorView, note: u8)
    requires
        forall|j: int| 0 <= j < v.0.len() ==> v.0[j] != Some(note),
    ensures
        note_off_spec(v, note) == (v, None::<int>),
{
    lemma_first_match(v.0, Some(note));
    if first_match(v.0, Some(note)) < v.0.len() {
        assert(v.0[first_match(v.0, Some(note))] == Some(note));
    }
}

/// After all-off every voice is idle, so the next Note-On takes voice 0.
pub proof fn law_all_off_then_note_on_takes_first_voice(v: AllocatorView, note: u8)
    requires
        alloc_valid(v),
    ensures
        forall|j: int| 0 <= j < v.0.len() ==> all_off_spec(v).0[j] == None::<u8>,
        note_on_spec(all_off_spec(v), note).1 == 0,
{
    let w = all_off_spec(v);
    lemma_first_match_at(w.0, None, 0);
}

} // verus!
