use vstd::prelude::*;
use crate::envelope::{Envelope, Shape, Stage, level_of, triggered, released, ticked};

verus! {

/// One slot for each MIDI note number.
pub const NOTE_COUNT: usize = 128;

/// The slots after a note-on for each of the notes below `k`, in order.
pub open spec fn all_triggered(s: Seq<Envelope>, k: nat) -> Seq<Envelope>
    decreases k,
{
    if k == 0 {
        s
    } else {
        let p = all_triggered(s, (k - 1) as nat);
        p.update(k - 1, triggered(p[k - 1]))
    }
}

/// The slots after a note-off for note `n` alone.
pub open spec fn released_at(s: Seq<Envelope>, n: int, sh: Shape) -> Seq<Envelope> {
    s.update(n, released(s[n], sh))
}

/// The polyphonic voice table: one envelope per note number, each with a
/// state of its own. It never grows or shrinks.
pub struct PolyRegistry {
    voices: Vec<Envelope>,
}

impl View for PolyRegistry {
    type V = Seq<Envelope>;

    closed spec fn view(&self) -> Seq<Envelope> {
        self.voices@
    }
}

impl PolyRegistry {
    pub open spec fn wf(&self) -> bool {
        &&& self@.len() == NOTE_COUNT
        &&& forall|n: int| 0 <= n < NOTE_COUNT ==> (#[trigger] self@[n]).wf()
    }

    /// A table of silent voices.
    pub fn new() -> (r: PolyRegistry)
        ensures
            r.wf(),
            forall|n: int| 0 <= n < NOTE_COUNT ==> (#[trigger] r@[n]).stage == Stage::Idle,
    {
        let mut voices: Vec<Envelope> = Vec::with_capacity(NOTE_COUNT);
        let mut i: usize = 0;
        while i < NOTE_COUNT
            invariant
                i <= NOTE_COUNT,
                voices@.len() == i,
                forall|n: int| 0 <= n < i ==> (#[trigger] voices@[n]).stage == Stage::Idle
                    && voices@[n].wf(),
            decreases NOTE_COUNT - i,
        {
            voices.push(Envelope::idle());
            i = i + 1;
        }
        PolyRegistry { voices }
    }

    /// The envelope of a note's voice.
    pub fn voice(&self, note: u8) -> (r: Envelope)
        requires
            self.wf(),
            note < NOTE_COUNT,
        ensures
            r == self@[note as int],
    {
        self.voices[note as usize]
    }

    /// Whether a note's voice is sounding (in any stage but idle).
    pub fn is_active(&self, note: u8) -> (r: bool)
        requires
            self.wf(),
            note < NOTE_COUNT,
        ensures
            r == (self@[note as int].stage != Stage::Idle),
    {
        let v = self.voices[note as usize];
        match v.stage {
            Stage::Idle => false,
            _ => true,
        }
    }

    /// Starts the attack of a note's voice; the other voices are untouched.
    pub fn note_on(&mut self, note: u8)
        requires
            old(self).wf(),
            note < NOTE_COUNT,
        ensures
            final(self).wf(),
            final(self)@ == old(self)@.update(note as int, triggered(old(self)@[note as int])),
    {
        let mut v = self.voices[note as usize];
        v.note_on();
        self.voices.set(note as usize, v);
    }

    /// Releases a note's voice; the other voices are untouched.
    pub fn note_off(&mut self, note: u8, sh: &Shape)
        requires
            old(self).wf(),
            sh.wf(),
            note < NOTE_COUNT,
        ensures
            final(self).wf(),
            final(self)@ == old(self)@.update(note as int, released(old(self)@[note as int], *sh)),
    {
        let mut v = self.voices[note as usize];
        v.note_off(sh);
        self.voices.set(note as usize, v);
    }

    /// Writes each voice's current level into `levels` (indexed by note
    /// number), then advances every voice by one sample.
    pub fn render(&mut self, sh: &Shape, levels: &mut Vec<u32>)
        requires
            old(self).wf(),
            sh.wf(),
            old(levels)@.len() == NOTE_COUNT,
        ensures
            final(self).wf(),
            final(levels)@.len() == NOTE_COUNT,
            forall|n: int| 0 <= n < NOTE_COUNT ==> #[trigger] final(levels)@[n] == level_of(old(self)@[n], *sh),
            forall|n: int| 0 <= n < NOTE_COUNT ==> #[trigger] final(self)@[n] == ticked(old(self)@[n], *sh),
    {
        let ghost before = self@;
        let mut i: usize = 0;
        while i < NOTE_COUNT
            invariant
                i <= NOTE_COUNT,
                sh.wf(),
                before.len() == NOTE_COUNT,
                self.voices@.len() == NOTE_COUNT,
                levels@.len() == NOTE_COUNT,
                forall|n: int| 0 <= n < NOTE_COUNT ==> (#[trigger] before[n]).wf(),
                forall|n: int| 0 <= n < i ==> #[trigger] levels@[n] == level_of(before[n], *sh),
                forall|n: int|
                    0 <= n < i ==> #[trigger] self.voices@[n] == ticked(before[n], *sh)
                        && self.voices@[n].wf(),
                forall|n: int| i <= n < NOTE_COUNT ==> #[trigger] self.voices@[n] == before[n],
            decreases NOTE_COUNT - i,
        {
            let mut v = self.voices[i];
            levels.set(i, v.level(sh));
            v.tick(sh);
            self.voices.set(i, v);
            i = i + 1;
        }
    }
}

impl Default for PolyRegistry {
    fn default() -> (r: PolyRegistry)
        ensures
            r.wf(),
            forall|n: int| 0 <= n < NOTE_COUNT ==> (#[trigger] r@[n]).stage == Stage::Idle,
    {
        PolyRegistry::new()
    }
}

proof fn lemma_all_triggered(s: Seq<Envelope>, k: nat)
    requires
        s.len() == NOTE_COUNT,
        k <= NOTE_COUNT,
    ensures
        all_triggered(s, k).len() == NOTE_COUNT,
        forall|n: int| 0 <= n < k ==> #[trigger] all_triggered(s, k)[n] == triggered(s[n]),
        forall|n: int| k <= n < NOTE_COUNT ==> #[trigger] all_triggered(s, k)[n] == s[n],
    decreases k,
{
    if k > 0 {
        lemma_all_triggered(s, (k - 1) as nat);
    }
}

/// With a note-on for every note number, every voice is in its attack at
/// once; a note-off for any one of them then releases that voice alone.
pub proof fn lemma_full_polyphony(s: Seq<Envelope>, sh: Shape)
    requires
        s.len() == NOTE_COUNT,
    ensures
        forall|n: int| 0 <= n < NOTE_COUNT ==> (#[trigger] all_triggered(s, NOTE_COUNT as nat)[n]).stage
            == Stage::Attack,
        forall|n: int| 0 <= n < NOTE_COUNT ==> (#[trigger] released_at(all_triggered(s, NOTE_COUNT as nat), n, sh)).len()
            == NOTE_COUNT && released_at(all_triggered(s, NOTE_COUNT as nat), n, sh)[n].stage
            == Stage::Release,
        forall|n: int, m: int|
            0 <= n < NOTE_COUNT && 0 <= m < NOTE_COUNT && m != n ==> (#[trigger] released_at(
                all_triggered(s, NOTE_COUNT as nat),
                n,
                sh,
            )[m]).stage == Stage::Attack,
{
    lemma_all_triggered(s, NOTE_COUNT as nat);
}

/// The monophonic voice: one envelope, sounding the last note that was
/// started.
#[derive(Clone, Copy, Debug, PartialEq, Eq, Structural)]
pub struct MonoVoice {
    pub note: u8,
    pub env: Envelope,
}

/// A note-on takes over the single voice.
pub open spec fn mono_on(v: MonoVoice, note: u8) -> MonoVoice {
    MonoVoice { note, env: triggered(v.env) }
}

/// A note-off releases the voice only when it is for the note it sounds.
pub open spec fn mono_off(v: MonoVoice, note: u8, sh: Shape) -> MonoVoice {
    if note == v.note {
        MonoVoice { note: v.note, env: released(v.env, sh) }
    } else {
        v
    }
}

impl MonoVoice {
    pub open spec fn wf(self) -> bool {
        self.note < NOTE_COUNT && self.env.wf()
    }

    /// A silent voice.
    pub fn new() -> (r: MonoVoice)
        ensures
            r.wf(),
            r.env.stage == Stage::Idle,
    {
        MonoVoice { note: 0, env: Envelope::idle() }
    }

    /// Sounds `note`, forgetting whichever note was held before.
    pub fn note_on(&mut self, note: u8)
        requires
            old(self).wf(),
            note < NOTE_COUNT,
        ensures
            final(self).wf(),
            *final(self) == mono_on(*old(self), note),
    {
        self.note = note;
        self.env.note_on();
    }

    /// The voice's current envelope level.
    pub fn level(&self, sh: &Shape) -> (r: u32)
        requires
            self.wf(),
            sh.wf(),
        ensures
            r == level_of(self.env, *sh),
    {
        self.env.level(sh)
    }

    /// Advances the voice by one sample.
    pub fn tick(&mut self, sh: &Shape)
        requires
            old(self).wf(),
        ensures
            final(self).wf(),
            final(self).note == old(self).note,
            final(self).env == ticked(old(self).env, *sh),
    {
        self.env.tick(sh);
    }

    /// Releases the voice if it sounds `note`.
    pub fn note_off(&mut self, note: u8, sh: &Shape)
        requires
            old(self).wf(),
            sh.wf(),
        ensures
            final(self).wf(),
            *final(self) == mono_off(*old(self), note, *sh),
    {
        if note == self.note {
            self.env.note_off(sh);
        }
    }
}

/// A second note-on without a note-off in between leaves the voice exactly
/// as a single note-on for the second note would: nothing of the first note
/// remains.
pub proof fn lemma_last_note_priority(v: MonoVoice, w: MonoVoice, first: u8, second: u8)
    ensures
        mono_on(mono_on(v, first), second) == mono_on(w, second),
        mono_on(mono_on(v, first), second).note == second,
{
}

} // verus!
