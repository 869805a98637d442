use vstd::prelude::*;
use crate::envelope::{Envelope, LEVEL_ONE, Shape, Stage, level_of, triggered, released, ticked};
use crate::midi::{MidiCommand, command_of, decode_midi};
use crate::params::{ParamStore, read_slot, write_slot};
use crate::registry::{NOTE_COUNT, PolyRegistry};

verus! {

/// Sample rate, in hertz, until the host sets one.
pub const DEFAULT_SAMPLE_RATE: u32 = 44100;

/// The voice table after a MIDI message: note-on and note-off for a note
/// number in range act on that note's voice; anything else changes nothing.
pub open spec fn after_midi(s: Seq<Envelope>, data: [u8; 3], sh: Shape) -> Seq<Envelope> {
    match command_of(data) {
        MidiCommand::NoteOn(n) => if n < NOTE_COUNT {
            s.update(n as int, triggered(s[n as int]))
        } else {
            s
        },
        MidiCommand::NoteOff(n) => if n < NOTE_COUNT {
            s.update(n as int, released(s[n as int], sh))
        } else {
            s
        },
        MidiCommand::Ignore => s,
    }
}

/// The synthesis engine: the voice table, the parameter store, the sample
/// rate and the envelope shape that rendering uses.
pub struct Synth {
    voices: PolyRegistry,
    params: ParamStore,
    sample_rate: u32,
    shape: Shape,
}

impl Synth {
    pub closed spec fn voices_view(&self) -> Seq<Envelope> {
        self.voices@
    }

    pub closed spec fn params_view(&self) -> Seq<u32> {
        self.params@
    }

    pub closed spec fn rate_view(&self) -> u32 {
        self.sample_rate
    }

    pub closed spec fn shape_view(&self) -> Shape {
        self.shape
    }

    pub closed spec fn wf(&self) -> bool {
        &&& self.voices.wf()
        &&& self.params.wf()
        &&& self.shape.wf()
    }

    /// An engine with every voice silent, the initial parameters, the default
    /// sample rate, and an envelope with no attack, decay or release at full
    /// sustain.
    pub fn new() -> (r: Synth)
        ensures
            r.wf(),
            r.voices_view().len() == NOTE_COUNT,
            forall|n: int| 0 <= n < NOTE_COUNT ==> (#[trigger] r.voices_view()[n]).stage == Stage::Idle,
            r.params_view() == ParamStore::new_view(),
            r.rate_view() == DEFAULT_SAMPLE_RATE,
            r.shape_view() == (Shape { attack: 0, decay: 0, sustain: LEVEL_ONE, release: 0 }),
    {
        Synth {
            voices: PolyRegistry::new(),
            params: ParamStore::new(),
            sample_rate: DEFAULT_SAMPLE_RATE,
            shape: Shape { attack: 0, decay: 0, sustain: LEVEL_ONE, release: 0 },
        }
    }

    /// The sample rate in hertz.
    pub fn sample_rate(&self) -> (r: u32)
        ensures
            r == self.rate_view(),
    {
        self.sample_rate
    }

    /// Sets the sample rate: every render from now on is timed by it.
    pub fn set_sample_rate(&mut self, rate: u32)
        requires
            old(self).wf(),
        ensures
            final(self).wf(),
            final(self).rate_view() == rate,
            final(self).voices_view() == old(self).voices_view(),
            final(self).params_view() == old(self).params_view(),
            final(self).shape_view() == old(self).shape_view(),
    {
        self.sample_rate = rate;
    }

    /// The envelope shape in use.
    pub fn shape(&self) -> (r: Shape)
        ensures
            r == self.shape_view(),
    {
        self.shape
    }

    /// Sets the envelope shape used by later note-offs and renders.
    pub fn set_shape(&mut self, sh: Shape)
        requires
            old(self).wf(),
            sh.wf(),
        ensures
            final(self).wf(),
            final(self).shape_view() == sh,
            final(self).voices_view() == old(self).voices_view(),
            final(self).params_view() == old(self).params_view(),
            final(self).rate_view() == old(self).rate_view(),
    {
        self.shape = sh;
    }

    /// A parameter's value (its bit pattern), or zero's out of range.
    pub fn get_parameter(&self, index: i32) -> (r: u32)
        requires
            self.wf(),
        ensures
            r == read_slot(self.params_view(), index),
    {
        self.params.get_parameter(index)
    }

    /// Stores a parameter's value (its bit pattern); out of range, nothing
    /// changes.
    pub fn set_parameter(&mut self, index: i32, bits: u32)
        requires
            old(self).wf(),
        ensures
            final(self).wf(),
            final(self).params_view() == write_slot(old(self).params_view(), index, bits),
            final(self).voices_view() == old(self).voices_view(),
            final(self).rate_view() == old(self).rate_view(),
            final(self).shape_view() == old(self).shape_view(),
    {
        self.params.set_parameter(index, bits)
    }

    /// The envelope of a note's voice.
    pub fn voice(&self, note: u8) -> (r: Envelope)
        requires
            self.wf(),
            note < NOTE_COUNT,
        ensures
            r == self.voices_view()[note as int],
    {
        self.voices.voice(note)
    }

    /// Whether a note's voice is sounding.
    pub fn is_active(&self, note: u8) -> (r: bool)
        requires
            self.wf(),
            note < NOTE_COUNT,
        ensures
            r == (self.voices_view()[note as int].stage != Stage::Idle),
    {
        self.voices.is_active(note)
    }

    /// Starts a note.
    pub fn note_on(&mut self, note: u8)
        requires
            old(self).wf(),
            note < NOTE_COUNT,
        ensures
            final(self).wf(),
            final(self).voices_view() == old(self).voices_view().update(
                note as int,
                triggered(old(self).voices_view()[note as int]),
            ),
            final(self).params_view() == old(self).params_view(),
            final(self).rate_view() == old(self).rate_view(),
            final(self).shape_view() == old(self).shape_view(),
    {
        self.voices.note_on(note)
    }

    /// Releases a note.
    pub fn note_off(&mut self, note: u8)
        requires
            old(self).wf(),
            note < NOTE_COUNT,
        ensures
            final(self).wf(),
            final(self).voices_view() == old(self).voices_view().update(
                note as int,
                released(old(self).voices_view()[note as int], old(self).shape_view()),
            ),
            final(self).params_view() == old(self).params_view(),
            final(self).rate_view() == old(self).rate_view(),
            final(self).shape_view() == old(self).shape_view(),
    {
        let sh = self.shape;
        self.voices.note_off(note, &sh)
    }

    /// Acts on a three-byte MIDI message.
    pub fn process_midi_event(&mut self, data: [u8; 3])
        requires
            old(self).wf(),
        ensures
            final(self).wf(),
            final(self).voices_view() == after_midi(old(self).voices_view(), data, old(self).shape_view()),
            final(self).params_view() == old(self).params_view(),
            final(self).rate_view() == old(self).rate_view(),
            final(self).shape_view() == old(self).shape_view(),
    {
        match decode_midi(data) {
            MidiCommand::NoteOn(n) => if n < NOTE_COUNT as u8 {
                self.note_on(n);
            },
            MidiCommand::NoteOff(n) => if n < NOTE_COUNT as u8 {
                self.note_off(n);
            },
            MidiCommand::Ignore => {},
        }
    }

    /// Renders one sample: writes each voice's envelope level into `levels`
    /// (indexed by note number; zero for a silent voice), then advances every
    /// voice by one sample.
    pub fn render(&mut self, levels: &mut Vec<u32>)
        requires
            old(self).wf(),
            old(levels)@.len() == NOTE_COUNT,
        ensures
            final(self).wf(),
            final(levels)@.len() == NOTE_COUNT,
            forall|n: int| 0 <= n < NOTE_COUNT ==> #[trigger] final(levels)@[n] == level_of(
                old(self).voices_view()[n],
                old(self).shape_view(),
            ),
            forall|n: int| 0 <= n < NOTE_COUNT ==> #[trigger] final(self).voices_view()[n] == ticked(
                old(self).voices_view()[n],
                old(self).shape_view(),
            ),
            final(self).voices_view().len() == NOTE_COUNT,
            final(self).params_view() == old(self).params_view(),
            final(self).rate_view() == old(self).rate_view(),
            final(self).shape_view() == old(self).shape_view(),
    {
        let sh = self.shape;
        self.voices.render(&sh, levels)
    }
}

impl Default for Synth {
    fn default() -> (r: Synth)
        ensures
            r.wf(),
            r.rate_view() == DEFAULT_SAMPLE_RATE,
    {
        Synth::new()
    }
}

} // verus!
