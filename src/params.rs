use vstd::prelude::*;

verus! {

/// Number of automatable parameters.
pub const PARAM_COUNT: usize = 8;

/// Index of the sawtooth mix weight.
pub const SAW: i32 = 0;
/// Index of the sine mix weight.
pub const SINE: i32 = 1;
/// Index of the square mix weight.
pub const SQUARE: i32 = 2;
/// Index of the triangle mix weight.
pub const TRIANGLE: i32 = 3;
/// Index of the attack time, in seconds.
pub const ATTACK: i32 = 4;
/// Index of the decay time, in seconds.
pub const DECAY: i32 = 5;
/// Index of the sustain level.
pub const SUSTAIN: i32 = 6;
/// Index of the release time, in seconds.
pub const RELEASE: i32 = 7;

/// Bit pattern of the single-precision value 0.2.
pub const BITS_ONE_FIFTH: u32 = 0x3e4c_cccd;
/// Bit pattern of the single-precision value 1.0.
pub const BITS_ONE: u32 = 0x3f80_0000;

/// Whether an index names a parameter.
pub open spec fn in_range(index: i32) -> bool {
    0 <= index < PARAM_COUNT
}

/// What a read of `index` gives over the slots `s`: the slot's value, or
/// the bit pattern of zero where no slot has that index.
pub open spec fn read_slot(s: Seq<u32>, index: i32) -> u32 {
    if in_range(index) {
        s[index as int]
    } else {
        0
    }
}

/// The slots after a write of `bits` at `index`; out of range, unchanged.
pub open spec fn write_slot(s: Seq<u32>, index: i32, bits: u32) -> Seq<u32> {
    if in_range(index) {
        s.update(index as int, bits)
    } else {
        s
    }
}

/// The display label of a parameter; empty out of range.
pub open spec fn name_of(index: i32) -> Seq<char> {
    if index == SAW {
        "Saw"@
    } else if index == SINE {
        "Sin"@
    } else if index == SQUARE {
        "Square"@
    } else if index == TRIANGLE {
        "Triangle"@
    } else if index == ATTACK {
        "Attack"@
    } else if index == DECAY {
        "Decay"@
    } else if index == SUSTAIN {
        "Sustain"@
    } else if index == RELEASE {
        "Release"@
    } else {
        ""@
    }
}

/// The slot a parameter index refers to, if any.
pub fn param_slot(index: i32) -> (r: Option<usize>)
    ensures
        r is Some <==> in_range(index),
        r is Some ==> r->0 == index,
{
    if 0 <= index && index < PARAM_COUNT as i32 {
        Some(index as usize)
    } else {
        None
    }
}

/// The display label of a parameter.
pub fn get_parameter_name(index: i32) -> (r: String)
    ensures
        r@ == name_of(index),
{
    if index == SAW {
        String::from_str("Saw")
    } else if index == SINE {
        String::from_str("Sin")
    } else if index == SQUARE {
        String::from_str("Square")
    } else if index == TRIANGLE {
        String::from_str("Triangle")
    } else if index == ATTACK {
        String::from_str("Attack")
    } else if index == DECAY {
        String::from_str("Decay")
    } else if index == SUSTAIN {
        String::from_str("Sustain")
    } else if index == RELEASE {
        String::from_str("Release")
    } else {
        String::from_str("")
    }
}

/// The eight parameter values, each held as the bit pattern of a
/// single-precision number; the store neither validates nor clamps them.
pub struct ParamStore {
    slots: Vec<u32>,
}

impl View for ParamStore {
    type V = Seq<u32>;

    closed spec fn view(&self) -> Seq<u32> {
        self.slots@
    }
}

impl ParamStore {
    /// The initial values of the eight slots.
    pub open spec fn new_view() -> Seq<u32> {
        seq![0u32, BITS_ONE_FIFTH, BITS_ONE_FIFTH, BITS_ONE_FIFTH, 0u32, 0u32, BITS_ONE, 0u32]
    }

    pub open spec fn wf(&self) -> bool {
        self@.len() == PARAM_COUNT
    }

    /// The store at its initial values: no sawtooth, a fifth of each other
    /// waveform, instant attack, decay and release, full sustain.
    pub fn new() -> (r: ParamStore)
        ensures
            r.wf(),
            r@ == ParamStore::new_view(),
    {
        let slots = vec![0u32, BITS_ONE_FIFTH, BITS_ONE_FIFTH, BITS_ONE_FIFTH, 0u32, 0u32, BITS_ONE, 0u32];
        let r = ParamStore { slots };
        assert(r@ =~= ParamStore::new_view());
        r
    }

    /// The value at `index`, or zero's bit pattern out of range.
    pub fn get_parameter(&self, index: i32) -> (r: u32)
        requires
            self.wf(),
        ensures
            r == read_slot(self@, index),
    {
        match param_slot(index) {
            Some(i) => self.slots[i],
            None => 0,
        }
    }

    /// Stores `bits` at `index`; out of range, nothing changes.
    pub fn set_parameter(&mut self, index: i32, bits: u32)
        requires
            old(self).wf(),
        ensures
            final(self).wf(),
            final(self)@ == write_slot(old(self)@, index, bits),
    {
        match param_slot(index) {
            Some(i) => {
                self.slots.set(i, bits);
            },
            None => {},
        }
    }
}

impl Default for ParamStore {
    fn default() -> (r: ParamStore)
        ensures
            r.wf(),
            r@ == ParamStore::new_view(),
    {
        ParamStore::new()
    }
}

/// A value written at a parameter index is what a read there gives back; an
/// index out of range reads as zero and a write there changes nothing.
pub proof fn lemma_set_then_get(s: Seq<u32>, index: i32, bits: u32)
    requires
        s.len() == PARAM_COUNT,
    ensures
        in_range(index) ==> read_slot(write_slot(s, index, bits), index) == bits,
        !in_range(index) ==> read_slot(write_slot(s, index, bits), index) == 0,
        !in_range(index) ==> write_slot(s, index, bits) == s,
        write_slot(s, index, bits).len() == PARAM_COUNT,
{
}

} // verus!
