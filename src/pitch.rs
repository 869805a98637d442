use vstd::prelude::*;

verus! {

/// Note number of A4, the reference pitch of 440 Hz.
pub const A4_NOTE: i8 = 69;

/// The signed distance of a note from A4 in semitones: a note's frequency is
/// 440 Hz times two to the power of this distance over twelve.
pub fn semitones_from_a4(note: u8) -> (r: i8)
    requires
        note <= 127,
    ensures
        r == note - A4_NOTE,
{
    note as i8 - A4_NOTE
}

} // verus!
