//! Integer arithmetic of twelve-tone equal temperament.
//!
//! A pitch is designated either by a semitone index within an octave together
//! with an octave number (scientific pitch notation, where octave 4 contains
//! A4), or by a MIDI note number (where 69 is A4 and 60 is C4). In equal
//! temperament the fundamental frequency of a pitch is
//! `reference * 2^(n / 12)`, where `reference` is the frequency assigned to
//! A4 and `n` is the signed count of semitones separating the pitch from A4.
//!
//! Everything about `n` is integer arithmetic and is verified here: the
//! offset of a (semitone, octave) designation, the decomposition of a MIDI
//! note into semitone and octave, and the laws relating them. The final
//! exponentiation is floating point, which stays with the caller; it is a
//! strictly increasing function of `n`, so every integer fact proved here
//! translates directly into a fact about frequencies.
//!
//! Semitone indices follow the fixed chromatic table: 0 is C, 1 is C#, 2 is
//! D, 3 is D#, 4 is E, 5 is F, 6 is F#, 7 is G, 8 is G#, 9 is A, 10 is A#,
//! 11 is B. Indices outside [0, 11] are not rejected: the formula has no
//! modulo clamp, so they simply shift the pitch by whole semitones beyond
//! one octave.

use vstd::prelude::*;

verus! {

/// The signed number of semitones separating the pitch `(semitone, octave)`
/// from A4. A4 itself is semitone 9 of octave 4, so the offset subtracts 9
/// for A's place within its octave and `48 = 4 * 12` for octave 4's own
/// contribution.
pub open spec fn semitones_from_a4(semitone: int, octave: int) -> int {
    octave * 12 + semitone - 9 - 48
}

/// The semitone index within its octave of a MIDI note.
pub open spec fn midi_semitone(midi: int) -> int {
    midi % 12
}

/// The scientific octave number of a MIDI note. MIDI note 0 lies in octave
/// -1, note 12 in octave 0, and note 60 (C4) in octave 4: MIDI numbering and
/// scientific octave numbering are offset by one octave.
pub open spec fn midi_octave(midi: int) -> int {
    midi / 12 - 1
}

/// Computes the semitone offset from A4 of the pitch `(semitone, octave)`.
///
/// The frequency of the pitch is then `reference * 2^(n / 12)`. Both
/// parameters are signed and unrestricted: out-of-range semitone indices and
/// negative octaves are arithmetically valid, and the widened result type
/// makes the computation total.
pub fn note_offset(semitone: i32, octave: i32) -> (n: i64)
    ensures
        n == semitones_from_a4(semitone as int, octave as int),
{
    octave as i64 * 12 + semitone as i64 - 9 - 48
}

/// Decomposes a MIDI note number into its semitone index (in [0, 11]) and
/// its scientific octave number.
///
/// The octave is computed with signed arithmetic, so the notes below 12 land
/// in octave -1 rather than wrapping around.
pub fn midi_to_pitch(midi: u32) -> (p: (i32, i32))
    ensures
        p.0 == midi_semitone(midi as int),
        p.1 == midi_octave(midi as int),
        0 <= p.0 < 12,
{
    proof {
        assert(midi / 12 <= u32::MAX / 12) by (nonlinear_arith)
            requires
                midi <= u32::MAX,
        ;
    }
    let semitone: i32 = (midi % 12) as i32;
    let octave: i32 = (midi / 12) as i32 - 1;
    (semitone, octave)
}

/// Computes the semitone offset from A4 of a MIDI note, by decomposing it
/// and taking the offset of the resulting pitch. The result is exactly
/// `midi - 69`, since MIDI note 69 is A4.
pub fn midi_offset(midi: u32) -> (n: i64)
    ensures
        n == midi as int - 69,
{
    let (semitone, octave) = midi_to_pitch(midi);
    proof {
        lemma_midi_pitch_consistent(midi as int);
    }
    note_offset(semitone, octave)
}

/// Raising the octave by one raises the pitch by exactly twelve semitones,
/// for every semitone index and octave. This is the integer content of the
/// octave-doubling law: frequency is `reference * 2^(n / 12)`, and adding 12
/// to `n` doubles it.
pub proof fn lemma_octave_adds_twelve(semitone: int, octave: int)
    ensures
        semitones_from_a4(semitone, octave + 1) == semitones_from_a4(semitone, octave) + 12,
{
}

/// Raising the semitone index by one raises the pitch by exactly one
/// semitone, for every semitone index and octave. This is the integer
/// content of the semitone-step law: adding 1 to the offset multiplies the
/// frequency by the twelfth root of two.
pub proof fn lemma_semitone_adds_one(semitone: int, octave: int)
    ensures
        semitones_from_a4(semitone + 1, octave) == semitones_from_a4(semitone, octave) + 1,
{
}

/// The two pitch designations are consistent: decomposing a MIDI note into
/// semitone and octave and taking that pitch's offset from A4 gives exactly
/// `midi - 69`. In particular MIDI 69 names the same pitch as (9, 4), which
/// is A4, and MIDI 60 the same pitch as (0, 4), which is C4.
pub proof fn lemma_midi_pitch_consistent(midi: int)
    requires
        midi >= 0,
    ensures
        semitones_from_a4(midi_semitone(midi), midi_octave(midi)) == midi - 69,
{
    vstd::arithmetic::div_mod::lemma_fundamental_div_mod(midi, 12);
}

} // verus!
