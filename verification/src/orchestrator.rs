//! The note model and the sequencing logic.
//!
//! A note names a pitch class (0 = C through 11 = B), an octave, a duration
//! in beats and an amplitude, the last two as binary64 bit patterns. The
//! orchestrators validate a note sequence fail-fast - the first invalid note
//! aborts the whole request, so no bytes are ever produced for a partly
//! valid sequence - and concatenate the per-note sample runs in order. The
//! pitch model is twelve-tone equal temperament referenced to A at octave
//! four: each note's distance in semitones from that reference is exact
//! integer arithmetic and is computed here; scaling the 440 Hz reference by
//! two to the power of a twelfth of that distance is left to the host layer.

use vstd::prelude::*;

use crate::SynthError;
use crate::binary64::{gt_one, gt_one_bits, le_zero, le_zero_bits, lt_zero, lt_zero_bits};

verus! {

/// One entry of a note sequence. `beats` and `amplitude` carry binary64 bit
/// patterns.
#[derive(Clone, Copy, Debug, PartialEq, Eq, Structural)]
pub struct Note {
    /// Chromatic pitch class, 0 = C through 11 = B.
    pub id: u8,
    /// Octave number, nominally 0 through 8.
    pub octave: u8,
    /// Duration in beats; must represent a value above zero.
    pub beats: u64,
    /// Amplitude; must represent a value between zero and one.
    pub amplitude: u64,
}

/// The note-level checks, in the order they are applied: the pitch class id
/// at most eleven, the amplitude within the unit interval, the beats above
/// zero. A NaN amplitude or beats value passes, since every ordered
/// comparison against it is false.
pub open spec fn note_check(note: Note) -> Result<(), SynthError> {
    if note.id > 11 {
        Err(SynthError::NoteIdOutOfRange { id: note.id })
    } else if lt_zero(note.amplitude) || gt_one(note.amplitude) {
        Err(SynthError::NoteAmplitudeOutOfRange { bits: note.amplitude })
    } else if le_zero(note.beats) {
        Err(SynthError::NonPositiveBeats { bits: note.beats })
    } else {
        Ok(())
    }
}

/// The note passes all note-level checks.
pub open spec fn note_valid(note: Note) -> bool {
    note_check(note) is Ok
}

/// The fail-fast check of a note sequence from position `i` on: the first
/// invalid note's error, or success when the rest are valid.
pub open spec fn notes_check_from(notes: Seq<Note>, i: int) -> Result<(), SynthError>
    decreases notes.len() - i,
{
    if i < 0 || i >= notes.len() {
        Ok(())
    } else if !note_valid(notes[i]) {
        note_check(notes[i])
    } else {
        notes_check_from(notes, i + 1)
    }
}

/// The fail-fast check of a whole note sequence.
pub open spec fn notes_check(notes: Seq<Note>) -> Result<(), SynthError> {
    notes_check_from(notes, 0)
}

impl Note {
    /// The note's distance in semitones from the 440 Hz reference, A at
    /// octave four: pitch class nine, octave four maps to zero, and each
    /// octave spans twelve semitones. The note's frequency in Hz is 440
    /// scaled by two to the power of a twelfth of this distance. Fails when
    /// the pitch class id is out of range.
    pub fn semitone_offset(&self) -> (r: Result<i32, SynthError>)
        ensures
            self.id > 11 ==> r == Err::<i32, SynthError>(
                (SynthError::NoteIdOutOfRange { id: self.id }),
            ),
            self.id <= 11 ==> (r matches Ok(k) && k == self.id - 9 + 12 * (self.octave - 4)),
    {
        if self.id > 11 {
            return Err(SynthError::NoteIdOutOfRange { id: self.id });
        }
        Ok(self.id as i32 - 9 + 12 * (self.octave as i32 - 4))
    }

    /// Validates the note-level parameters.
    pub fn validate(&self) -> (r: Result<(), SynthError>)
        ensures
            r == note_check(*self),
    {
        if self.id > 11 {
            Err(SynthError::NoteIdOutOfRange { id: self.id })
        } else if lt_zero_bits(self.amplitude) || gt_one_bits(self.amplitude) {
            Err(SynthError::NoteAmplitudeOutOfRange { bits: self.amplitude })
        } else if le_zero_bits(self.beats) {
            Err(SynthError::NonPositiveBeats { bits: self.beats })
        } else {
            Ok(())
        }
    }
}

/// Validates every note of a sequence in order, stopping at the first
/// invalid one.
fn validate_note_sequence(notes: &Vec<Note>) -> (r: Result<(), SynthError>)
    ensures
        r == notes_check(notes@),
{
    let mut i: usize = 0;
    while i < notes.len()
        invariant
            0 <= i <= notes@.len(),
            notes_check_from(notes@, i as int) == notes_check(notes@),
        decreases notes@.len() - i,
    {
        let checked = notes[i].validate();
        if checked.is_err() {
            return checked;
        }
        i = i + 1;
    }
    Ok(())
}

/// A sequencing request rendered with the sine generator.
#[derive(Clone, Debug)]
pub struct SineOrchestrator {
    /// Tempo in beats per minute.
    pub bpm: u8,
    /// The notes, in playing order.
    pub notes: Vec<Note>,
}

impl SineOrchestrator {
    /// Validates the whole note sequence fail-fast: the result is the first
    /// invalid note's error, and success exactly when every note is valid.
    pub fn validate_notes(&self) -> (r: Result<(), SynthError>)
        ensures
            r == notes_check(self.notes@),
    {
        validate_note_sequence(&self.notes)
    }
}

/// A sequencing request rendered with the cubic-curve generator; the four
/// shape coefficients are binary64 bit patterns.
#[derive(Clone, Debug)]
pub struct BezierOrchestrator {
    /// Tempo in beats per minute.
    pub bpm: u8,
    /// The notes, in playing order.
    pub notes: Vec<Note>,
    /// The curve's shape coefficients.
    pub control_points: Vec<u64>,
}

impl BezierOrchestrator {
    /// Validates the whole note sequence fail-fast: the result is the first
    /// invalid note's error, and success exactly when every note is valid.
    pub fn validate_notes(&self) -> (r: Result<(), SynthError>)
        ensures
            r == notes_check(self.notes@),
    {
        validate_note_sequence(&self.notes)
    }
}

/// A sequence of sample runs, each read as its mathematical sequence.
pub open spec fn runs_view(runs: Seq<Vec<i16>>) -> Seq<Seq<i16>> {
    runs.map_values(|run: Vec<i16>| run@)
}

/// The concatenation of a sequence of sample runs, in order.
pub open spec fn concat_runs(runs: Seq<Seq<i16>>) -> Seq<i16>
    decreases runs.len(),
{
    if runs.len() == 0 {
        Seq::empty()
    } else {
        concat_runs(runs.drop_last()) + runs.last()
    }
}

/// Appends each run's samples to one buffer, in sequence order.
pub fn concat_samples(runs: &Vec<Vec<i16>>) -> (out: Vec<i16>)
    ensures
        out@ == concat_runs(runs_view(runs@)),
{
    let ghost all = runs_view(runs@);
    let mut out: Vec<i16> = Vec::new();
    let mut i: usize = 0;
    while i < runs.len()
        invariant
            0 <= i <= all.len(),
            all == runs_view(runs@),
            out@ == concat_runs(all.subrange(0, i as int)),
        decreases all.len() - i,
    {
        let mut j: usize = 0;
        while j < runs[i].len()
            invariant
                0 <= i < all.len(),
                0 <= j <= all[i as int].len(),
                all == runs_view(runs@),
                all[i as int] == runs@[i as int]@,
                out@ == concat_runs(all.subrange(0, i as int)) + all[i as int].subrange(
                    0,
                    j as int,
                ),
            decreases all[i as int].len() - j,
        {
            out.push(runs[i][j]);
            proof {
                assert(all[i as int].subrange(0, j + 1) =~= all[i as int].subrange(0, j as int)
                    + seq![all[i as int][j as int]]);
            }
            j = j + 1;
        }
        proof {
            let grown = all.subrange(0, i + 1);
            assert(grown.drop_last() =~= all.subrange(0, i as int));
            assert(all[i as int].subrange(0, all[i as int].len() as int) =~= all[i as int]);
            assert(out@ =~= concat_runs(grown));
        }
        i = i + 1;
    }
    proof {
        assert(all.subrange(0, all.len() as int) =~= all);
    }
    out
}

/// The summed length of a sequence of sample runs.
pub open spec fn total_len(runs: Seq<Seq<i16>>) -> int
    decreases runs.len(),
{
    if runs.len() == 0 {
        0
    } else {
        total_len(runs.drop_last()) + runs.last().len()
    }
}

/// Law: the concatenated buffer holds exactly the sum of the per-run sample
/// counts - appending the notes' runs in order neither drops nor invents a
/// sample.
pub proof fn lemma_concat_runs_len(runs: Seq<Seq<i16>>)
    ensures
        concat_runs(runs).len() == total_len(runs),
    decreases runs.len(),
{
    if runs.len() > 0 {
        lemma_concat_runs_len(runs.drop_last());
    }
}

/// Law: a note sequence passes the fail-fast validation exactly when every
/// note in it is valid; one invalid note anywhere, whatever the notes around
/// it, makes the whole sequence - and so the whole synthesis request -
/// fail.
pub proof fn lemma_notes_check_ok(notes: Seq<Note>)
    ensures
        notes_check(notes) is Ok <==> (forall|i: int|
            0 <= i < notes.len() ==> note_valid(#[trigger] notes[i])),
{
    lemma_notes_check_from_ok(notes, 0);
}

proof fn lemma_notes_check_from_ok(notes: Seq<Note>, i: int)
    requires
        0 <= i <= notes.len(),
    ensures
        notes_check_from(notes, i) is Ok <==> (forall|j: int|
            i <= j < notes.len() ==> note_valid(#[trigger] notes[j])),
    decreases notes.len() - i,
{
    if i < notes.len() {
        lemma_notes_check_from_ok(notes, i + 1);
    }
}

} // verus!
