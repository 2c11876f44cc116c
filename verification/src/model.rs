//! The score model consumed by the renderer: tracks of measures, voices,
//! beats and notes, together with its well-formedness predicate and the
//! string-index bounds check.

use vstd::prelude::*;

verus! {

/// What a note is: a played fret, a continuation of the previous note (tie),
/// a rest, a muted (dead) note, or a kind this renderer does not recognise.
/// An unrecognised kind keeps its raw code so that nothing is lost.
#[derive(Clone, Copy, PartialEq, Eq, Structural, Debug)]
pub enum NoteKind {
    Normal,
    Tie,
    Rest,
    Dead,
    Unknown(u8),
}

/// A slide decoration on a note.  The first two slide into the note from
/// above or below; the remaining four slide out of it.  `NoSlide` marks an
/// entry that carries no slide and contributes no glyph.
#[derive(Clone, Copy, PartialEq, Eq, Structural, Debug)]
pub enum SlideKind {
    NoSlide,
    IntoFromAbove,
    IntoFromBelow,
    ShiftSlideTo,
    LegatoSlideTo,
    OutUpwards,
    OutDownwards,
}

/// The decorations attached to a single note.
#[derive(Clone, Debug)]
pub struct NoteEffect {
    /// Hammer-on/pull-off towards the next note on the same string.
    pub hammer: bool,
    /// Quietly played note, shown in parentheses.
    pub ghost_note: bool,
    /// Harmonic technique, shown with a diamond glyph.
    pub harmonic: bool,
    /// Slides into and out of the note, in the order they were given.
    pub slides: Vec<SlideKind>,
}

/// One note: a string index (counted from 1), a fret value, a kind and its
/// decorations.
#[derive(Clone, Debug)]
pub struct Note {
    /// String the note is played on, in `1 ..= string count`.
    pub string: i8,
    /// Fret value shown in the cell.
    pub value: i16,
    pub kind: NoteKind,
    pub effect: NoteEffect,
}

/// A rhythmic unit holding the notes struck together.
#[derive(Clone, Debug)]
pub struct Beat {
    pub notes: Vec<Note>,
}

/// An independent sequence of beats inside a measure.  Only the first voice
/// of each measure is rendered.
#[derive(Clone, Debug)]
pub struct Voice {
    pub beats: Vec<Beat>,
}

/// A fixed-length segment of musical time.
#[derive(Clone, Debug)]
pub struct Measure {
    pub voices: Vec<Voice>,
}

/// One instrument's part: its string tunings (the length gives the string
/// count) and its measures in order.
#[derive(Clone, Debug)]
pub struct Track {
    /// One `(value, tuning)` pair per string; only the length is read here.
    pub strings: Vec<(i8, i8)>,
    pub measures: Vec<Measure>,
}

/// The one recoverable rendering error: a note names a string outside
/// `1 ..= string count`.  Such a note is skipped and rendering continues.
#[derive(Clone, Copy, PartialEq, Eq, Structural, Debug)]
pub enum TabError {
    InvalidStringIndex,
}

/// The beats of the first voice of measure `am` of the track.
pub open spec fn spec_beats(t: &Track, am: int) -> Seq<Beat> {
    t.measures@[am].voices@[0].beats@
}

/// How many beats the first voice of measure `am` has.
pub open spec fn spec_beats_len(t: &Track, am: int) -> int {
    spec_beats(t, am).len() as int
}

/// A track the renderer accepts: at least one string, at least one measure,
/// and every measure carries a first voice with at least one beat.  The
/// score parser is expected to hand over only such tracks.
pub open spec fn track_wf(t: &Track) -> bool {
    &&& t.strings@.len() >= 1
    &&& t.measures@.len() >= 1
    &&& forall|am: int|
        0 <= am < t.measures@.len() ==> (#[trigger] t.measures@[am]).voices@.len() >= 1
    &&& forall|am: int|
        0 <= am < t.measures@.len() ==> #[trigger] spec_beats_len(t, am) >= 1
}

/// The cell column a note lands in: its string index shifted to count from
/// zero, or nothing when the index is out of range.
pub open spec fn spec_string_slot(n: Note, string_count: int) -> Option<int> {
    if 1 <= n.string as int && n.string as int <= string_count {
        Some(n.string as int - 1)
    } else {
        None
    }
}

/// Checks a note's string index against the track's string count and turns
/// it into a cell column counted from zero.  A note outside `1 ..= string
/// count` is reported as `InvalidStringIndex`, exactly when
/// `spec_string_slot` has no value for it.
pub fn string_slot(n: &Note, string_count: usize) -> (r: Result<usize, TabError>)
    ensures
        r is Ok <==> spec_string_slot(*n, string_count as int) is Some,
        r is Ok ==> spec_string_slot(*n, string_count as int) == Some(r->Ok_0 as int),
        r is Err ==> r->Err_0 == TabError::InvalidStringIndex,
{
    if n.string >= 1 && (n.string as usize) <= string_count {
        Ok((n.string as usize) - 1)
    } else {
        Err(TabError::InvalidStringIndex)
    }
}

} // verus!
