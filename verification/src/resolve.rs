//! The decoration resolver and the measure layout engine.
//!
//! The resolver takes the visible window of measures and computes one
//! render cell per string and beat.  A cell's own note supplies its kind,
//! value and direct decorations; ties and hammer marks that span beat or
//! measure boundaries are resolved purely by coordinate lookup: a cell's
//! `tie_right` comes from a tie note on its successor position, its
//! `hammer_left` from a hammer note on its predecessor position.  A tie at
//! the start of the window, or a hammer at its end, has no neighbour and
//! its propagated mark is dropped — that is not an error.  A note whose
//! string index is out of range is skipped; the rest of the window is
//! still resolved.
//!
//! The layout engine turns one resolved measure into a text block: one row
//! per string, led by a branch glyph (a top corner for the first string, a
//! bottom corner for the last, a tee between), rows joined by line breaks.

use vstd::prelude::*;

use crate::cell::CellView;
use crate::cell::NoteText;
use crate::cell::spec_cell_text;
use crate::cell::spec_empty_cell;
use crate::model::Beat;
use crate::model::Note;
use crate::model::NoteKind;
use crate::model::Track;
use crate::model::spec_beats;
use crate::model::spec_beats_len;
use crate::model::spec_string_slot;
use crate::model::string_slot;
use crate::model::track_wf;
use crate::viewport::Mode;
use crate::viewport::ViewportState;

verus! {

/// The note of `notes` that owns string slot `s` (counted from zero): the
/// last one whose checked string index lands there.  Notes with an
/// out-of-range string index own no slot.
pub open spec fn spec_note_for(notes: Seq<Note>, s: int, string_count: int) -> Option<Note>
    decreases notes.len(),
{
    if notes.len() == 0 {
        None
    } else if spec_string_slot(notes.last(), string_count) == Some(s) {
        Some(notes.last())
    } else {
        spec_note_for(notes.drop_last(), s, string_count)
    }
}

/// The note on string slot `s` of beat `b` of (absolute) measure `am`.
pub open spec fn spec_note_at(t: &Track, am: int, b: int, s: int) -> Option<Note> {
    spec_note_for(spec_beats(t, am)[b].notes@, s, t.strings@.len() as int)
}

/// How many measures of the track are in the visible window: the window
/// width, cut off at the end of the score.
pub open spec fn spec_window_len(t: &Track, vs: ViewportState) -> int {
    let count = t.measures@.len() as int;
    if vs.shift as int + vs.visible_count as int <= count {
        vs.visible_count as int
    } else {
        count - vs.shift as int
    }
}

/// The window position after `(m, b)`: the next beat of the same measure,
/// else the first beat of the next visible measure, else nothing.
pub open spec fn spec_succ(t: &Track, shift: int, wlen: int, m: int, b: int) -> Option<(int, int)> {
    if b + 1 < spec_beats_len(t, shift + m) {
        Some((m, b + 1))
    } else if m + 1 < wlen {
        Some((m + 1, 0int))
    } else {
        None
    }
}

/// The window position before `(m, b)`: the previous beat of the same
/// measure, else the last beat of the previous visible measure, else
/// nothing.
pub open spec fn spec_pred(t: &Track, shift: int, m: int, b: int) -> Option<(int, int)> {
    if b > 0 {
        Some((m, b - 1))
    } else if m > 0 {
        Some((m - 1, spec_beats_len(t, shift + m - 1) - 1))
    } else {
        None
    }
}

/// Whether the cell at window measure `m`, beat `b`, string `s` is
/// selected: the cursor's beat in navigate mode (the whole beat column),
/// the cursor's exact cell in edit mode.
pub open spec fn spec_selected(vs: ViewportState, m: int, b: int, s: int) -> bool {
    &&& vs.shift as int + m == vs.cursor.measure_index as int
    &&& b == vs.cursor.beat_index as int
    &&& (vs.mode is Navigate || s == vs.cursor.string_index as int)
}

/// Whether `(m, b)` is a valid window position.
pub open spec fn spec_pos_valid(t: &Track, vs: ViewportState, m: int, b: int) -> bool {
    &&& 0 <= m < spec_window_len(t, vs)
    &&& 0 <= b < spec_beats_len(t, vs.shift as int + m)
}

/// The fully resolved cell at window measure `m`, beat `b`, string `s`:
/// its own note's kind, value and direct decorations; `tie_left` when its
/// own note is a tie and `tie_right` when the successor position holds a
/// tie on the same string; `hammer_right` when its own note hammers and
/// `hammer_left` when the predecessor position's note does.  A position
/// with no note keeps the empty state, receiving only propagated marks
/// and selection.
pub open spec fn spec_cell(t: &Track, vs: ViewportState, m: int, b: int, s: int) -> CellView {
    let shift = vs.shift as int;
    let wlen = spec_window_len(t, vs);
    let own = spec_note_at(t, shift + m, b, s);
    let succ_tie = match spec_succ(t, shift, wlen, m, b) {
        Some(p) => spec_note_at(t, shift + p.0, p.1, s) matches Some(n) && n.kind is Tie,
        None => false,
    };
    let pred_hammer = match spec_pred(t, shift, m, b) {
        Some(p) => spec_note_at(t, shift + p.0, p.1, s) matches Some(n) && n.effect.hammer,
        None => false,
    };
    match own {
        Some(n) => CellView {
            note_type: n.kind,
            value: n.value as int,
            is_selected: spec_selected(vs, m, b, s),
            tie_left: n.kind is Tie,
            tie_right: succ_tie,
            hammer_left: pred_hammer,
            hammer_right: n.effect.hammer,
            harmonic: n.effect.harmonic,
            ghost_note: n.effect.ghost_note,
            slides: n.effect.slides@,
        },
        None => CellView {
            is_selected: spec_selected(vs, m, b, s),
            tie_right: succ_tie,
            hammer_left: pred_hammer,
            ..spec_empty_cell()
        },
    }
}

/// A window position's predecessor is exactly the position it is the
/// successor of: the two lookups invert each other, so a propagated mark
/// lands on exactly one neighbour cell.
pub proof fn lemma_pred_succ_inverse(
    t: &Track,
    vs: ViewportState,
    m: int,
    b: int,
    m2: int,
    b2: int,
)
    requires
        track_wf(t),
        (vs.shift as int) < t.measures@.len(),
        spec_pos_valid(t, vs, m, b),
        spec_pos_valid(t, vs, m2, b2),
    ensures
        spec_succ(t, vs.shift as int, spec_window_len(t, vs), m2, b2) == Some((m, b))
            <==> spec_pred(t, vs.shift as int, m, b) == Some((m2, b2)),
{
    let shift = vs.shift as int;
    assert(spec_beats_len(t, shift + m) >= 1);
    assert(spec_beats_len(t, shift + m2) >= 1);
    if m > 0 {
        assert(spec_beats_len(t, shift + m - 1) >= 1);
    }
}

/// A tie note marks its own cell with `tie_left`, and marks `tie_right`
/// on its predecessor cell on the same string — on none only when it
/// stands at the very start of the window.
pub proof fn lemma_tie_marks(t: &Track, vs: ViewportState, m: int, b: int, s: int)
    requires
        track_wf(t),
        (vs.shift as int) < t.measures@.len(),
        spec_pos_valid(t, vs, m, b),
        0 <= s < t.strings@.len(),
        spec_note_at(t, vs.shift as int + m, b, s) matches Some(n) && n.kind is Tie,
    ensures
        spec_cell(t, vs, m, b, s).tie_left,
        spec_pred(t, vs.shift as int, m, b) is None <==> m == 0 && b == 0,
        spec_pred(t, vs.shift as int, m, b) matches Some(p) ==> spec_pos_valid(t, vs, p.0, p.1)
            && spec_cell(t, vs, p.0, p.1, s).tie_right,
{
    let shift = vs.shift as int;
    if m > 0 {
        assert(spec_beats_len(t, shift + m - 1) >= 1);
    }
    match spec_pred(t, shift, m, b) {
        Some(p) => {
            lemma_pred_succ_inverse(t, vs, m, b, p.0, p.1);
        },
        None => {},
    }
}

/// A cell carries `tie_right` only for a reachable tie: exactly when its
/// successor position exists and holds a tie note on the same string.
pub proof fn lemma_tie_right_exact(t: &Track, vs: ViewportState, m: int, b: int, s: int)
    requires
        track_wf(t),
        (vs.shift as int) < t.measures@.len(),
        spec_pos_valid(t, vs, m, b),
        0 <= s < t.strings@.len(),
    ensures
        spec_cell(t, vs, m, b, s).tie_right <==> (spec_succ(
            t,
            vs.shift as int,
            spec_window_len(t, vs),
            m,
            b,
        ) matches Some(p) && (spec_note_at(t, vs.shift as int + p.0, p.1, s) matches Some(n)
            && n.kind is Tie)),
{
}

/// A hammer note marks its own cell with `hammer_right`, and marks
/// `hammer_left` on its successor cell on the same string — on none only
/// when it stands at the very end of the window.
pub proof fn lemma_hammer_marks(t: &Track, vs: ViewportState, m: int, b: int, s: int)
    requires
        track_wf(t),
        (vs.shift as int) < t.measures@.len(),
        spec_pos_valid(t, vs, m, b),
        0 <= s < t.strings@.len(),
        spec_note_at(t, vs.shift as int + m, b, s) matches Some(n) && n.effect.hammer,
    ensures
        spec_cell(t, vs, m, b, s).hammer_right,
        spec_succ(t, vs.shift as int, spec_window_len(t, vs), m, b) is None <==> (m
            == spec_window_len(t, vs) - 1 && b == spec_beats_len(t, vs.shift as int + m) - 1),
        spec_succ(t, vs.shift as int, spec_window_len(t, vs), m, b) matches Some(p)
            ==> spec_pos_valid(t, vs, p.0, p.1) && spec_cell(t, vs, p.0, p.1, s).hammer_left,
{
    let shift = vs.shift as int;
    let wlen = spec_window_len(t, vs);
    if m + 1 < wlen {
        assert(spec_beats_len(t, shift + m + 1) >= 1);
    }
    match spec_succ(t, shift, wlen, m, b) {
        Some(p) => {
            lemma_pred_succ_inverse(t, vs, p.0, p.1, m, b);
        },
        None => {},
    }
}

/// A cell carries `hammer_left` exactly when its predecessor position
/// exists and holds a hammer note on the same string.
pub proof fn lemma_hammer_left_exact(t: &Track, vs: ViewportState, m: int, b: int, s: int)
    requires
        track_wf(t),
        (vs.shift as int) < t.measures@.len(),
        spec_pos_valid(t, vs, m, b),
        0 <= s < t.strings@.len(),
    ensures
        spec_cell(t, vs, m, b, s).hammer_left <==> (spec_pred(t, vs.shift as int, m, b) matches Some(
            p,
        ) && (spec_note_at(t, vs.shift as int + p.0, p.1, s) matches Some(n) && n.effect.hammer)),
{
}

/// Finds the index of the note of `beat` that owns string slot `s`, if
/// any: the last note whose checked string index lands there.  Notes
/// whose string index fails the bounds check are skipped here, exactly as
/// `InvalidStringIndex` recovery asks.
fn note_index_for(beat: &Beat, s: usize, string_count: usize) -> (r: Option<usize>)
    ensures
        match r {
            Some(i) => i < beat.notes@.len() && spec_note_for(
                beat.notes@,
                s as int,
                string_count as int,
            ) == Some(beat.notes@[i as int]),
            None => spec_note_for(beat.notes@, s as int, string_count as int) is None,
        },
{
    let mut r: Option<usize> = None;
    let n = beat.notes.len();
    for j in 0..n
        invariant
            n == beat.notes@.len(),
            match r {
                Some(i) => i < j && spec_note_for(
                    beat.notes@.take(j as int),
                    s as int,
                    string_count as int,
                ) == Some(beat.notes@[i as int]),
                None => spec_note_for(beat.notes@.take(j as int), s as int, string_count as int)
                    is None,
            },
    {
        proof {
            assert(beat.notes@.take(j as int + 1).drop_last() =~= beat.notes@.take(j as int));
            assert(beat.notes@.take(j as int + 1).last() == beat.notes@[j as int]);
        }
        match string_slot(&beat.notes[j], string_count) {
            Ok(slot) => {
                if slot == s {
                    r = Some(j);
                }
            },
            Err(_) => {},
        }
    }
    proof {
        assert(beat.notes@.take(n as int) =~= beat.notes@);
    }
    r
}

/// Copies a slide list, element for element.
fn copy_slides(v: &Vec<crate::model::SlideKind>) -> (r: Vec<crate::model::SlideKind>)
    ensures
        r@ == v@,
{
    let mut r: Vec<crate::model::SlideKind> = Vec::new();
    let n = v.len();
    for i in 0..n
        invariant
            n == v@.len(),
            r@ =~= v@.take(i as int),
    {
        r.push(v[i]);
        proof {
            assert(r@ =~= v@.take(i as int + 1));
        }
    }
    proof {
        assert(v@.take(n as int) =~= v@);
    }
    r
}

/// Whether the note owning string slot `s` of the given position is a tie.
fn tie_at(t: &Track, am: usize, b: usize, s: usize) -> (r: bool)
    requires
        track_wf(t),
        (am as int) < t.measures@.len(),
        (b as int) < spec_beats_len(t, am as int),
        (s as int) < t.strings@.len(),
    ensures
        r == (spec_note_at(t, am as int, b as int, s as int) matches Some(n) && n.kind is Tie),
{
    let beat = &t.measures[am].voices[0].beats[b];
    match note_index_for(beat, s, t.strings.len()) {
        Some(i) => match beat.notes[i].kind {
            NoteKind::Tie => true,
            _ => false,
        },
        None => false,
    }
}

/// Whether the note owning string slot `s` of the given position hammers.
fn hammer_at(t: &Track, am: usize, b: usize, s: usize) -> (r: bool)
    requires
        track_wf(t),
        (am as int) < t.measures@.len(),
        (b as int) < spec_beats_len(t, am as int),
        (s as int) < t.strings@.len(),
    ensures
        r == (spec_note_at(t, am as int, b as int, s as int) matches Some(n) && n.effect.hammer),
{
    let beat = &t.measures[am].voices[0].beats[b];
    match note_index_for(beat, s, t.strings.len()) {
        Some(i) => beat.notes[i].effect.hammer,
        None => false,
    }
}

/// The width of the visible window in measures, cut off at the score end.
fn window_len(t: &Track, vs: &ViewportState) -> (r: usize)
    requires
        (vs.shift as int) < t.measures@.len(),
    ensures
        r as int == spec_window_len(t, *vs),
{
    let count = t.measures.len();
    if vs.visible_count <= count - vs.shift {
        vs.visible_count
    } else {
        count - vs.shift
    }
}

/// Builds the resolved cell at window measure `m`, beat `b`, string `s`.
#[verifier::rlimit(30)]
fn make_cell(t: &Track, vs: &ViewportState, m: usize, b: usize, s: usize) -> (r: NoteText)
    requires
        track_wf(t),
        (vs.shift as int) < t.measures@.len(),
        spec_pos_valid(t, *vs, m as int, b as int),
        (s as int) < t.strings@.len(),
    ensures
        r@ == spec_cell(t, *vs, m as int, b as int, s as int),
{
    let ghost shift = vs.shift as int;
    proof {
        assert(t.measures.len() == t.measures@.len());
    }
    let am = vs.shift + m;
    let wlen = window_len(t, vs);
    let blen = t.measures[am].voices[0].beats.len();

    // Propagated marks, by coordinate lookup on the neighbouring positions.
    let tie_right: bool = if b + 1 < blen {
        tie_at(t, am, b + 1, s)
    } else if m + 1 < wlen {
        proof {
            assert(spec_beats_len(t, shift + m as int + 1) >= 1);
        }
        tie_at(t, am + 1, 0, s)
    } else {
        false
    };
    let hammer_left: bool = if b > 0 {
        hammer_at(t, am, b - 1, s)
    } else if m > 0 {
        proof {
            assert(spec_beats_len(t, shift + m as int - 1) >= 1);
        }
        let pb = t.measures[am - 1].voices[0].beats.len() - 1;
        hammer_at(t, am - 1, pb, s)
    } else {
        false
    };
    let is_selected: bool = vs.shift + m == vs.cursor.measure_index && b == vs.cursor.beat_index
        && (match vs.mode {
        Mode::Navigate => true,
        Mode::Edit => s == vs.cursor.string_index,
    });

    let beat = &t.measures[am].voices[0].beats[b];
    let mut cell = match note_index_for(beat, s, t.strings.len()) {
        Some(i) => {
            let note = &beat.notes[i];
            NoteText {
                note_type: note.kind,
                value: note.value,
                is_selected: false,
                tie_left: match note.kind {
                    NoteKind::Tie => true,
                    _ => false,
                },
                tie_right: false,
                hammer_left: false,
                hammer_right: note.effect.hammer,
                harmonic: note.effect.harmonic,
                ghost_note: note.effect.ghost_note,
                slides: copy_slides(&note.effect.slides),
            }
        },
        None => NoteText::new(),
    };
    cell.tie_right = tie_right;
    cell.hammer_left = hammer_left;
    cell.is_selected = is_selected;
    proof {
        assert(cell@ =~= spec_cell(t, *vs, m as int, b as int, s as int));
    }
    cell
}

/// One measure of the visible window, resolved: `strings[s][b]` is the
/// cell of string `s` at beat `b`.
pub struct MeasureText {
    pub strings: Vec<Vec<NoteText>>,
}

impl View for MeasureText {
    type V = Seq<Seq<CellView>>;

    open spec fn view(&self) -> Seq<Seq<CellView>> {
        self.strings@.map_values(|row: Vec<NoteText>| row@.map_values(|c: NoteText| c@))
    }
}

/// Resolves the visible window `[shift, shift + visible_count)` of the
/// track, cut off at the score end, into one cell grid per measure: cell
/// `(m, s, b)` of the result is exactly `spec_cell(t, vs, m, b, s)`, so
/// each measure holds one cell per string and beat.
pub fn resolve_window(t: &Track, vs: &ViewportState) -> (r: Vec<MeasureText>)
    requires
        track_wf(t),
        (vs.shift as int) < t.measures@.len(),
    ensures
        r@.len() == spec_window_len(t, *vs),
        forall|m: int|
            0 <= m < r@.len() ==> (#[trigger] r@[m]).strings@.len() == t.strings@.len(),
        forall|m: int, s: int|
            0 <= m < r@.len() && 0 <= s < t.strings@.len() ==> (#[trigger] r@[m].strings@[s])@.len()
                == spec_beats_len(t, vs.shift as int + m),
        forall|m: int, s: int, b: int|
            0 <= m < r@.len() && 0 <= s < t.strings@.len() && 0 <= b < spec_beats_len(
                t,
                vs.shift as int + m,
            ) ==> (#[trigger] r@[m].strings@[s]@[b])@ == spec_cell(t, *vs, m, b, s),
{
    let wlen = window_len(t, vs);
    let nstr = t.strings.len();
    let mut r: Vec<MeasureText> = Vec::new();
    for m in 0..wlen
        invariant
            wlen as int == spec_window_len(t, *vs),
            nstr == t.strings@.len(),
            track_wf(t),
            (vs.shift as int) < t.measures@.len(),
            r@.len() == m,
            forall|mm: int|
                0 <= mm < m ==> (#[trigger] r@[mm]).strings@.len() == t.strings@.len(),
            forall|mm: int, s: int|
                0 <= mm < m && 0 <= s < t.strings@.len() ==> (#[trigger] r@[mm].strings@[s])@.len()
                    == spec_beats_len(t, vs.shift as int + mm),
            forall|mm: int, s: int, b: int|
                0 <= mm < m && 0 <= s < t.strings@.len() && 0 <= b < spec_beats_len(
                    t,
                    vs.shift as int + mm,
                ) ==> (#[trigger] r@[mm].strings@[s]@[b])@ == spec_cell(t, *vs, mm, b, s),
    {
        proof {
            assert(t.measures.len() == t.measures@.len());
        }
        let am = vs.shift + m;
        let blen = t.measures[am].voices[0].beats.len();
        let mut rows: Vec<Vec<NoteText>> = Vec::new();
        for s in 0..nstr
            invariant
                wlen as int == spec_window_len(t, *vs),
                nstr == t.strings@.len(),
                track_wf(t),
                (vs.shift as int) < t.measures@.len(),
                (m as int) < spec_window_len(t, *vs),
                am == vs.shift + m,
                blen as int == spec_beats_len(t, vs.shift as int + m as int),
                rows@.len() == s,
                forall|ss: int|
                    0 <= ss < s ==> (#[trigger] rows@[ss])@.len() == spec_beats_len(
                        t,
                        vs.shift as int + m as int,
                    ),
                forall|ss: int, b: int|
                    0 <= ss < s && 0 <= b < spec_beats_len(t, vs.shift as int + m as int) ==> (
                    #[trigger] rows@[ss]@[b])@ == spec_cell(t, *vs, m as int, b, ss),
        {
            let mut row: Vec<NoteText> = Vec::new();
            for b in 0..blen
                invariant
                    wlen as int == spec_window_len(t, *vs),
                    nstr == t.strings@.len(),
                    track_wf(t),
                    (vs.shift as int) < t.measures@.len(),
                    (m as int) < spec_window_len(t, *vs),
                    (s as int) < t.strings@.len(),
                    am == vs.shift + m,
                    blen as int == spec_beats_len(t, vs.shift as int + m as int),
                    row@.len() == b,
                    forall|bb: int|
                        0 <= bb < b ==> (#[trigger] row@[bb])@ == spec_cell(
                            t,
                            *vs,
                            m as int,
                            bb,
                            s as int,
                        ),
            {
                let cell = make_cell(t, vs, m, b, s);
                row.push(cell);
            }
            rows.push(row);
        }
        r.push(MeasureText { strings: rows });
    }
    r
}

/// The branch glyph that leads a string's row: a top corner for the first
/// string, a bottom corner for the last, a tee for every string between.
pub open spec fn branch_char(s: int, n: int) -> char {
    if s == 0 {
        '╭'
    } else if s == n - 1 {
        '╰'
    } else {
        '├'
    }
}

/// The branch glyph of string `s` of `n`, as text, for an emitter that
/// assembles rows itself.
pub fn branch_glyph(s: usize, n: usize) -> (r: &'static str)
    ensures
        r@ == seq![branch_char(s as int, n as int)],
{
    if s == 0 {
        proof {
            reveal_strlit("╭");
            assert("╭"@ =~= seq!['╭']);
        }
        "╭"
    } else if n >= 1 && s == n - 1 {
        proof {
            reveal_strlit("╰");
            assert("╰"@ =~= seq!['╰']);
        }
        "╰"
    } else {
        proof {
            reveal_strlit("├");
            assert("├"@ =~= seq!['├']);
        }
        "├"
    }
}

/// The text of a row's cells, concatenated in beat order.
pub open spec fn spec_row_cells(cells: Seq<CellView>) -> Seq<char>
    decreases cells.len(),
{
    if cells.len() == 0 {
        Seq::empty()
    } else {
        spec_row_cells(cells.drop_last()) + spec_cell_text(cells.last())
    }
}

/// One string's full row: its branch glyph, then its cells.
pub open spec fn spec_row(grid: Seq<Seq<CellView>>, s: int) -> Seq<char> {
    seq![branch_char(s, grid.len() as int)] + spec_row_cells(grid[s])
}

/// The first `n` rows of a measure block, joined by line breaks.
pub open spec fn spec_rows_upto(grid: Seq<Seq<CellView>>, n: int) -> Seq<char>
    decreases n,
{
    if n <= 0 {
        Seq::empty()
    } else if n == 1 {
        spec_row(grid, 0)
    } else {
        spec_rows_upto(grid, n - 1) + seq!['\n'] + spec_row(grid, n - 1)
    }
}

/// The whole text block of a resolved measure.
pub open spec fn spec_measure_text(grid: Seq<Seq<CellView>>) -> Seq<char> {
    spec_rows_upto(grid, grid.len() as int)
}

impl MeasureText {
    /// Lays the measure out as text: one row per string, each led by its
    /// branch glyph and followed by that string's composed cells in beat
    /// order, rows joined by line breaks.
    pub fn gen_text(&self) -> (r: String)
        ensures
            r@ == spec_measure_text(self@),
    {
        let n = self.strings.len();
        let mut out = String::new();
        for s in 0..n
            invariant
                n == self.strings@.len(),
                out@ == spec_rows_upto(self@, s as int),
        {
            let mut row = String::new();
            if s == 0 {
                row.append("╭");
                proof {
                    reveal_strlit("╭");
                    assert("╭"@ =~= seq!['╭']);
                }
            } else if s == n - 1 {
                row.append("╰");
                proof {
                    reveal_strlit("╰");
                    assert("╰"@ =~= seq!['╰']);
                }
            } else {
                row.append("├");
                proof {
                    reveal_strlit("├");
                    assert("├"@ =~= seq!['├']);
                }
            }
            proof {
                assert(self@.len() == self.strings@.len());
                assert(row@ =~= seq![branch_char(s as int, self@.len() as int)]);
            }
            let cells = &self.strings[s];
            let blen = cells.len();
            for b in 0..blen
                invariant
                    n == self.strings@.len(),
                    (s as int) < self@.len(),
                    cells == &self.strings@[s as int],
                    blen == cells@.len(),
                    row@ == seq![branch_char(s as int, self@.len() as int)] + spec_row_cells(
                        self@[s as int].take(b as int),
                    ),
            {
                let cell_text = cells[b].gen_text();
                row.append(cell_text.as_str());
                proof {
                    assert(self@[s as int] =~= cells@.map_values(|c: NoteText| c@));
                    assert(self@[s as int].take(b as int + 1).drop_last() =~= self@[s as int].take(
                        b as int,
                    ));
                    assert(self@[s as int].take(b as int + 1).last() == self@[s as int][b as int]);
                    assert(self@[s as int][b as int] == cells@[b as int]@);
                }
            }
            proof {
                assert(self@[s as int].take(blen as int) =~= self@[s as int]);
                assert(row@ == spec_row(self@, s as int));
            }
            if s > 0 {
                out.append("\n");
                proof {
                    reveal_strlit("\n");
                    assert("\n"@ =~= seq!['\n']);
                }
            }
            out.append(row.as_str());
            proof {
                assert(out@ =~= spec_rows_upto(self@, s as int + 1));
            }
        }
        out
    }
}

} // verus!
