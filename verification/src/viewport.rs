//! The viewport/cursor controller: a selection cursor and a scroll offset
//! over the measures of a track, moved by navigation intents in two modes.
//!
//! In navigate mode, vertical moves step one measure and horizontal moves
//! step one beat, wrapping over measure boundaries; every move is clamped
//! at the score's edges, and the scroll offset (`shift`) is then adjusted
//! by the minimum amount that keeps the cursor inside the visible window.
//! In edit mode, vertical moves step the string coordinate and horizontal
//! moves the beat coordinate; all four are clamped to their valid ranges,
//! so that no coordinate can leave the score.

use vstd::prelude::*;

use crate::model::Track;
use crate::model::spec_beats_len;
use crate::model::track_wf;

verus! {

/// A navigation intent.
#[derive(Clone, Copy, PartialEq, Eq, Structural, Debug)]
pub enum Direction {
    Up,
    Down,
    Left,
    Right,
}

/// The two interaction modes.
#[derive(Clone, Copy, PartialEq, Eq, Structural, Debug)]
pub enum Mode {
    Navigate,
    Edit,
}

/// The selection cursor: a measure, a beat inside it, and a string.
#[derive(Clone, Copy, PartialEq, Eq, Structural, Debug)]
pub struct Cursor {
    pub measure_index: usize,
    pub beat_index: usize,
    pub string_index: usize,
}

/// The state the renderer keeps across frames: the first visible measure
/// (`shift`), how many measures are visible, the cursor, and the mode.
#[derive(Clone, Copy, PartialEq, Eq, Structural, Debug)]
pub struct ViewportState {
    pub shift: usize,
    pub visible_count: usize,
    pub cursor: Cursor,
    pub mode: Mode,
}

/// A viewport the renderer accepts: the window is at least one measure
/// wide, every cursor coordinate indexes into the track, and the cursor's
/// measure lies inside the visible window
/// (`shift <= measure <= shift + visible_count - 1`).
pub open spec fn vs_wf(vs: ViewportState, t: &Track) -> bool {
    &&& track_wf(t)
    &&& vs.visible_count >= 1
    &&& (vs.cursor.measure_index as int) < t.measures@.len()
    &&& (vs.cursor.beat_index as int) < spec_beats_len(t, vs.cursor.measure_index as int)
    &&& (vs.cursor.string_index as int) < t.strings@.len()
    &&& vs.shift <= vs.cursor.measure_index
    &&& vs.cursor.measure_index as int <= vs.shift as int + vs.visible_count as int - 1
    &&& (vs.shift as int) < t.measures@.len()
}

/// The scroll offset after a move: shifted by the minimum delta that puts
/// measure `m` back inside the window of width `vc` starting at `shift`.
pub open spec fn spec_shift_after(shift: int, m: int, vc: int) -> int {
    if m < shift {
        m
    } else if m > shift + vc - 1 {
        m - (vc - 1)
    } else {
        shift
    }
}

/// The cursor's measure and beat after a navigate-mode move, clamped at
/// the score's edges.
pub open spec fn spec_nav_target(vs: ViewportState, t: &Track, dir: Direction) -> (int, int) {
    let count = t.measures@.len() as int;
    let m = vs.cursor.measure_index as int;
    let b = vs.cursor.beat_index as int;
    match dir {
        Direction::Up => (if m > 0 { m - 1 } else { 0 }, 0),
        Direction::Down => (if m + 1 < count { m + 1 } else { m }, 0),
        Direction::Left => if b > 0 {
            (m, b - 1)
        } else if m > 0 {
            (m - 1, spec_beats_len(t, m - 1) - 1)
        } else {
            (m, b)
        },
        Direction::Right => if b + 1 < spec_beats_len(t, m) {
            (m, b + 1)
        } else if m + 1 < count {
            (m + 1, 0)
        } else {
            (m, b)
        },
    }
}

/// A navigate-mode move: the cursor steps, and the window follows it.
pub open spec fn spec_move_navigate(vs: ViewportState, t: &Track, dir: Direction) -> ViewportState {
    let mb = spec_nav_target(vs, t, dir);
    ViewportState {
        shift: spec_shift_after(vs.shift as int, mb.0, vs.visible_count as int) as usize,
        visible_count: vs.visible_count,
        cursor: Cursor {
            measure_index: mb.0 as usize,
            beat_index: mb.1 as usize,
            string_index: vs.cursor.string_index,
        },
        mode: vs.mode,
    }
}

/// An edit-mode move: vertical intents step the string coordinate and
/// horizontal intents the beat coordinate, clamped to their ranges; the
/// window does not move.
pub open spec fn spec_move_edit(vs: ViewportState, t: &Track, dir: Direction) -> ViewportState {
    let s = vs.cursor.string_index as int;
    let b = vs.cursor.beat_index as int;
    let blen = spec_beats_len(t, vs.cursor.measure_index as int);
    let nstr = t.strings@.len() as int;
    let cursor = match dir {
        Direction::Up => Cursor {
            string_index: (if s > 0 { s - 1 } else { 0 }) as usize,
            ..vs.cursor
        },
        Direction::Down => Cursor {
            string_index: (if s + 1 < nstr { s + 1 } else { s }) as usize,
            ..vs.cursor
        },
        Direction::Left => Cursor { beat_index: (if b > 0 { b - 1 } else { 0 }) as usize, ..vs.cursor },
        Direction::Right => Cursor {
            beat_index: (if b + 1 < blen { b + 1 } else { b }) as usize,
            ..vs.cursor
        },
    };
    ViewportState { cursor, ..vs }
}

/// One accepted move, in whichever mode the viewport is in.
pub open spec fn spec_move(vs: ViewportState, t: &Track, dir: Direction) -> ViewportState {
    match vs.mode {
        Mode::Navigate => spec_move_navigate(vs, t, dir),
        Mode::Edit => spec_move_edit(vs, t, dir),
    }
}

/// The state after a whole sequence of moves, applied left to right.
pub open spec fn spec_moves(vs: ViewportState, t: &Track, dirs: Seq<Direction>) -> ViewportState
    decreases dirs.len(),
{
    if dirs.len() == 0 {
        vs
    } else {
        spec_move(spec_moves(vs, t, dirs.drop_last()), t, dirs.last())
    }
}

/// One move keeps the viewport well formed; in particular the cursor's
/// measure stays inside `shift ..= shift + visible_count - 1`.
pub proof fn lemma_move_preserves_invariant(vs: ViewportState, t: &Track, dir: Direction)
    requires
        vs_wf(vs, t),
    ensures
        vs_wf(spec_move(vs, t, dir), t),
{
    let count = t.measures@.len() as int;
    let m = vs.cursor.measure_index as int;
    assert(t.measures.len() == t.measures@.len());
    assert(t.strings.len() == t.strings@.len());
    assert(spec_beats_len(t, m) >= 1);
    if m > 0 {
        assert(spec_beats_len(t, m - 1) >= 1);
    }
    if m + 1 < count {
        assert(spec_beats_len(t, m + 1) >= 1);
    }
}

/// For every sequence of navigation moves, the viewport invariant holds
/// after each move: every prefix of the sequence is itself a sequence of
/// moves, so in every intermediate state the cursor's measure lies inside
/// `shift ..= shift + visible_count - 1`.
pub proof fn lemma_moves_preserve_invariant(vs: ViewportState, t: &Track, dirs: Seq<Direction>)
    requires
        vs_wf(vs, t),
    ensures
        vs_wf(spec_moves(vs, t, dirs), t),
        spec_moves(vs, t, dirs).shift <= spec_moves(vs, t, dirs).cursor.measure_index,
        spec_moves(vs, t, dirs).cursor.measure_index as int <= spec_moves(vs, t, dirs).shift as int
            + spec_moves(vs, t, dirs).visible_count as int - 1,
    decreases dirs.len(),
{
    if dirs.len() > 0 {
        lemma_moves_preserve_invariant(vs, t, dirs.drop_last());
        lemma_move_preserves_invariant(spec_moves(vs, t, dirs.drop_last()), t, dirs.last());
    }
}

impl ViewportState {
    /// The state a viewer starts from: the window at the top of the score,
    /// the cursor on the first beat of the first measure, navigate mode.
    pub fn new(visible_count: usize) -> (r: Self)
        requires
            visible_count >= 1,
        ensures
            r == (ViewportState {
                shift: 0usize,
                visible_count,
                cursor: Cursor { measure_index: 0usize, beat_index: 0usize, string_index: 0usize },
                mode: Mode::Navigate,
            }),
    {
        ViewportState {
            shift: 0,
            visible_count,
            cursor: Cursor { measure_index: 0, beat_index: 0, string_index: 0 },
            mode: Mode::Navigate,
        }
    }

    /// Switches between navigate and edit mode; nothing else changes.
    pub fn toggle_mode(&mut self)
        ensures
            final(self).mode == (match old(self).mode {
                Mode::Navigate => Mode::Edit,
                Mode::Edit => Mode::Navigate,
            }),
            final(self).shift == old(self).shift,
            final(self).visible_count == old(self).visible_count,
            final(self).cursor == old(self).cursor,
    {
        self.mode = match self.mode {
            Mode::Navigate => Mode::Edit,
            Mode::Edit => Mode::Navigate,
        };
    }

    /// Adopts a new window width (say, after the terminal was resized) and
    /// re-clamps the scroll offset so the cursor stays visible.
    pub fn resize(&mut self, t: &Track, visible_count: usize)
        requires
            vs_wf(*old(self), t),
            visible_count >= 1,
        ensures
            final(self).visible_count == visible_count,
            final(self).cursor == old(self).cursor,
            final(self).mode == old(self).mode,
            final(self).shift as int == spec_shift_after(
                old(self).shift as int,
                old(self).cursor.measure_index as int,
                visible_count as int,
            ),
            vs_wf(*final(self), t),
    {
        self.visible_count = visible_count;
        if self.cursor.measure_index < self.shift {
            self.shift = self.cursor.measure_index;
        } else if self.cursor.measure_index > self.shift && self.cursor.measure_index - self.shift
            > visible_count - 1 {
            self.shift = self.cursor.measure_index - (visible_count - 1);
        }
    }

    /// Processes one navigation intent, as [`spec_move`] describes: moves
    /// the cursor, clamped at the score's edges, and keeps it inside the
    /// visible window.  A move that would cross a score boundary is a
    /// silent no-op, never an error.
    pub fn cursor_move(&mut self, t: &Track, direction: Direction)
        requires
            vs_wf(*old(self), t),
        ensures
            *final(self) == spec_move(*old(self), t, direction),
            vs_wf(*final(self), t),
    {
        match self.mode {
            Mode::Navigate => {
                match direction {
                    Direction::Up => {
                        if self.cursor.measure_index > 0 {
                            self.cursor.measure_index = self.cursor.measure_index - 1;
                        }
                        self.cursor.beat_index = 0;
                    },
                    Direction::Down => {
                        if self.cursor.measure_index < t.measures.len() - 1 {
                            self.cursor.measure_index = self.cursor.measure_index + 1;
                        }
                        self.cursor.beat_index = 0;
                    },
                    Direction::Left => {
                        if self.cursor.beat_index > 0 {
                            self.cursor.beat_index = self.cursor.beat_index - 1;
                        } else if self.cursor.measure_index > 0 {
                            self.cursor.measure_index = self.cursor.measure_index - 1;
                            let blen = t.measures[self.cursor.measure_index].voices[0].beats.len();
                            self.cursor.beat_index = blen - 1;
                        }
                    },
                    Direction::Right => {
                        let blen = t.measures[self.cursor.measure_index].voices[0].beats.len();
                        if self.cursor.beat_index + 1 < blen {
                            self.cursor.beat_index = self.cursor.beat_index + 1;
                        } else if self.cursor.measure_index < t.measures.len() - 1 {
                            self.cursor.measure_index = self.cursor.measure_index + 1;
                            self.cursor.beat_index = 0;
                        }
                    },
                }
                if self.cursor.measure_index < self.shift {
                    self.shift = self.cursor.measure_index;
                } else if self.cursor.measure_index > self.shift && self.cursor.measure_index
                    - self.shift > self.visible_count - 1 {
                    self.shift = self.cursor.measure_index - (self.visible_count - 1);
                }
            },
            Mode::Edit => {
                match direction {
                    Direction::Up => {
                        if self.cursor.string_index > 0 {
                            self.cursor.string_index = self.cursor.string_index - 1;
                        }
                    },
                    Direction::Down => {
                        if self.cursor.string_index < t.strings.len() - 1 {
                            self.cursor.string_index = self.cursor.string_index + 1;
                        }
                    },
                    Direction::Left => {
                        if self.cursor.beat_index > 0 {
                            self.cursor.beat_index = self.cursor.beat_index - 1;
                        }
                    },
                    Direction::Right => {
                        let blen = t.measures[self.cursor.measure_index].voices[0].beats.len();
                        if self.cursor.beat_index + 1 < blen {
                            self.cursor.beat_index = self.cursor.beat_index + 1;
                        }
                    },
                }
            },
        }
    }
}

} // verus!
