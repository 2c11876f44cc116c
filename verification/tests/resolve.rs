use tabview::model::Beat;
use tabview::model::Measure;
use tabview::model::Note;
use tabview::model::NoteEffect;
use tabview::model::NoteKind;
use tabview::model::SlideKind;
use tabview::model::TabError;
use tabview::model::Track;
use tabview::model::Voice;
use tabview::model::string_slot;
use tabview::resolve::resolve_window;
use tabview::viewport::Cursor;
use tabview::viewport::Mode;
use tabview::viewport::ViewportState;

fn note(string: i8, value: i16, kind: NoteKind) -> Note {
    Note {
        string,
        value,
        kind,
        effect: NoteEffect { hammer: false, ghost_note: false, harmonic: false, slides: Vec::new() },
    }
}

fn track_of(measures: Vec<Vec<Vec<Note>>>) -> Track {
    Track {
        strings: vec![(1, 64); 6],
        measures: measures
            .into_iter()
            .map(|beats| Measure {
                voices: vec![Voice {
                    beats: beats.into_iter().map(|notes| Beat { notes }).collect(),
                }],
            })
            .collect(),
    }
}

fn viewport(shift: usize, visible: usize) -> ViewportState {
    ViewportState {
        shift,
        visible_count: visible,
        cursor: Cursor { measure_index: shift, beat_index: 0, string_index: 0 },
        mode: Mode::Navigate,
    }
}

#[test]
fn out_of_range_string_is_reported() {
    assert_eq!(string_slot(&note(0, 3, NoteKind::Normal), 6), Err(TabError::InvalidStringIndex));
    assert_eq!(string_slot(&note(7, 3, NoteKind::Normal), 6), Err(TabError::InvalidStringIndex));
    assert_eq!(string_slot(&note(-2, 3, NoteKind::Normal), 6), Err(TabError::InvalidStringIndex));
    assert_eq!(string_slot(&note(1, 3, NoteKind::Normal), 6), Ok(0));
    assert_eq!(string_slot(&note(6, 3, NoteKind::Normal), 6), Ok(5));
}

#[test]
fn out_of_range_note_is_skipped_and_the_rest_resolved() {
    let t = track_of(vec![vec![vec![
        note(9, 4, NoteKind::Normal),
        note(2, 5, NoteKind::Normal),
    ]]]);
    let grid = resolve_window(&t, &viewport(0, 4));
    assert_eq!(grid.len(), 1);
    for s in 0..6 {
        if s == 1 {
            assert_eq!(grid[0].strings[s][0].value, 5);
        } else {
            assert_eq!(grid[0].strings[s][0].value, -1);
        }
    }
}

#[test]
fn direct_fields_are_copied_onto_the_cell() {
    let mut n = note(4, 9, NoteKind::Normal);
    n.effect.ghost_note = true;
    n.effect.harmonic = true;
    n.effect.slides = vec![SlideKind::IntoFromAbove];
    let t = track_of(vec![vec![vec![n]]]);
    let grid = resolve_window(&t, &viewport(0, 1));
    let c = &grid[0].strings[3][0];
    assert_eq!(c.value, 9);
    assert_eq!(c.note_type, NoteKind::Normal);
    assert!(c.ghost_note);
    assert!(c.harmonic);
    assert_eq!(c.slides, vec![SlideKind::IntoFromAbove]);
    assert!(!c.tie_left && !c.tie_right && !c.hammer_left && !c.hammer_right);
}

#[test]
fn unknown_code_survives_resolution() {
    let t = track_of(vec![vec![vec![note(1, 2, NoteKind::Unknown(42))]]]);
    let grid = resolve_window(&t, &viewport(0, 1));
    assert_eq!(grid[0].strings[0][0].note_type, NoteKind::Unknown(42));
}

#[test]
fn tie_marks_its_own_cell_and_the_previous_beat() {
    // Beat A has no note on string 3; beat B (the next beat) carries a tie
    // on string 3.
    let t = track_of(vec![vec![vec![], vec![note(3, -1, NoteKind::Tie)]]]);
    let grid = resolve_window(&t, &viewport(0, 2));
    assert!(grid[0].strings[2][0].tie_right);
    assert!(grid[0].strings[2][1].tie_left);
    assert!(!grid[0].strings[2][0].tie_left);
    assert!(!grid[0].strings[2][1].tie_right);
    // No other string is touched.
    assert!(!grid[0].strings[1][0].tie_right);
    assert!(!grid[0].strings[3][0].tie_right);
}

#[test]
fn tie_reaches_back_across_a_measure_boundary() {
    let t = track_of(vec![
        vec![vec![], vec![note(2, 3, NoteKind::Normal)]],
        vec![vec![note(2, -1, NoteKind::Tie)]],
    ]);
    let grid = resolve_window(&t, &viewport(0, 2));
    assert!(grid[0].strings[1][1].tie_right);
    assert!(grid[1].strings[1][0].tie_left);
}

#[test]
fn tie_at_the_window_start_is_dropped() {
    let t = track_of(vec![vec![vec![note(1, -1, NoteKind::Tie)]]]);
    let grid = resolve_window(&t, &viewport(0, 3));
    assert!(grid[0].strings[0][0].tie_left);
    // There is no predecessor anywhere in the window to carry tie_right.
    for s in 0..6 {
        assert!(!grid[0].strings[s][0].tie_right);
    }
}

#[test]
fn hammer_marks_its_own_cell_and_the_next_beat() {
    let mut n = note(5, 2, NoteKind::Normal);
    n.effect.hammer = true;
    let t = track_of(vec![vec![vec![n], vec![note(5, 4, NoteKind::Normal)]]]);
    let grid = resolve_window(&t, &viewport(0, 2));
    assert!(grid[0].strings[4][0].hammer_right);
    assert!(grid[0].strings[4][1].hammer_left);
    assert!(!grid[0].strings[4][1].hammer_right);
}

#[test]
fn hammer_reaches_forward_across_a_measure_boundary() {
    let mut n = note(1, 2, NoteKind::Normal);
    n.effect.hammer = true;
    let t = track_of(vec![vec![vec![n]], vec![vec![note(1, 4, NoteKind::Normal)]]]);
    let grid = resolve_window(&t, &viewport(0, 2));
    assert!(grid[0].strings[0][0].hammer_right);
    assert!(grid[1].strings[0][0].hammer_left);
}

#[test]
fn hammer_at_the_window_end_is_dropped() {
    let mut n = note(1, 2, NoteKind::Normal);
    n.effect.hammer = true;
    let t = track_of(vec![vec![vec![note(1, 0, NoteKind::Normal)], vec![n]]]);
    let grid = resolve_window(&t, &viewport(0, 1));
    assert!(grid[0].strings[0][1].hammer_right);
    assert!(!grid[0].strings[0][0].hammer_left);
    assert!(!grid[0].strings[0][1].hammer_left);
}

#[test]
fn of_two_notes_on_one_string_the_last_wins() {
    let t = track_of(vec![vec![vec![
        note(1, 3, NoteKind::Normal),
        note(1, 8, NoteKind::Normal),
    ]]]);
    let grid = resolve_window(&t, &viewport(0, 1));
    assert_eq!(grid[0].strings[0][0].value, 8);
}

#[test]
fn navigate_mode_selects_the_whole_beat_column() {
    let t = track_of(vec![vec![vec![note(2, 3, NoteKind::Normal)], vec![]]]);
    let mut vs = viewport(0, 2);
    vs.cursor.beat_index = 0;
    let grid = resolve_window(&t, &vs);
    for s in 0..6 {
        assert!(grid[0].strings[s][0].is_selected);
        assert!(!grid[0].strings[s][1].is_selected);
    }
}

#[test]
fn edit_mode_selects_one_cell() {
    let t = track_of(vec![vec![vec![note(2, 3, NoteKind::Normal)], vec![]]]);
    let mut vs = viewport(0, 2);
    vs.mode = Mode::Edit;
    vs.cursor.string_index = 1;
    let grid = resolve_window(&t, &vs);
    for s in 0..6 {
        assert_eq!(grid[0].strings[s][0].is_selected, s == 1);
    }
}

#[test]
fn window_is_cut_off_at_the_score_end() {
    let t = track_of(vec![vec![vec![]], vec![vec![]]]);
    let grid = resolve_window(&t, &viewport(0, 10));
    assert_eq!(grid.len(), 2);
}

#[test]
fn each_measure_has_one_cell_per_string_and_beat() {
    let t = track_of(vec![vec![vec![], vec![], vec![]], vec![vec![]]]);
    let grid = resolve_window(&t, &viewport(0, 2));
    assert_eq!(grid[0].strings.len(), 6);
    for s in 0..6 {
        assert_eq!(grid[0].strings[s].len(), 3);
        assert_eq!(grid[1].strings[s].len(), 1);
    }
}

#[test]
fn measure_rows_carry_branch_glyphs() {
    let mut t = track_of(vec![vec![vec![note(1, 5, NoteKind::Normal)]]]);
    t.strings = vec![(1, 64); 3];
    let grid = resolve_window(&t, &viewport(0, 1));
    let text = grid[0].gen_text();
    let rows: Vec<&str> = text.split('\n').collect();
    assert_eq!(rows.len(), 3);
    assert_eq!(rows[0], "╭───5──");
    assert_eq!(rows[1], "├──────");
    assert_eq!(rows[2], "╰──────");
}
