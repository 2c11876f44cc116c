use tabview::cell::NoteText;
use tabview::model::NoteKind;
use tabview::model::SlideKind;

fn cell(kind: NoteKind, value: i16) -> NoteText {
    let mut c = NoteText::new();
    c.note_type = kind;
    c.value = value;
    c
}

fn parts_of(c: &NoteText) -> Vec<String> {
    c.gen_parts()
}

#[test]
fn empty_cell_is_all_dashes() {
    let c = NoteText::new();
    assert_eq!(c.gen_text(), "──────");
}

#[test]
fn six_slots_whatever_the_decorations() {
    let mut c = cell(NoteKind::Normal, 12);
    c.ghost_note = true;
    c.harmonic = true;
    c.tie_left = true;
    c.tie_right = true;
    c.hammer_left = true;
    c.hammer_right = true;
    c.slides = vec![SlideKind::IntoFromBelow, SlideKind::OutDownwards];
    assert_eq!(parts_of(&c).len(), 6);
    assert_eq!(parts_of(&NoteText::new()).len(), 6);
    assert_eq!(parts_of(&cell(NoteKind::Rest, 0)).len(), 6);
    assert_eq!(parts_of(&cell(NoteKind::Unknown(7), 0)).len(), 6);
}

#[test]
fn two_digit_note_fills_the_two_centre_slots() {
    let c = cell(NoteKind::Normal, 12);
    let p = parts_of(&c);
    assert_eq!(p, vec!["─", "─", "─", "1", "2", "─"]);
    assert_eq!(c.gen_text(), "───12─");
}

#[test]
fn one_digit_note_fills_the_numeral_slot() {
    let c = cell(NoteKind::Normal, 7);
    let p = parts_of(&c);
    assert_eq!(p, vec!["─", "─", "─", "7", "─", "─"]);
}

#[test]
fn zero_fret_is_rendered() {
    let c = cell(NoteKind::Normal, 0);
    assert_eq!(parts_of(&c)[3], "0");
}

#[test]
fn three_digit_value_splits_after_the_last_digit() {
    let c = cell(NoteKind::Normal, 123);
    let p = parts_of(&c);
    assert_eq!(p[3], "12");
    assert_eq!(p[4], "3");
}

#[test]
fn negative_value_keeps_its_sign() {
    let c = cell(NoteKind::Normal, -5);
    assert_eq!(parts_of(&c)[3], "-5");
}

#[test]
fn rest_and_dead_use_their_letters() {
    assert_eq!(parts_of(&cell(NoteKind::Rest, 0))[3], "P");
    assert_eq!(parts_of(&cell(NoteKind::Dead, 0))[3], "X");
}

#[test]
fn unknown_kind_composes_a_placeholder_and_keeps_its_code() {
    let c = cell(NoteKind::Unknown(42), 0);
    assert_eq!(parts_of(&c)[3], "u");
    assert_eq!(c.note_type, NoteKind::Unknown(42));
}

#[test]
fn tie_kind_contributes_no_glyph() {
    let c = cell(NoteKind::Tie, 5);
    assert_eq!(parts_of(&c)[3], "─");
}

#[test]
fn ghost_note_wraps_one_digit() {
    let mut c = cell(NoteKind::Normal, 7);
    c.ghost_note = true;
    assert_eq!(c.gen_text(), "──(7)─");
}

#[test]
fn ghost_note_wraps_two_digits_into_the_last_slot() {
    let mut c = cell(NoteKind::Normal, 12);
    c.ghost_note = true;
    assert_eq!(c.gen_text(), "──(12)");
}

#[test]
fn outgoing_slide_cannot_displace_a_ghost_parenthesis() {
    let mut c = cell(NoteKind::Normal, 12);
    c.ghost_note = true;
    c.slides = vec![SlideKind::OutDownwards];
    let p = parts_of(&c);
    assert_eq!(p[5], ")");
}

#[test]
fn incoming_and_outgoing_slides_take_the_edge_slots() {
    let mut c = cell(NoteKind::Normal, 3);
    c.slides = vec![SlideKind::IntoFromBelow, SlideKind::ShiftSlideTo];
    let p = parts_of(&c);
    assert_eq!(p[0], "╱");
    assert_eq!(p[5], "╱");
}

#[test]
fn of_two_slides_on_one_slot_the_last_wins() {
    let mut c = cell(NoteKind::Normal, 3);
    c.slides = vec![SlideKind::OutUpwards, SlideKind::OutDownwards];
    assert_eq!(parts_of(&c)[5], "╲");
    c.slides = vec![SlideKind::OutDownwards, SlideKind::OutUpwards];
    assert_eq!(parts_of(&c)[5], "╱");
}

#[test]
fn incoming_slide_directions() {
    let mut c = cell(NoteKind::Normal, 3);
    c.slides = vec![SlideKind::IntoFromAbove];
    assert_eq!(parts_of(&c)[0], "╲");
    c.slides = vec![SlideKind::NoSlide];
    assert_eq!(parts_of(&c)[0], "─");
}

#[test]
fn harmonic_gets_a_diamond_unless_ghost() {
    let mut c = cell(NoteKind::Normal, 5);
    c.harmonic = true;
    assert_eq!(parts_of(&c)[1], "◇");
    c.ghost_note = true;
    assert_eq!(parts_of(&c)[1], "─");
}

#[test]
fn tie_bridges_append_to_boundary_slots() {
    let mut c = cell(NoteKind::Tie, 5);
    c.tie_left = true;
    let p = parts_of(&c);
    assert_eq!(p[0], "─\u{fe2d}");
    assert_eq!(p[1], "─\u{fe28}\u{fe2c}");

    let mut d = cell(NoteKind::Normal, 5);
    d.tie_right = true;
    let q = parts_of(&d);
    assert_eq!(q[2], "─\u{fe27}\u{fe2b}");
    assert_eq!(q[3], "5\u{fe2d}");
    assert_eq!(q[4], "─\u{fe2d}");
    assert_eq!(q[5], "─\u{fe2d}");
}

#[test]
fn hammer_bridges_append_without_erasing() {
    let mut c = cell(NoteKind::Normal, 12);
    c.hammer_right = true;
    let p = parts_of(&c);
    assert_eq!(p[2], "─\u{fe20}\u{fe24}");
    assert_eq!(p[3], "1\u{fe26}");
    assert_eq!(p[4], "2\u{fe26}");
    assert_eq!(p[5], "─\u{fe26}");

    let mut d = NoteText::new();
    d.hammer_left = true;
    let q = parts_of(&d);
    assert_eq!(q[0], "─\u{fe26}");
    assert_eq!(q[1], "─\u{fe21}\u{fe25}");
}

#[test]
fn selection_never_reaches_the_composed_text() {
    let mut c = cell(NoteKind::Normal, 12);
    let plain = c.gen_text();
    c.is_selected = true;
    assert_eq!(c.gen_text(), plain);
    assert_eq!(c.numeral_width(), 2);
    assert_eq!(NoteText::new().numeral_width(), 1);
    assert_eq!(cell(NoteKind::Rest, 0).numeral_width(), 1);
}
