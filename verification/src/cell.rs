//! The glyph compositor: one resolved render cell becomes a fixed-width
//! sequence of six logical slots.
//!
//! Composition proceeds in order: a sustain-dash base, the note kind's
//! numeral or letter, ghost-note parentheses, slide glyphs, the harmonic
//! diamond, and finally tie/hammer bridge marks, which are appended onto
//! boundary slots without removing anything already there.  Earlier slot
//! content is never erased by a later rule; a rule that fills a slot does so
//! only while the slot still holds the plain sustain dash.
//!
//! Selection is a presentation attribute: the composed text is plain, and
//! [`NoteText::numeral_width`] tells an emitter how many slots, starting at
//! the numeral slot, to restyle for a selected cell.

use vstd::prelude::*;

use crate::model::NoteKind;
use crate::model::SlideKind;

verus! {

/// The mathematical content of one render cell.
#[verifier::ext_equal]
pub struct CellView {
    pub note_type: NoteKind,
    pub value: int,
    pub is_selected: bool,
    pub tie_left: bool,
    pub tie_right: bool,
    pub hammer_left: bool,
    pub hammer_right: bool,
    pub harmonic: bool,
    pub ghost_note: bool,
    pub slides: Seq<SlideKind>,
}

/// One render cell: the resolved decoration state of one string at one beat.
/// A `value` of `-1` means the position holds no note (plain sustain).
pub struct NoteText {
    pub note_type: NoteKind,
    pub value: i16,
    pub is_selected: bool,
    pub tie_left: bool,
    pub tie_right: bool,
    pub hammer_left: bool,
    pub hammer_right: bool,
    pub harmonic: bool,
    pub ghost_note: bool,
    pub slides: Vec<SlideKind>,
}

impl View for NoteText {
    type V = CellView;

    open spec fn view(&self) -> CellView {
        CellView {
            note_type: self.note_type,
            value: self.value as int,
            is_selected: self.is_selected,
            tie_left: self.tie_left,
            tie_right: self.tie_right,
            hammer_left: self.hammer_left,
            hammer_right: self.hammer_right,
            harmonic: self.harmonic,
            ghost_note: self.ghost_note,
            slides: self.slides@,
        }
    }
}

/// The cell state of a position that holds no note.
pub open spec fn spec_empty_cell() -> CellView {
    CellView {
        note_type: NoteKind::Normal,
        value: -1,
        is_selected: false,
        tie_left: false,
        tie_right: false,
        hammer_left: false,
        hammer_right: false,
        harmonic: false,
        ghost_note: false,
        slides: Seq::empty(),
    }
}

/// The sustain dash every slot starts from.
pub open spec fn sustain() -> Seq<char> {
    seq!['─']
}

/// Six slots of sustain dashes: the base of every composition.
pub open spec fn base_parts() -> Seq<Seq<char>> {
    seq![sustain(), sustain(), sustain(), sustain(), sustain(), sustain()]
}

/// A convenience constructor for a six-slot state.
pub open spec fn six(
    a: Seq<char>,
    b: Seq<char>,
    c: Seq<char>,
    d: Seq<char>,
    e: Seq<char>,
    f: Seq<char>,
) -> Seq<Seq<char>> {
    seq![a, b, c, d, e, f]
}

/// The decimal digit character for `d` in `0 ..= 9`.
pub open spec fn digit_char(d: int) -> char {
    if d == 0 {
        '0'
    } else if d == 1 {
        '1'
    } else if d == 2 {
        '2'
    } else if d == 3 {
        '3'
    } else if d == 4 {
        '4'
    } else if d == 5 {
        '5'
    } else if d == 6 {
        '6'
    } else if d == 7 {
        '7'
    } else if d == 8 {
        '8'
    } else {
        '9'
    }
}

/// The decimal digits of a non-negative number, most significant first.
pub open spec fn dec_digits(n: int) -> Seq<char>
    decreases n,
{
    if n < 10 {
        seq![digit_char(n)]
    } else {
        dec_digits(n / 10).push(digit_char(n % 10))
    }
}

/// The decimal rendering of an integer, with a leading minus sign when it
/// is negative.
pub open spec fn int_digits(v: int) -> Seq<char> {
    if v < 0 {
        seq!['-'] + dec_digits(-v)
    } else {
        dec_digits(v)
    }
}

/// A cell whose numeral takes two slots: a normal note of value ten or more.
pub open spec fn spec_two_wide(c: CellView) -> bool {
    c.note_type is Normal && c.value >= 10
}

/// How many slots, starting at the numeral slot, the numeral or letter of
/// this cell occupies; this is the span an emitter restyles when the cell
/// is selected.
pub open spec fn spec_numeral_width(c: CellView) -> int {
    if spec_two_wide(c) {
        2
    } else {
        1
    }
}

/// Step two of composition: the note kind's contribution to the centre
/// slots.  A rest shows `P`, a dead note `X`, an unrecognised kind a `u`
/// placeholder; a normal note shows its value, one digit in the numeral
/// slot or two digits across the numeral slot and its right neighbour.  A
/// tie contributes nothing here, and an empty position keeps its dashes.
pub open spec fn parts_kind(c: CellView) -> Seq<Seq<char>> {
    let p = base_parts();
    match c.note_type {
        NoteKind::Tie => p,
        NoteKind::Rest => p.update(3, seq!['P']),
        NoteKind::Dead => p.update(3, seq!['X']),
        NoteKind::Unknown(_) => p.update(3, seq!['u']),
        NoteKind::Normal => if c.value == -1 {
            p
        } else if c.value >= 10 {
            p.update(3, int_digits(c.value / 10)).update(4, int_digits(c.value % 10))
        } else {
            p.update(3, int_digits(c.value))
        },
    }
}

/// Step three: a ghost note wraps its numeral in parentheses, in the slots
/// immediately flanking it.
pub open spec fn parts_ghost(c: CellView, p: Seq<Seq<char>>) -> Seq<Seq<char>> {
    if c.ghost_note && c.value != -1 {
        let close: int = if spec_two_wide(c) {
            5
        } else {
            4
        };
        p.update(2, seq!['(']).update(close, seq![')'])
    } else {
        p
    }
}

/// Whether the outgoing-slide slot is still free for slide glyphs: a
/// two-slot ghost numeral has already closed its parenthesis there.
pub open spec fn spec_out_open(c: CellView) -> bool {
    !(c.ghost_note && c.value != -1 && spec_two_wide(c))
}

/// The slot and glyph a slide kind contributes: incoming slides a diagonal
/// into the first slot, outgoing slides one into the last.
pub open spec fn slide_target(s: SlideKind) -> Option<(int, char)> {
    match s {
        SlideKind::NoSlide => None,
        SlideKind::IntoFromAbove => Some((0int, '╲')),
        SlideKind::IntoFromBelow => Some((0int, '╱')),
        SlideKind::ShiftSlideTo => Some((5int, '╱')),
        SlideKind::LegatoSlideTo => Some((5int, '╱')),
        SlideKind::OutUpwards => Some((5int, '╱')),
        SlideKind::OutDownwards => Some((5int, '╲')),
    }
}

/// Step four: the slides in order; of several slides aimed at the same
/// slot, the last one processed wins.  The outgoing slot is skipped when
/// it is no longer free.
pub open spec fn parts_slides(slides: Seq<SlideKind>, out_open: bool, p: Seq<Seq<char>>) -> Seq<
    Seq<char>,
>
    decreases slides.len(),
{
    if slides.len() == 0 {
        p
    } else {
        let q = parts_slides(slides.drop_last(), out_open, p);
        match slide_target(slides.last()) {
            None => q,
            Some(t) => if t.0 == 5 && !out_open {
                q
            } else {
                q.update(t.0, seq![t.1])
            },
        }
    }
}

/// Step five: a harmonic that is not a ghost note gets a diamond.
pub open spec fn parts_harmonic(c: CellView, p: Seq<Seq<char>>) -> Seq<Seq<char>> {
    if c.harmonic && !c.ghost_note {
        p.update(1, seq!['◇'])
    } else {
        p
    }
}

/// Appends glyphs onto one slot, keeping what the slot already holds.
pub open spec fn append_at(p: Seq<Seq<char>>, i: int, s: Seq<char>) -> Seq<Seq<char>> {
    p.update(i, p[i] + s)
}

/// A leftward tie bridges over the two leading slots.
pub open spec fn bridge_tie_left(c: CellView, p: Seq<Seq<char>>) -> Seq<Seq<char>> {
    if c.tie_left {
        append_at(append_at(p, 0, seq!['\u{fe2d}']), 1, seq!['\u{fe28}', '\u{fe2c}'])
    } else {
        p
    }
}

/// A rightward tie bridges over the four trailing slots.
pub open spec fn bridge_tie_right(c: CellView, p: Seq<Seq<char>>) -> Seq<Seq<char>> {
    if c.tie_right {
        append_at(
            append_at(append_at(append_at(p, 2, seq!['\u{fe27}', '\u{fe2b}']), 3, seq!['\u{fe2d}']), 4, seq!['\u{fe2d}']),
            5,
            seq!['\u{fe2d}'],
        )
    } else {
        p
    }
}

/// A leftward hammer mark bridges over the two leading slots.
pub open spec fn bridge_hammer_left(c: CellView, p: Seq<Seq<char>>) -> Seq<Seq<char>> {
    if c.hammer_left {
        append_at(append_at(p, 0, seq!['\u{fe26}']), 1, seq!['\u{fe21}', '\u{fe25}'])
    } else {
        p
    }
}

/// A rightward hammer mark bridges over the four trailing slots.
pub open spec fn bridge_hammer_right(c: CellView, p: Seq<Seq<char>>) -> Seq<Seq<char>> {
    if c.hammer_right {
        append_at(
            append_at(append_at(append_at(p, 2, seq!['\u{fe20}', '\u{fe24}']), 3, seq!['\u{fe26}']), 4, seq!['\u{fe26}']),
            5,
            seq!['\u{fe26}'],
        )
    } else {
        p
    }
}

/// Step six: the tie and hammer bridges, appended in order.
pub open spec fn parts_bridges(c: CellView, p: Seq<Seq<char>>) -> Seq<Seq<char>> {
    bridge_hammer_right(c, bridge_hammer_left(c, bridge_tie_right(c, bridge_tie_left(c, p))))
}

/// The six composed slots of a cell, in order.
pub open spec fn spec_parts(c: CellView) -> Seq<Seq<char>> {
    parts_bridges(
        c,
        parts_harmonic(c, parts_slides(c.slides, spec_out_open(c), parts_ghost(c, parts_kind(c)))),
    )
}

/// The composed text of a cell: its six slots concatenated.
pub open spec fn spec_cell_text(c: CellView) -> Seq<char> {
    let p = spec_parts(c);
    p[0] + p[1] + p[2] + p[3] + p[4] + p[5]
}

proof fn lemma_parts_slides_len(slides: Seq<SlideKind>, out_open: bool, p: Seq<Seq<char>>)
    requires
        p.len() == 6,
    ensures
        parts_slides(slides, out_open, p).len() == 6,
    decreases slides.len(),
{
    if slides.len() > 0 {
        lemma_parts_slides_len(slides.drop_last(), out_open, p);
    }
}

/// Every composed cell has exactly six logical slots, whatever combination
/// of kind and decorations it carries.
pub proof fn lemma_six_slots(c: CellView)
    ensures
        spec_parts(c).len() == 6,
{
    lemma_parts_slides_len(c.slides, spec_out_open(c), parts_ghost(c, parts_kind(c)));
}

/// The digit character for `d` in `0 ..= 9`.
fn digit_str(d: u32) -> (r: &'static str)
    requires
        d < 10,
    ensures
        r@ == seq![digit_char(d as int)],
{
    if d == 0 {
        proof {
            reveal_strlit("0");
            assert("0"@ =~= seq!['0']);
        }
        "0"
    } else if d == 1 {
        proof {
            reveal_strlit("1");
            assert("1"@ =~= seq!['1']);
        }
        "1"
    } else if d == 2 {
        proof {
            reveal_strlit("2");
            assert("2"@ =~= seq!['2']);
        }
        "2"
    } else if d == 3 {
        proof {
            reveal_strlit("3");
            assert("3"@ =~= seq!['3']);
        }
        "3"
    } else if d == 4 {
        proof {
            reveal_strlit("4");
            assert("4"@ =~= seq!['4']);
        }
        "4"
    } else if d == 5 {
        proof {
            reveal_strlit("5");
            assert("5"@ =~= seq!['5']);
        }
        "5"
    } else if d == 6 {
        proof {
            reveal_strlit("6");
            assert("6"@ =~= seq!['6']);
        }
        "6"
    } else if d == 7 {
        proof {
            reveal_strlit("7");
            assert("7"@ =~= seq!['7']);
        }
        "7"
    } else if d == 8 {
        proof {
            reveal_strlit("8");
            assert("8"@ =~= seq!['8']);
        }
        "8"
    } else {
        proof {
            reveal_strlit("9");
            assert("9"@ =~= seq!['9']);
        }
        "9"
    }
}

/// The decimal digits of `n`, most significant first.
fn dec_str(n: u32) -> (r: String)
    ensures
        r@ == dec_digits(n as int),
    decreases n,
{
    if n < 10 {
        String::from_str(digit_str(n))
    } else {
        let mut s = dec_str(n / 10);
        let d = digit_str(n % 10);
        s.append(d);
        proof {
            assert(dec_digits(n as int / 10).push(digit_char(n as int % 10)) =~= dec_digits(
                n as int / 10,
            ) + seq![digit_char(n as int % 10)]);
        }
        s
    }
}

/// The decimal rendering of a fret value, matching `int_digits`.
fn int_str(v: i16) -> (r: String)
    ensures
        r@ == int_digits(v as int),
{
    if v < 0 {
        let mut s = String::from_str("-");
        proof {
            reveal_strlit("-");
            assert("-"@ =~= seq!['-']);
        }
        let d = dec_str((-(v as i32)) as u32);
        s.append(d.as_str());
        s
    } else {
        dec_str(v as u32)
    }
}

impl NoteText {
    /// A fresh cell in the default empty state: no note, no decorations.
    pub fn new() -> (r: Self)
        ensures
            r@ == spec_empty_cell(),
    {
        let r = NoteText {
            note_type: NoteKind::Normal,
            value: -1,
            is_selected: false,
            tie_left: false,
            tie_right: false,
            hammer_left: false,
            hammer_right: false,
            harmonic: false,
            ghost_note: false,
            slides: Vec::new(),
        };
        proof {
            assert(r@.slides =~= spec_empty_cell().slides);
        }
        r
    }

    /// How many slots the numeral occupies, starting at the numeral slot;
    /// the span an emitter restyles when this cell is selected.
    pub fn numeral_width(&self) -> (w: usize)
        ensures
            w as int == spec_numeral_width(self@),
    {
        match self.note_type {
            NoteKind::Normal => if self.value >= 10 {
                2
            } else {
                1
            },
            _ => 1,
        }
    }

    /// Composes the six slots of this cell, in order.
    #[verifier::spinoff_prover]
    #[verifier::rlimit(60)]
    pub fn gen_parts(&self) -> (r: Vec<String>)
        ensures
            r@.len() == 6,
            forall|i: int| 0 <= i < 6 ==> r@[i]@ == spec_parts(self@)[i],
    {
        let ghost c = self@;
        let mut p0 = String::from_str("─");
        let mut p1 = String::from_str("─");
        let mut p2 = String::from_str("─");
        let mut p3 = String::from_str("─");
        let mut p4 = String::from_str("─");
        let mut p5 = String::from_str("─");
        proof {
            reveal_strlit("─");
            assert("─"@ =~= sustain());
            assert(six(p0@, p1@, p2@, p3@, p4@, p5@) =~= base_parts());
        }
        let two_wide = match self.note_type {
            NoteKind::Normal => self.value >= 10,
            _ => false,
        };
        match self.note_type {
            NoteKind::Tie => {},
            NoteKind::Rest => {
                p3 = String::from_str("P");
                proof {
                    reveal_strlit("P");
                    assert("P"@ =~= seq!['P']);
                }
            },
            NoteKind::Dead => {
                p3 = String::from_str("X");
                proof {
                    reveal_strlit("X");
                    assert("X"@ =~= seq!['X']);
                }
            },
            NoteKind::Unknown(_) => {
                p3 = String::from_str("u");
                proof {
                    reveal_strlit("u");
                    assert("u"@ =~= seq!['u']);
                }
            },
            NoteKind::Normal => {
                if self.value != -1 {
                    if self.value >= 10 {
                        let hi = (self.value as u16) / 10;
                        let lo = (self.value as u16) % 10;
                        p3 = int_str(hi as i16);
                        p4 = int_str(lo as i16);
                        proof {
                            assert(hi as int == c.value / 10);
                            assert(lo as int == c.value % 10);
                        }
                    } else {
                        p3 = int_str(self.value);
                    }
                }
            },
        }
        proof {
            assert(six(p0@, p1@, p2@, p3@, p4@, p5@) =~= parts_kind(c));
        }
        if self.ghost_note && self.value != -1 {
            p2 = String::from_str("(");
            proof {
                reveal_strlit("(");
                assert("("@ =~= seq!['(']);
            }
            if two_wide {
                p5 = String::from_str(")");
            } else {
                p4 = String::from_str(")");
            }
            proof {
                reveal_strlit(")");
                assert(")"@ =~= seq![')']);
            }
        }
        let ghost pg = parts_ghost(c, parts_kind(c));
        proof {
            assert(two_wide == spec_two_wide(c));
            assert(six(p0@, p1@, p2@, p3@, p4@, p5@) =~= pg);
        }
        let out_open = !(self.ghost_note && self.value != -1 && two_wide);
        let n = self.slides.len();
        for i in 0..n
            invariant
                n == self.slides@.len(),
                out_open == spec_out_open(c),
                c == self@,
                six(p0@, p1@, p2@, p3@, p4@, p5@) =~= parts_slides(
                    c.slides.take(i as int),
                    spec_out_open(c),
                    pg,
                ),
        {
            let s = self.slides[i];
            proof {
                assert(c.slides.take(i as int + 1).drop_last() =~= c.slides.take(i as int));
                assert(c.slides.take(i as int + 1).last() == c.slides[i as int]);
            }
            match s {
                SlideKind::NoSlide => {},
                SlideKind::IntoFromAbove => {
                    p0 = String::from_str("╲");
                    proof {
                        reveal_strlit("╲");
                        assert("╲"@ =~= seq!['╲']);
                    }
                },
                SlideKind::IntoFromBelow => {
                    p0 = String::from_str("╱");
                    proof {
                        reveal_strlit("╱");
                        assert("╱"@ =~= seq!['╱']);
                    }
                },
                SlideKind::ShiftSlideTo | SlideKind::LegatoSlideTo | SlideKind::OutUpwards => {
                    if out_open {
                        p5 = String::from_str("╱");
                        proof {
                            reveal_strlit("╱");
                            assert("╱"@ =~= seq!['╱']);
                        }
                    }
                },
                SlideKind::OutDownwards => {
                    if out_open {
                        p5 = String::from_str("╲");
                        proof {
                            reveal_strlit("╲");
                            assert("╲"@ =~= seq!['╲']);
                        }
                    }
                },
            }
            proof {
                assert(six(p0@, p1@, p2@, p3@, p4@, p5@) =~= parts_slides(
                    c.slides.take(i as int + 1),
                    spec_out_open(c),
                    pg,
                ));
            }
        }
        let ghost ps = parts_slides(c.slides, spec_out_open(c), pg);
        proof {
            assert(c.slides.take(n as int) =~= c.slides);
            assert(six(p0@, p1@, p2@, p3@, p4@, p5@) =~= ps);
        }
        if self.harmonic && !self.ghost_note {
            p1 = String::from_str("◇");
            proof {
                reveal_strlit("◇");
                assert("◇"@ =~= seq!['◇']);
            }
        }
        let ghost ph = parts_harmonic(c, ps);
        proof {
            assert(six(p0@, p1@, p2@, p3@, p4@, p5@) =~= ph);
        }
        if self.tie_left {
            proof {
                reveal_strlit("\u{fe2d}");
                reveal_strlit("\u{fe28}\u{fe2c}");
                assert("\u{fe2d}"@ =~= seq!['\u{fe2d}']);
                assert("\u{fe28}\u{fe2c}"@ =~= seq!['\u{fe28}', '\u{fe2c}']);
            }
            p0.append("\u{fe2d}");
            p1.append("\u{fe28}\u{fe2c}");
        }
        let ghost btl = bridge_tie_left(c, ph);
        proof {
            assert(six(p0@, p1@, p2@, p3@, p4@, p5@) =~= btl);
        }
        if self.tie_right {
            proof {
                reveal_strlit("\u{fe27}\u{fe2b}");
                reveal_strlit("\u{fe2d}");
                assert("\u{fe27}\u{fe2b}"@ =~= seq!['\u{fe27}', '\u{fe2b}']);
                assert("\u{fe2d}"@ =~= seq!['\u{fe2d}']);
            }
            p2.append("\u{fe27}\u{fe2b}");
            p3.append("\u{fe2d}");
            p4.append("\u{fe2d}");
            p5.append("\u{fe2d}");
        }
        let ghost btr = bridge_tie_right(c, btl);
        proof {
            assert(six(p0@, p1@, p2@, p3@, p4@, p5@) =~= btr);
        }
        if self.hammer_left {
            proof {
                reveal_strlit("\u{fe26}");
                reveal_strlit("\u{fe21}\u{fe25}");
                assert("\u{fe26}"@ =~= seq!['\u{fe26}']);
                assert("\u{fe21}\u{fe25}"@ =~= seq!['\u{fe21}', '\u{fe25}']);
            }
            p0.append("\u{fe26}");
            p1.append("\u{fe21}\u{fe25}");
        }
        let ghost bhl = bridge_hammer_left(c, btr);
        proof {
            assert(six(p0@, p1@, p2@, p3@, p4@, p5@) =~= bhl);
        }
        if self.hammer_right {
            proof {
                reveal_strlit("\u{fe20}\u{fe24}");
                reveal_strlit("\u{fe26}");
                assert("\u{fe20}\u{fe24}"@ =~= seq!['\u{fe20}', '\u{fe24}']);
                assert("\u{fe26}"@ =~= seq!['\u{fe26}']);
            }
            p2.append("\u{fe20}\u{fe24}");
            p3.append("\u{fe26}");
            p4.append("\u{fe26}");
            p5.append("\u{fe26}");
        }
        proof {
            assert(six(p0@, p1@, p2@, p3@, p4@, p5@) =~= spec_parts(c));
        }
        let mut r: Vec<String> = Vec::new();
        r.push(p0);
        r.push(p1);
        r.push(p2);
        r.push(p3);
        r.push(p4);
        r.push(p5);
        r
    }

    /// The composed text of this cell: its six slots concatenated, free of
    /// any styling.
    pub fn gen_text(&self) -> (r: String)
        ensures
            r@ == spec_cell_text(self@),
    {
        let parts = self.gen_parts();
        let mut out = String::new();
        out.append(parts[0].as_str());
        out.append(parts[1].as_str());
        out.append(parts[2].as_str());
        out.append(parts[3].as_str());
        out.append(parts[4].as_str());
        out.append(parts[5].as_str());
        out
    }
}

} // verus!
