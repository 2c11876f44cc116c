//! The render driver: one frame of output text.
//!
//! A frame resolves the visible window of measures, lays each measure out
//! as a text block, and joins the blocks with line breaks.  The result is
//! plain text, a pure function of the track and the viewport state; an
//! emitter writes it to the terminal and applies selection styling there,
//! so that composition stays independent of any styling capability.

use vstd::prelude::*;

use crate::cell::CellView;
use crate::model::Track;
use crate::model::spec_beats_len;
use crate::model::track_wf;
use crate::resolve::resolve_window;
use crate::resolve::spec_cell;
use crate::resolve::spec_measure_text;
use crate::resolve::spec_window_len;
use crate::viewport::ViewportState;

verus! {

/// The resolved cell grid of window measure `m`: one row of cells per
/// string, one cell per beat.
pub open spec fn spec_grid(t: &Track, vs: ViewportState, m: int) -> Seq<Seq<CellView>> {
    Seq::new(
        t.strings@.len(),
        |s: int|
            Seq::new(
                spec_beats_len(t, vs.shift as int + m) as nat,
                |b: int| spec_cell(t, vs, m, b, s),
            ),
    )
}

/// The text of the first `k` visible measure blocks, joined by line
/// breaks.
pub open spec fn spec_blocks_upto(t: &Track, vs: ViewportState, k: int) -> Seq<char>
    decreases k,
{
    if k <= 0 {
        Seq::empty()
    } else if k == 1 {
        spec_measure_text(spec_grid(t, vs, 0))
    } else {
        spec_blocks_upto(t, vs, k - 1) + seq!['\n'] + spec_measure_text(spec_grid(t, vs, k - 1))
    }
}

/// The full text of one frame: every visible measure's block.
pub open spec fn spec_render(t: &Track, vs: ViewportState) -> Seq<char> {
    spec_blocks_upto(t, vs, spec_window_len(t, vs))
}

/// Renders one frame: resolves the visible window and lays out each of
/// its measures, blocks joined by line breaks.  The result is exactly
/// `spec_render(t, vs)`: a function of the track and viewport state
/// alone, free of styling.
pub fn render_window(t: &Track, vs: &ViewportState) -> (r: String)
    requires
        track_wf(t),
        (vs.shift as int) < t.measures@.len(),
    ensures
        r@ == spec_render(t, *vs),
{
    let measures = resolve_window(t, vs);
    let n = measures.len();
    let mut out = String::new();
    for m in 0..n
        invariant
            track_wf(t),
            (vs.shift as int) < t.measures@.len(),
            n == measures@.len(),
            measures@.len() == spec_window_len(t, *vs),
            forall|mm: int|
                0 <= mm < measures@.len() ==> (#[trigger] measures@[mm]).strings@.len()
                    == t.strings@.len(),
            forall|mm: int, s: int|
                0 <= mm < measures@.len() && 0 <= s < t.strings@.len() ==> (
                #[trigger] measures@[mm].strings@[s])@.len() == spec_beats_len(
                    t,
                    vs.shift as int + mm,
                ),
            forall|mm: int, s: int, b: int|
                0 <= mm < measures@.len() && 0 <= s < t.strings@.len() && 0 <= b < spec_beats_len(
                    t,
                    vs.shift as int + mm,
                ) ==> (#[trigger] measures@[mm].strings@[s]@[b])@ == spec_cell(t, *vs, mm, b, s),
            out@ == spec_blocks_upto(t, *vs, m as int),
    {
        let block = measures[m].gen_text();
        proof {
            assert(measures@[m as int]@ =~~= spec_grid(t, *vs, m as int));
        }
        if m > 0 {
            out.append("\n");
            proof {
                reveal_strlit("\n");
                assert("\n"@ =~= seq!['\n']);
            }
        }
        out.append(block.as_str());
        proof {
            assert(out@ =~= spec_blocks_upto(t, *vs, m as int + 1));
        }
    }
    out
}

/// Rendering is idempotent: two runs of the pipeline over an unchanged
/// track and viewport state produce identical output text, character for
/// character.
pub proof fn lemma_render_idempotent(
    t: &Track,
    vs: ViewportState,
    r1: Seq<char>,
    r2: Seq<char>,
)
    requires
        r1 == spec_render(t, vs),
        r2 == spec_render(t, vs),
    ensures
        r1 == r2,
{
}

} // verus!
