//! A cursor-navigable text tablature renderer for hierarchical score data.
//!
//! A score (tracks of measures, voices, beats and notes) is rendered into
//! fixed-width glyph cells, one per string and beat.  Decorations that span
//! beat and measure boundaries (ties, hammer-on/pull-off chains, slides) are
//! resolved onto the cells of a visible window of measures, and a selection
//! cursor is kept inside that window under all navigation inputs.
//!
//! Terminal input and output stay outside this crate: callers hand in a
//! [`model::Track`] and a [`viewport::ViewportState`] and receive plain text.

pub mod cell;
pub mod model;
pub mod render;
pub mod resolve;
pub mod viewport;
