//! What the terminal shows: the display modes, the graph layout and the
//! text of the metric panels.

pub mod graph;
pub mod panel;

use vstd::prelude::*;

verus! {

/// How the session presents its samples.
#[derive(PartialEq, Eq, Structural, Clone, Copy, Debug)]
pub enum DisplayMode {
    /// A compact panel of current and maximum values.
    Minimal,
    /// A full-screen graph of the recent history.
    Graph,
    /// No display, logging only.
    Headless,
}

} // verus!
