//! What the widget asks a renderer to paint.

use crate::entry::Highlight;
use vstd::prelude::*;

verus! {

/// One thing to paint.
#[derive(Clone, Copy, Debug, PartialEq, Eq, Structural)]
pub enum DrawCommand {
    /// The border shape: a rectangle of the given extent at `(left, top)`.
    Border { left: u32, top: u32, width: i64, height: i64 },
    /// The label of the entry at `index`, at `(x, y)`, highlighted as given.
    Row { index: usize, x: i64, y: i64, highlight: Highlight },
}

} // verus!
