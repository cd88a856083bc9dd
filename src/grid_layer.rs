use vstd::prelude::*;

use crate::term_canvas::TermCanvas;

verus! {

/// A positioned grid of characters; the same thing as a [`TermCanvas`].
pub type GridLayer = TermCanvas;

} // verus!
