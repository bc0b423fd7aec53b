//! The placeholder pixmap of the Pathfinder backend, which draws no images.
use vstd::prelude::*;

verus! {

/// Pathfinder keeps no pixel data.
#[derive(Debug, Clone, Copy, PartialEq, Eq)]
pub struct Pixmap;

impl Pixmap {
    /// Accepts the pixels of an image and discards them.
    pub fn from_parts_with_opacity<T>(
        pixels: Vec<T>,
        width: u16,
        height: u16,
        may_have_opacities: bool,
    ) -> (p: Pixmap)
        ensures
            p == Pixmap,
    {
        Pixmap
    }
}

} // verus!
