//! Selection of the prepared level texture for a classified reading.
//!
//! The rendering surface prepares one texture per band and one label
//! texture, and keeps them in a table it owns; here they are named by
//! their table indices, together with the layout rectangles computed for
//! them. Picking the texture for a band is the part that is logic.

use vstd::prelude::*;
use crate::level::CoffeeLevel;

verus! {

/// A layout rectangle on the display, in pixels.
#[derive(Clone, Copy, PartialEq, Eq, Structural, Debug)]
pub struct RectPx {
    pub x: i32,
    pub y: i32,
    pub width: u32,
    pub height: u32,
}

/// The prepared textures (as indices into the renderer's texture table)
/// and where the label and the level line are drawn.
#[derive(Clone, Copy, PartialEq, Eq, Structural, Debug)]
pub struct LevelTextures {
    pub high: usize,
    pub normal: usize,
    pub low: usize,
    pub texture_label: usize,
    pub target_level: RectPx,
    pub target_label: RectPx,
}

/// The texture that shows a band.
pub fn select_tex_for_level(level: CoffeeLevel, tex_levels: &LevelTextures) -> (tex: usize)
    ensures
        tex == (match level {
            CoffeeLevel::HIGH => tex_levels.high,
            CoffeeLevel::NORMAL => tex_levels.normal,
            CoffeeLevel::LOW => tex_levels.low,
        }),
{
    match level {
        CoffeeLevel::HIGH => tex_levels.high,
        CoffeeLevel::NORMAL => tex_levels.normal,
        CoffeeLevel::LOW => tex_levels.low,
    }
}

} // verus!
