//! A tile-map level editor's core: a two-layer grid of tiles, a scrolling
//! viewport, painting with occlusion between the layers, a spawn marker, the
//! RGBA frame of the screen, and the text files that a level is saved as.
use vstd::prelude::*;

pub mod tile;
pub mod catalog;
pub mod world;
pub mod export;

verus! {

} // verus!
