use vstd::prelude::*;
use crate::tile::{ChunkType, code_of};

verus! {

/// Side of a tile pattern, in pixels.
pub const PATTERN_SIZE: usize = 32;

/// Bytes in one pattern: 32 by 32 pixels of four bytes each.
pub const PATTERN_BYTES: usize = 4096;

/// One pixel, as red, green, blue and alpha bytes.
#[derive(Clone, Copy, Debug, PartialEq, Eq, Structural)]
pub struct Rgba {
    pub r: u8,
    pub g: u8,
    pub b: u8,
    pub a: u8,
}

/// Opaque white, the colour of an Air tile.
pub open spec fn white() -> Rgba {
    Rgba { r: 0xff, g: 0xff, b: 0xff, a: 0xff }
}

/// The byte of a pixel at position `c` (0 red, 1 green, 2 blue, 3 alpha).
pub open spec fn channel(p: Rgba, c: int) -> u8 {
    if c == 0 {
        p.r
    } else if c == 1 {
        p.g
    } else if c == 2 {
        p.b
    } else {
        p.a
    }
}

/// A 32 by 32 pattern, stored row by row as RGBA bytes.
pub struct Image {
    pub data: Vec<u8>,
}

impl Image {
    pub open spec fn wf(&self) -> bool {
        self.data@.len() == PATTERN_BYTES
    }

    /// The pixel that covers world pixel (x, y): patterns repeat every 32 pixels.
    pub open spec fn pixel(&self, x: int, y: int) -> Rgba {
        let i = ((y % 32) * 32 + x % 32) * 4;
        Rgba { r: self.data@[i], g: self.data@[i + 1], b: self.data@[i + 2], a: self.data@[i + 3] }
    }

    /// Takes the RGBA bytes of a pattern; `None` unless there are exactly 4096.
    pub fn new(data: Vec<u8>) -> (r: Option<Image>)
        ensures
            r is Some <==> data@.len() == PATTERN_BYTES,
            r matches Some(img) ==> img.data@ == data@ && img.wf(),
    {
        if data.len() == PATTERN_BYTES {
            Some(Image { data })
        } else {
            None
        }
    }
}

/// The pixel of `image` that covers world pixel (x, y).
pub fn image_pixels(image: &Image, x: usize, y: usize) -> (r: Rgba)
    requires
        image.wf(),
    ensures
        r == image.pixel(x as int, y as int),
{
    let i: usize = ((y % PATTERN_SIZE) * PATTERN_SIZE + x % PATTERN_SIZE) * 4;
    assert(i + 3 < PATTERN_BYTES) by (nonlinear_arith)
        requires
            i == ((y % 32) * 32 + x % 32) * 4,
            0 <= y % 32 < 32,
            0 <= x % 32 < 32,
    ;
    Rgba { r: image.data[i], g: image.data[i + 1], b: image.data[i + 2], a: image.data[i + 3] }
}

/// The patterns that the renderer draws: one for each tile but Air (in code
/// order, Dirt first), the spawn marker, and the mark over a hidden background.
pub struct TileCatalog {
    pub tiles: Vec<Image>,
    pub spawn: Image,
    pub not_shown: Image,
}

impl TileCatalog {
    pub open spec fn wf(&self) -> bool {
        &&& self.tiles@.len() == 8
        &&& forall|i: int| 0 <= i < 8 ==> #[trigger] self.tiles@[i].wf()
        &&& self.spawn.wf()
        &&& self.not_shown.wf()
    }

    /// The colour of tile `t` at world pixel (x, y); Air is opaque white.
    pub open spec fn tile_color(&self, t: ChunkType, x: int, y: int) -> Rgba {
        if t == ChunkType::Air {
            white()
        } else {
            self.tiles@[code_of(t) - 1].pixel(x, y)
        }
    }

    /// Gathers the patterns; `None` unless there are eight tile patterns.
    pub fn new(tiles: Vec<Image>, spawn: Image, not_shown: Image) -> (r: Option<TileCatalog>)
        requires
            forall|i: int| 0 <= i < tiles@.len() ==> #[trigger] tiles@[i].wf(),
            spawn.wf(),
            not_shown.wf(),
        ensures
            r is Some <==> tiles@.len() == 8,
            r matches Some(c) ==> c.wf() && c.tiles@ == tiles@ && c.spawn == spawn
                && c.not_shown == not_shown,
    {
        if tiles.len() == 8 {
            Some(TileCatalog { tiles, spawn, not_shown })
        } else {
            None
        }
    }

    /// The colour of tile `t` at world pixel (x, y).
    pub fn tile_pixel(&self, t: ChunkType, x: usize, y: usize) -> (r: Rgba)
        requires
            self.wf(),
        ensures
            r == self.tile_color(t, x as int, y as int),
    {
        let n = t.code();
        if n == 0 {
            Rgba { r: 0xff, g: 0xff, b: 0xff, a: 0xff }
        } else {
            image_pixels(&self.tiles[(n - 1) as usize], x, y)
        }
    }
}

} // verus!
