use vstd::prelude::*;
use crate::catalog::{Rgba, TileCatalog, channel, image_pixels};
use crate::export::{json_text, layer_text, layer_text_of, shown_background, shown_cells, spawn_json};
use crate::tile::{ChunkType, is_passthrough, tile_of};

verus! {

/// Width of the screen, in pixels.
pub const WIDTH: usize = 960;
/// Height of the screen, in pixels.
pub const HEIGHT: usize = 736;
/// Side of a tile, in pixels.
pub const CHUNK_SIZE: usize = 32;
/// Width of the world, in pixels.
pub const SIM_WIDTH: usize = 1280;
/// Height of the world, in pixels.
pub const SIM_HEIGHT: usize = 960;
/// Rows of tiles: the world's height over the tile side.
pub const ROWS: usize = 30;
/// Columns of tiles: the world's width over the tile side.
pub const COLS: usize = 40;
/// Cells in one layer.
pub const CELLS: usize = 1200;
/// The spawn marker is snapped to blocks of this many tiles.
pub const SPAWN_BLOCK: usize = 16;
/// Bytes in one frame: four for each screen pixel.
pub const FRAME_BYTES: usize = 2826240;
/// Alpha of the preview of the tile to paint under the cursor.
pub const PREVIEW_ALPHA: u8 = 0x64;
/// Largest vertical offset of the viewport.
pub const MAX_OFFSET_Y: usize = 224;
/// Largest horizontal offset of the viewport.
pub const MAX_OFFSET_X: usize = 320;

/// The editing state as Verus sees it. Pairs are (row, column); the offset is
/// in world pixels, the cursor and spawn in tiles.
pub struct WorldModel {
    pub foreground: Seq<ChunkType>,
    pub background: Seq<ChunkType>,
    pub chunk_mode: usize,
    pub offset: (usize, usize),
    pub cursor: (usize, usize),
    pub spawn: (usize, usize),
    pub chunk_type: ChunkType,
}

/// Index of cell (row, col) in a layer.
pub open spec fn cell_index(row: int, col: int) -> int {
    row * COLS + col
}

/// `v` held between `lo` and `hi`.
pub open spec fn clamp(v: int, lo: int, hi: int) -> int {
    if v < lo {
        lo
    } else if v > hi {
        hi
    } else {
        v
    }
}

/// The offset after one update of the direction keys: one tile in the first
/// held direction (right, left, up, down), then clamped to the world.
pub open spec fn scrolled(
    offset: (usize, usize),
    right: bool,
    left: bool,
    up: bool,
    down: bool,
) -> (usize, usize) {
    let y = offset.0 as int;
    let x = offset.1 as int;
    let step = CHUNK_SIZE as int;
    let (ny, nx) = if right {
        (y, x + step)
    } else if left {
        (y, x - step)
    } else if up {
        (y - step, x)
    } else if down {
        (y + step, x)
    } else {
        (y, x)
    };
    (clamp(ny, 0, MAX_OFFSET_Y as int) as usize, clamp(nx, 0, MAX_OFFSET_X as int) as usize)
}

/// The offset after a run of updates, each given as (right, left, up, down).
pub open spec fn scrolled_all(offset: (usize, usize), keys: Seq<(bool, bool, bool, bool)>) -> (
    usize,
    usize,
)
    decreases keys.len(),
{
    if keys.len() == 0 {
        offset
    } else {
        let k = keys.last();
        scrolled(scrolled_all(offset, keys.drop_last()), k.0, k.1, k.2, k.3)
    }
}

pub open spec fn offset_in_bounds(offset: (usize, usize)) -> bool {
    offset.0 <= MAX_OFFSET_Y && offset.1 <= MAX_OFFSET_X
}

/// The tile under pointer (x, y) of the screen, clamped to the grid.
pub open spec fn cursor_of(offset: (usize, usize), x: int, y: int) -> (usize, usize) {
    (
        clamp((y + offset.0) / CHUNK_SIZE as int, 0, ROWS - 1) as usize,
        clamp((x + offset.1) / CHUNK_SIZE as int, 0, COLS - 1) as usize,
    )
}

/// The start of the spawn block that holds tile (row, col).
pub open spec fn spawn_block(cell: (usize, usize)) -> (usize, usize) {
    (
        (cell.0 / SPAWN_BLOCK * SPAWN_BLOCK) as usize,
        (cell.1 / SPAWN_BLOCK * SPAWN_BLOCK) as usize,
    )
}

impl WorldModel {
    pub open spec fn wf(&self) -> bool {
        &&& self.foreground.len() == CELLS
        &&& self.background.len() == CELLS
        &&& self.chunk_mode <= 1
        &&& offset_in_bounds(self.offset)
        &&& self.cursor.0 < ROWS && self.cursor.1 < COLS
        &&& self.spawn.0 < ROWS && self.spawn.1 < COLS
        &&& self.spawn.0 % SPAWN_BLOCK == 0 && self.spawn.1 % SPAWN_BLOCK == 0
    }

    /// Whether the foreground cell (row, col) hides the background under it.
    pub open spec fn occludes(&self, row: int, col: int) -> bool {
        !is_passthrough(self.foreground[cell_index(row, col)])
    }

    /// The layer that edits and rendering work on: 0 foreground, 1 background.
    pub open spec fn layer(&self, layer: usize) -> Seq<ChunkType> {
        if layer == 0 {
            self.foreground
        } else {
            self.background
        }
    }

    /// The colour of world pixel (x, y): the tile of the layer being edited,
    /// then the translucent preview on the cursor, the spawn marker on its
    /// block, and on the background the mark where the foreground hides it.
    pub open spec fn color_at(&self, cat: TileCatalog, x: int, y: int) -> Rgba {
        let row = y / CHUNK_SIZE as int;
        let col = x / CHUNK_SIZE as int;
        let base = cat.tile_color(self.layer(self.chunk_mode)[cell_index(row, col)], x, y);
        let preview = cat.tile_color(self.chunk_type, x, y);
        let c1 = if row == self.cursor.0 && col == self.cursor.1 {
            Rgba { a: PREVIEW_ALPHA, ..preview }
        } else {
            base
        };
        let sp = cat.spawn.pixel(x, y);
        let c2 = if spawn_block((row as usize, col as usize)) == self.spawn && sp.a != 0 {
            sp
        } else {
            c1
        };
        let ns = cat.not_shown.pixel(x, y);
        if self.chunk_mode == 1 && self.occludes(row, col) && ns.a != 0 {
            ns
        } else {
            c2
        }
    }

    /// The colour of screen pixel `p`, counted row by row.
    pub open spec fn screen_color(&self, cat: TileCatalog, p: int) -> Rgba {
        self.color_at(cat, p % WIDTH as int + self.offset.1, p / WIDTH as int + self.offset.0)
    }

    /// The state after painting `tile` at (row, col) of `layer`: the
    /// background under an occluding foreground cell is left as it was.
    pub open spec fn painted(&self, layer: usize, row: int, col: int, tile: ChunkType) -> WorldModel {
        if layer == 1 && self.occludes(row, col) {
            *self
        } else if layer == 0 {
            WorldModel { foreground: self.foreground.update(cell_index(row, col), tile), ..*self }
        } else {
            WorldModel { background: self.background.update(cell_index(row, col), tile), ..*self }
        }
    }
}

/// The level being edited: two layers of tiles, the viewport, the cursor, the
/// spawn marker, the tile to paint and the layer to paint on.
pub struct World {
    foreground: Vec<ChunkType>,
    background: Vec<ChunkType>,
    chunk_mode: usize,
    offset: (usize, usize),
    tmp_chunk: (usize, usize),
    spawn_chunk: (usize, usize),
    chunk_type: ChunkType,
}

impl View for World {
    type V = WorldModel;

    closed spec fn view(&self) -> WorldModel {
        WorldModel {
            foreground: self.foreground@,
            background: self.background@,
            chunk_mode: self.chunk_mode,
            offset: self.offset,
            cursor: self.tmp_chunk,
            spawn: self.spawn_chunk,
            chunk_type: self.chunk_type,
        }
    }
}

impl World {
    pub open spec fn wf(&self) -> bool {
        self@.wf()
    }

    /// An empty world: every cell Air, the view at the top left, the cursor and
    /// spawn at (0, 0), painting Dirt on the foreground.
    pub fn new() -> (r: World)
        ensures
            r.wf(),
            r@.foreground == Seq::new(CELLS as nat, |i: int| ChunkType::Air),
            r@.background == Seq::new(CELLS as nat, |i: int| ChunkType::Air),
            r@.chunk_mode == 0,
            r@.offset == (0usize, 0usize),
            r@.cursor == (0usize, 0usize),
            r@.spawn == (0usize, 0usize),
            r@.chunk_type == ChunkType::Dirt,
    {
        let foreground = vec![ChunkType::Air; CELLS];
        let background = vec![ChunkType::Air; CELLS];
        let r = World {
            foreground,
            background,
            chunk_mode: 0,
            offset: (0, 0),
            tmp_chunk: (0, 0),
            spawn_chunk: (0, 0),
            chunk_type: ChunkType::Dirt,
        };
        assert(r@.foreground =~= Seq::new(CELLS as nat, |i: int| ChunkType::Air));
        assert(r@.background =~= Seq::new(CELLS as nat, |i: int| ChunkType::Air));
        r
    }

    /// Whether the foreground tile at column `x`, row `y` hides the background.
    pub fn check_foreground_chunktype(&self, x: usize, y: usize) -> (r: bool)
        requires
            self.wf(),
            x < COLS,
            y < ROWS,
        ensures
            r == self@.occludes(y as int, x as int),
    {
        assert(y * COLS + x < CELLS) by (nonlinear_arith)
            requires
                x < COLS,
                y < ROWS,
        ;
        !self.foreground[y * COLS + x].is_passthrough()
    }

    /// Sets cell (row, col) of `layer` (0 foreground, 1 background) to `tile`,
    /// unless that is the background under an occluding foreground cell.
    pub fn paint(&mut self, layer: usize, row: usize, col: usize, tile: ChunkType)
        requires
            old(self).wf(),
            layer <= 1,
            row < ROWS,
            col < COLS,
        ensures
            final(self).wf(),
            final(self)@ == old(self)@.painted(layer, row as int, col as int, tile),
    {
        if layer == 1 && self.check_foreground_chunktype(col, row) {
            return;
        }
        assert(row * COLS + col < CELLS) by (nonlinear_arith)
            requires
                row < ROWS,
                col < COLS,
        ;
        let i: usize = row * COLS + col;
        if layer == 0 {
            self.foreground[i] = tile;
        } else {
            self.background[i] = tile;
        }
    }

    /// The colour of world pixel (x, y), which lies in the world.
    fn pixel(&self, cat: &TileCatalog, x: usize, y: usize) -> (r: Rgba)
        requires
            self.wf(),
            cat.wf(),
            x < SIM_WIDTH,
            y < SIM_HEIGHT,
        ensures
            r == self@.color_at(*cat, x as int, y as int),
    {
        let row = y / CHUNK_SIZE;
        let col = x / CHUNK_SIZE;
        assert(row * COLS + col < CELLS) by (nonlinear_arith)
            requires
                row < ROWS,
                col < COLS,
        ;
        let i: usize = row * COLS + col;
        let t = if self.chunk_mode == 0 {
            self.foreground[i]
        } else {
            self.background[i]
        };
        let mut rgba = cat.tile_pixel(t, x, y);
        if self.tmp_chunk.0 == row && self.tmp_chunk.1 == col {
            let preview = cat.tile_pixel(self.chunk_type, x, y);
            rgba = Rgba { a: PREVIEW_ALPHA, ..preview };
        }
        let sp = image_pixels(&cat.spawn, x, y);
        if row / SPAWN_BLOCK * SPAWN_BLOCK == self.spawn_chunk.0
            && col / SPAWN_BLOCK * SPAWN_BLOCK == self.spawn_chunk.1 && sp.a != 0 {
            rgba = sp;
        }
        let ns = image_pixels(&cat.not_shown, x, y);
        if self.chunk_mode == 1 && self.check_foreground_chunktype(col, row) && ns.a != 0 {
            rgba = ns;
        }
        rgba
    }

    /// Fills `frame` with the screen: four RGBA bytes for each pixel, row by row.
    pub fn draw(&self, cat: &TileCatalog, frame: &mut Vec<u8>)
        requires
            self.wf(),
            cat.wf(),
            old(frame)@.len() == FRAME_BYTES,
        ensures
            final(frame)@.len() == FRAME_BYTES,
            forall|p: int, c: int|
                0 <= p < WIDTH * HEIGHT && 0 <= c < 4 ==> #[trigger] final(frame)@[4 * p + c]
                    == channel(self@.screen_color(*cat, p), c),
    {
        let n: usize = WIDTH * HEIGHT;
        let mut p: usize = 0;
        while p < n
            invariant
                self.wf(),
                cat.wf(),
                n == WIDTH * HEIGHT,
                p <= n,
                frame@.len() == FRAME_BYTES,
                forall|q: int, c: int|
                    0 <= q < p && 0 <= c < 4 ==> #[trigger] frame@[4 * q + c]
                        == channel(self@.screen_color(*cat, q), c),
            decreases n - p,
        {
            let x = p % WIDTH + self.offset.1;
            let y = p / WIDTH + self.offset.0;
            let rgba = self.pixel(cat, x, y);
            let i: usize = 4 * p;
            frame[i] = rgba.r;
            frame[i + 1] = rgba.g;
            frame[i + 2] = rgba.b;
            frame[i + 3] = rgba.a;
            assert forall|q: int, c: int|
                0 <= q < p + 1 && 0 <= c < 4 implies #[trigger] frame@[4 * q + c]
                    == channel(self@.screen_color(*cat, q), c) by {
                if q == p {
                    assert(4 * q + c == i + c);
                }
            }
            p = p + 1;
        }
    }

    /// The contents of `map.txt`: the foreground, one digit per cell, one line per row.
    pub fn map_text(&self) -> (r: Vec<u8>)
        requires
            self.wf(),
        ensures
            r@ == layer_text_of(self@.foreground),
    {
        layer_text(&self.foreground)
    }

    /// The contents of `map_bg.txt`: the background in the same form, with Air
    /// wherever the foreground occludes it.
    pub fn map_bg_text(&self) -> (r: Vec<u8>)
        requires
            self.wf(),
        ensures
            r@ == layer_text_of(shown_background(self@.foreground, self@.background)),
    {
        let shown = shown_cells(&self.foreground, &self.background);
        layer_text(&shown)
    }

    /// The contents of `map.json`: the spawn column as x, its row as y, depth 750.
    pub fn map_json(&self) -> (r: Vec<u8>)
        requires
            self.wf(),
        ensures
            r@ == json_text(self@.spawn.1 as nat, self@.spawn.0 as nat),
    {
        spawn_json(self.spawn_chunk.1, self.spawn_chunk.0)
    }

    /// Stamps the tile to paint at the cursor, on the layer being edited.
    pub fn imprint(&mut self)
        requires
            old(self).wf(),
        ensures
            final(self).wf(),
            final(self)@ == old(self)@.painted(
                old(self)@.chunk_mode,
                old(self)@.cursor.0 as int,
                old(self)@.cursor.1 as int,
                old(self)@.chunk_type,
            ),
    {
        let (row, col) = self.tmp_chunk;
        self.paint(self.chunk_mode, row, col, self.chunk_type);
    }

    /// Moves the cursor to the tile under pointer (x, y) of the screen, if the
    /// pointer is over the window.
    pub fn update(&mut self, mouse: Option<(usize, usize)>)
        requires
            old(self).wf(),
        ensures
            final(self).wf(),
            final(self)@ == (match mouse {
                Some(p) => WorldModel {
                    cursor: cursor_of(old(self)@.offset, p.0 as int, p.1 as int),
                    ..old(self)@
                },
                None => old(self)@,
            }),
    {
        if let Some((x, y)) = mouse {
            let row = if y >= SIM_HEIGHT {
                ROWS - 1
            } else {
                let r = (y + self.offset.0) / CHUNK_SIZE;
                if r > ROWS - 1 { ROWS - 1 } else { r }
            };
            let col = if x >= SIM_WIDTH {
                COLS - 1
            } else {
                let c = (x + self.offset.1) / CHUNK_SIZE;
                if c > COLS - 1 { COLS - 1 } else { c }
            };
            self.tmp_chunk = (row, col);
        }
    }

    /// Puts the spawn marker on the spawn block under the cursor.
    pub fn set_spawn(&mut self)
        requires
            old(self).wf(),
        ensures
            final(self).wf(),
            final(self)@ == (WorldModel { spawn: spawn_block(old(self)@.cursor), ..old(self)@ }),
            final(self)@.spawn.0 % SPAWN_BLOCK == 0,
            final(self)@.spawn.1 % SPAWN_BLOCK == 0,
    {
        let (row, col) = self.tmp_chunk;
        self.spawn_chunk = (row / SPAWN_BLOCK * SPAWN_BLOCK, col / SPAWN_BLOCK * SPAWN_BLOCK);
    }

    /// Scrolls the view one tile in the first held direction, in the order
    /// right, left, up, down, and keeps it inside the world.
    pub fn set_offset(&mut self, right: bool, left: bool, up: bool, down: bool)
        requires
            old(self).wf(),
        ensures
            final(self).wf(),
            final(self)@ == (WorldModel {
                offset: scrolled(old(self)@.offset, right, left, up, down),
                ..old(self)@
            }),
            offset_in_bounds(final(self)@.offset),
    {
        let (y, x) = self.offset;
        let (ny, nx): (usize, usize) = if right {
            (y, if x + CHUNK_SIZE > MAX_OFFSET_X { MAX_OFFSET_X } else { x + CHUNK_SIZE })
        } else if left {
            (y, if x < CHUNK_SIZE { 0 } else { x - CHUNK_SIZE })
        } else if up {
            (if y < CHUNK_SIZE { 0 } else { y - CHUNK_SIZE }, x)
        } else if down {
            (if y + CHUNK_SIZE > MAX_OFFSET_Y { MAX_OFFSET_Y } else { y + CHUNK_SIZE }, x)
        } else {
            (y, x)
        };
        self.offset = (ny, nx);
    }

    /// Selects the tile to paint by its digit key; digits above 8 are ignored.
    pub fn set_chunk_type(&mut self, digit: u8)
        requires
            old(self).wf(),
        ensures
            final(self).wf(),
            final(self)@ == (if digit <= 8 {
                WorldModel { chunk_type: tile_of(digit), ..old(self)@ }
            } else {
                old(self)@
            }),
    {
        if digit <= 8 {
            self.chunk_type = ChunkType::from(digit);
        }
    }

    /// Switches painting between the foreground and the background.
    pub fn set_chunk_mode(&mut self)
        requires
            old(self).wf(),
        ensures
            final(self).wf(),
            final(self)@ == (WorldModel { chunk_mode: (1 - old(self)@.chunk_mode) as usize, ..old(self)@ }),
    {
        self.chunk_mode = if self.chunk_mode == 0 { 1 } else { 0 };
    }
    /// The tile at (row, col) of `layer` (0 foreground, 1 background).
    pub fn cell(&self, layer: usize, row: usize, col: usize) -> (r: ChunkType)
        requires
            self.wf(),
            layer <= 1,
            row < ROWS,
            col < COLS,
        ensures
            r == self@.layer(layer)[cell_index(row as int, col as int)],
    {
        assert(row * COLS + col < CELLS) by (nonlinear_arith)
            requires
                row < ROWS,
                col < COLS,
        ;
        if layer == 0 {
            self.foreground[row * COLS + col]
        } else {
            self.background[row * COLS + col]
        }
    }

    /// The top-left world pixel on screen, as (y, x).
    pub fn offset(&self) -> (r: (usize, usize))
        ensures
            r == self@.offset,
    {
        self.offset
    }

    /// The tile under the pointer, as (row, col).
    pub fn cursor(&self) -> (r: (usize, usize))
        ensures
            r == self@.cursor,
    {
        self.tmp_chunk
    }

    /// The spawn marker, as (row, col).
    pub fn spawn(&self) -> (r: (usize, usize))
        ensures
            r == self@.spawn,
    {
        self.spawn_chunk
    }

    /// The layer being edited: 0 foreground, 1 background.
    pub fn chunk_mode(&self) -> (r: usize)
        ensures
            r == self@.chunk_mode,
    {
        self.chunk_mode
    }

    /// The tile that painting stamps.
    pub fn chunk_type(&self) -> (r: ChunkType)
        ensures
            r == self@.chunk_type,
    {
        self.chunk_type
    }
}

/// Painting the background under an occluding foreground cell changes
/// nothing; anywhere else the cell takes the new tile and the rest stays.
pub proof fn lemma_background_paint(w: WorldModel, row: int, col: int, tile: ChunkType)
    requires
        w.wf(),
        0 <= row < ROWS,
        0 <= col < COLS,
    ensures
        w.occludes(row, col) ==> w.painted(1, row, col, tile) == w,
        !w.occludes(row, col) ==> w.painted(1, row, col, tile) == (WorldModel {
            background: w.background.update(cell_index(row, col), tile),
            ..w
        }),
        !w.occludes(row, col) ==> w.painted(1, row, col, tile).background[cell_index(row, col)]
            == tile,
{
    assert(0 <= cell_index(row, col) < CELLS) by (nonlinear_arith)
        requires
            0 <= row < ROWS,
            0 <= col < COLS,
    ;
}

/// After any run of direction-key updates the view stays inside the world.
pub proof fn lemma_scroll_stays_in_world(offset: (usize, usize), keys: Seq<(bool, bool, bool, bool)>)
    requires
        offset_in_bounds(offset),
    ensures
        offset_in_bounds(scrolled_all(offset, keys)),
    decreases keys.len(),
{
    if keys.len() > 0 {
        lemma_scroll_stays_in_world(offset, keys.drop_last());
    }
}

} // verus!
