use level_editor::catalog::{image_pixels, Image, Rgba, TileCatalog};
use level_editor::export::{layer_text, spawn_json};
use level_editor::tile::ChunkType;
use level_editor::world::{World, COLS, FRAME_BYTES, HEIGHT, ROWS, WIDTH};

const ALL: [ChunkType; 9] = [
    ChunkType::Air,
    ChunkType::Dirt,
    ChunkType::Grass,
    ChunkType::CheckPoint,
    ChunkType::Spikes,
    ChunkType::TallGrass,
    ChunkType::Stone,
    ChunkType::Planks,
    ChunkType::CrackedStone,
];

fn lines(text: &[u8]) -> Vec<String> {
    String::from_utf8(text.to_vec())
        .unwrap()
        .lines()
        .map(|l| l.to_string())
        .collect()
}

fn solid(r: u8, g: u8, b: u8, a: u8) -> Image {
    let mut data = Vec::new();
    for _ in 0..1024 {
        data.extend_from_slice(&[r, g, b, a]);
    }
    Image::new(data).unwrap()
}

fn catalog(spawn_alpha: u8, hidden_alpha: u8) -> TileCatalog {
    let tiles = (1..=8u8).map(|n| solid(n, n, n, 0xff)).collect();
    TileCatalog::new(tiles, solid(0xff, 0, 0, spawn_alpha), solid(0, 0, 0, hidden_alpha)).unwrap()
}

fn screen_pixel(frame: &[u8], x: usize, y: usize) -> [u8; 4] {
    let i = (y * WIDTH + x) * 4;
    [frame[i], frame[i + 1], frame[i + 2], frame[i + 3]]
}

#[test]
fn codes_round_trip() {
    for (n, t) in ALL.iter().enumerate() {
        assert_eq!(t.code() as usize, n);
        assert_eq!(ChunkType::from(t.code()), *t);
    }
    assert_eq!(ChunkType::from(9), ChunkType::Air);
    assert_eq!(ChunkType::from(255), ChunkType::Air);
}

#[test]
fn passthrough_tiles() {
    let open: Vec<ChunkType> = ALL.iter().copied().filter(|t| t.is_passthrough()).collect();
    assert_eq!(
        open,
        vec![ChunkType::Air, ChunkType::CheckPoint, ChunkType::Spikes, ChunkType::TallGrass]
    );
}

#[test]
fn new_world_defaults() {
    let w = World::new();
    assert_eq!(w.offset(), (0, 0));
    assert_eq!(w.cursor(), (0, 0));
    assert_eq!(w.spawn(), (0, 0));
    assert_eq!(w.chunk_mode(), 0);
    assert_eq!(w.chunk_type(), ChunkType::Dirt);
    assert_eq!(w.cell(0, ROWS - 1, COLS - 1), ChunkType::Air);
    assert_eq!(w.cell(1, 0, 0), ChunkType::Air);
}

#[test]
fn scroll_steps_one_tile_and_clamps() {
    let mut w = World::new();
    w.set_offset(false, false, true, false);
    assert_eq!(w.offset(), (0, 0));
    w.set_offset(false, true, false, false);
    assert_eq!(w.offset(), (0, 0));
    w.set_offset(true, false, false, false);
    assert_eq!(w.offset(), (0, 32));
    w.set_offset(false, false, false, true);
    assert_eq!(w.offset(), (32, 32));
    for _ in 0..100 {
        w.set_offset(false, false, false, true);
        w.set_offset(true, false, false, false);
    }
    assert_eq!(w.offset(), (224, 320));
    w.set_offset(false, false, false, false);
    assert_eq!(w.offset(), (224, 320));
}

#[test]
fn scroll_priority_is_right_left_up_down() {
    let mut w = World::new();
    w.set_offset(true, true, true, true);
    assert_eq!(w.offset(), (0, 32));
    w.set_offset(false, true, true, true);
    assert_eq!(w.offset(), (0, 0));
    w.set_offset(false, false, false, true);
    w.set_offset(false, false, true, true);
    assert_eq!(w.offset(), (0, 0));
}

#[test]
fn scroll_sequence_stays_in_world() {
    let mut w = World::new();
    let mut seed: u32 = 7;
    for _ in 0..500 {
        seed = seed.wrapping_mul(1103515245).wrapping_add(12345);
        let k = seed >> 16;
        w.set_offset(k & 1 != 0, k & 2 != 0, k & 4 != 0, k & 8 != 0);
        let (y, x) = w.offset();
        assert!(y <= 960 - HEIGHT);
        assert!(x <= 1280 - WIDTH);
    }
}

#[test]
fn cursor_follows_pointer_and_offset() {
    let mut w = World::new();
    w.update(Some((70, 100)));
    assert_eq!(w.cursor(), (3, 2));
    w.set_offset(true, false, false, false);
    w.set_offset(false, false, false, true);
    w.update(Some((70, 100)));
    assert_eq!(w.cursor(), (4, 3));
    w.update(None);
    assert_eq!(w.cursor(), (4, 3));
}

#[test]
fn cursor_is_clamped_to_grid() {
    let mut w = World::new();
    w.update(Some((usize::MAX, usize::MAX)));
    assert_eq!(w.cursor(), (ROWS - 1, COLS - 1));
    w.update(Some((5000, 3)));
    assert_eq!(w.cursor(), (0, COLS - 1));
}

#[test]
fn spawn_snaps_to_block_of_sixteen() {
    let mut w = World::new();
    w.update(Some((2 * 32 + 5, 3 * 32 + 5)));
    assert_eq!(w.cursor(), (3, 2));
    w.set_spawn();
    assert_eq!(w.spawn(), (0, 0));
    w.update(Some((35 * 32, 20 * 32)));
    w.set_spawn();
    assert_eq!(w.spawn(), (16, 32));
    assert_eq!(w.spawn().0 % 16, 0);
    assert_eq!(w.spawn().1 % 16, 0);
}

#[test]
fn tile_selection_by_digit() {
    let mut w = World::new();
    w.set_chunk_type(6);
    assert_eq!(w.chunk_type(), ChunkType::Stone);
    w.set_chunk_type(9);
    assert_eq!(w.chunk_type(), ChunkType::Stone);
    w.set_chunk_type(0);
    assert_eq!(w.chunk_type(), ChunkType::Air);
}

#[test]
fn layer_mode_toggles() {
    let mut w = World::new();
    w.set_chunk_mode();
    assert_eq!(w.chunk_mode(), 1);
    w.set_chunk_mode();
    assert_eq!(w.chunk_mode(), 0);
}

#[test]
fn imprint_paints_at_cursor_on_current_layer() {
    let mut w = World::new();
    w.update(Some((5 * 32, 7 * 32)));
    w.imprint();
    assert_eq!(w.cell(0, 7, 5), ChunkType::Dirt);
    w.set_chunk_mode();
    w.set_chunk_type(2);
    w.update(Some((6 * 32, 7 * 32)));
    w.imprint();
    assert_eq!(w.cell(1, 7, 6), ChunkType::Grass);
    assert_eq!(w.cell(0, 7, 6), ChunkType::Air);
}

#[test]
fn background_paint_blocked_by_solid_foreground() {
    let mut w = World::new();
    w.paint(0, 5, 5, ChunkType::Stone);
    assert!(w.check_foreground_chunktype(5, 5));
    w.paint(1, 5, 5, ChunkType::Dirt);
    assert_eq!(w.cell(1, 5, 5), ChunkType::Air);
    w.paint(0, 6, 6, ChunkType::Spikes);
    assert!(!w.check_foreground_chunktype(6, 6));
    w.paint(1, 6, 6, ChunkType::Planks);
    assert_eq!(w.cell(1, 6, 6), ChunkType::Planks);
}

#[test]
fn blank_export() {
    let w = World::new();
    for text in [w.map_text(), w.map_bg_text()] {
        let ls = lines(&text);
        assert_eq!(ls.len(), ROWS);
        for l in ls {
            assert_eq!(l, "0".repeat(COLS));
        }
        assert_eq!(text.last(), Some(&b'\n'));
    }
    assert_eq!(
        String::from_utf8(w.map_json()).unwrap(),
        "{\n\t\"x\": 0,\n\t\"y\": 0,\n\t\"depth\": 750\n}\n"
    );
}

#[test]
fn export_foreground_stone() {
    let mut w = World::new();
    w.paint(0, 5, 5, ChunkType::Stone);
    let ls = lines(&w.map_text());
    assert_eq!(ls.len(), ROWS);
    for (r, l) in ls.iter().enumerate() {
        for (c, ch) in l.chars().enumerate() {
            let want = if r == 5 && c == 5 { '6' } else { '0' };
            assert_eq!(ch, want);
        }
    }
    assert_eq!(ls[5].chars().nth(5), Some('6'));
}

#[test]
fn export_background_rejected_under_stone() {
    let mut w = World::new();
    w.paint(0, 5, 5, ChunkType::Stone);
    w.paint(1, 5, 5, ChunkType::Dirt);
    let ls = lines(&w.map_bg_text());
    assert_eq!(ls[5].chars().nth(5), Some('0'));
}

#[test]
fn export_background_masks_occluded_cells() {
    let mut w = World::new();
    w.paint(1, 2, 3, ChunkType::Grass);
    w.paint(1, 2, 4, ChunkType::Grass);
    w.paint(0, 2, 3, ChunkType::Planks);
    w.paint(0, 2, 4, ChunkType::TallGrass);
    let ls = lines(&w.map_bg_text());
    assert_eq!(&ls[2][..6], "000020");
    let fg = lines(&w.map_text());
    assert_eq!(&fg[2][..6], "000750");
}

#[test]
fn export_spawn_record() {
    let mut w = World::new();
    w.update(Some((39 * 32, 29 * 32)));
    w.set_spawn();
    assert_eq!(
        String::from_utf8(w.map_json()).unwrap(),
        "{\n\t\"x\": 32,\n\t\"y\": 16,\n\t\"depth\": 750\n}\n"
    );
    assert_eq!(
        String::from_utf8(spawn_json(1234, 7)).unwrap(),
        "{\n\t\"x\": 1234,\n\t\"y\": 7,\n\t\"depth\": 750\n}\n"
    );
}

#[test]
fn layer_text_uses_codes() {
    let mut cells = vec![ChunkType::Air; ROWS * COLS];
    cells[0] = ChunkType::CrackedStone;
    cells[COLS + 1] = ChunkType::Dirt;
    let ls = lines(&layer_text(&cells));
    assert_eq!(&ls[0][..2], "80");
    assert_eq!(&ls[1][..2], "01");
}

#[test]
fn images_and_catalog_check_sizes() {
    assert!(Image::new(vec![0; 4095]).is_none());
    assert!(Image::new(vec![0; 4096]).is_some());
    let tiles = (0..7).map(|_| solid(1, 2, 3, 4)).collect();
    assert!(TileCatalog::new(tiles, solid(0, 0, 0, 0), solid(0, 0, 0, 0)).is_none());
}

#[test]
fn image_pixels_repeat_every_tile() {
    let mut data = vec![0u8; 4096];
    let i = (3 * 32 + 2) * 4;
    data[i..i + 4].copy_from_slice(&[9, 8, 7, 6]);
    let img = Image::new(data).unwrap();
    assert_eq!(image_pixels(&img, 2, 3), Rgba { r: 9, g: 8, b: 7, a: 6 });
    assert_eq!(image_pixels(&img, 34, 67), Rgba { r: 9, g: 8, b: 7, a: 6 });
    assert_eq!(image_pixels(&img, 3, 3), Rgba { r: 0, g: 0, b: 0, a: 0 });
}

#[test]
fn draw_layers_preview_and_marks() {
    let cat = catalog(0, 0);
    let mut w = World::new();
    w.paint(0, 1, 1, ChunkType::Stone);
    w.update(Some((2 * 32, 2 * 32)));
    let mut frame = vec![0u8; FRAME_BYTES];
    w.draw(&cat, &mut frame);
    assert_eq!(screen_pixel(&frame, 40, 40), [6, 6, 6, 0xff]);
    assert_eq!(screen_pixel(&frame, 100, 10), [0xff, 0xff, 0xff, 0xff]);
    assert_eq!(screen_pixel(&frame, 70, 70), [1, 1, 1, 0x64]);
    w.set_offset(true, false, false, false);
    w.draw(&cat, &mut frame);
    assert_eq!(screen_pixel(&frame, 8, 40), [6, 6, 6, 0xff]);
}

#[test]
fn draw_spawn_and_hidden_overlays() {
    let cat = catalog(0xff, 0xff);
    let mut w = World::new();
    w.paint(0, 20, 20, ChunkType::Stone);
    let mut frame = vec![0u8; FRAME_BYTES];
    w.draw(&cat, &mut frame);
    assert_eq!(screen_pixel(&frame, 5, 5), [0xff, 0, 0, 0xff]);
    assert_eq!(screen_pixel(&frame, 16 * 32 + 5, 5), [0xff, 0xff, 0xff, 0xff]);
    w.set_chunk_mode();
    w.draw(&cat, &mut frame);
    assert_eq!(screen_pixel(&frame, 20 * 32 + 3, 20 * 32 + 3), [0, 0, 0, 0xff]);
    assert_eq!(screen_pixel(&frame, 21 * 32 + 3, 20 * 32 + 3), [0xff, 0xff, 0xff, 0xff]);
}
