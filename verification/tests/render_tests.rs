use gameboy_wasm::cell_canvas::{Canvas as CellCanvas, Cell};
use gameboy_wasm::gameboy::Gameboy;
use gameboy_wasm::pixel_canvas::{Canvas as PixelCanvas, Pixel};
use gameboy_wasm::render::{
    background_rgba, compose_rgba, pixels_to_image_data, push_tile_row, screen_rgba, sprite_layer_rgba,
    tile_index, tiles_rgba, Sprite,
};

fn console() -> Gameboy {
    let boot = vec![0u8; 0x100];
    let mut cart = vec![0u8; 0x8000];
    cart[0x147] = 0;
    Gameboy::new(&boot, cart)
}

fn rgba(level: u8) -> [u8; 4] {
    [level, level, level, 255]
}

#[test]
fn one_tile_row_gives_eight_pixels() {
    let data = pixels_to_image_data(vec![0x80, 0xC0]);
    assert_eq!(data.len(), 32);
    assert_eq!(&data[0..4], &rgba(0));
    assert_eq!(&data[4..8], &rgba(191));
    for p in 2..8 {
        assert_eq!(&data[4 * p..4 * p + 4], &rgba(255));
    }
    let data = pixels_to_image_data(vec![0x01, 0x00]);
    assert_eq!(&data[28..32], &rgba(64));
}

#[test]
fn push_tile_row_appends() {
    let mut out = vec![9u8];
    push_tile_row(&mut out, 0xFF, 0xFF);
    assert_eq!(out.len(), 33);
    assert_eq!(out[0], 9);
    assert_eq!(&out[1..5], &rgba(0));
}

#[test]
fn empty_input_gives_empty_image() {
    assert!(pixels_to_image_data(Vec::new()).is_empty());
}

#[test]
fn tile_index_addressing_modes() {
    assert_eq!(tile_index(0x05, 1), 5);
    assert_eq!(tile_index(0xFF, 1), 255);
    assert_eq!(tile_index(0x00, 0), 128);
    assert_eq!(tile_index(0x7F, 0), 255);
    assert_eq!(tile_index(0x80, 0), 0);
    assert_eq!(tile_index(0xFF, 0), 127);
}

#[test]
fn background_shows_the_mapped_tile() {
    let mut map = vec![0u8; 1024];
    map[1] = 2;
    let mut chars = vec![0u8; 4096];
    chars[2 * 16] = 0xFF; // tile 2, row 0, low byte
    let bg = background_rgba(&map, &chars, 1);
    assert_eq!(bg.len(), 262144);
    // Tile 1 of the map covers pixels 8..16 of the first row.
    assert_eq!(&bg[0..4], &rgba(255));
    assert_eq!(&bg[8 * 4..8 * 4 + 4], &rgba(64));
    assert_eq!(&bg[15 * 4..15 * 4 + 4], &rgba(64));
    assert_eq!(&bg[16 * 4..16 * 4 + 4], &rgba(255));
    // Row 1 of the tile is blank.
    assert_eq!(&bg[1024 + 8 * 4..1024 + 8 * 4 + 4], &rgba(255));
}

#[test]
fn screen_is_cut_at_the_scroll_position() {
    let mut bg = vec![0u8; 262144];
    // Mark background pixel (x = 10, y = 250) and (x = 10, y = 4).
    bg[250 * 1024 + 10 * 4] = 7;
    bg[4 * 1024 + 10 * 4] = 9;
    let screen = screen_rgba(&bg, 10, 250);
    assert_eq!(screen.len(), 92160);
    assert_eq!(screen[0], 7);
    // Vertical scrolling wraps: screen row 10 is background row 4.
    assert_eq!(screen[10 * 640], 9);
}

#[test]
fn tiles_are_rendered_one_by_one() {
    let mut chars = vec![0u8; 32];
    chars[16] = 0x80;
    chars[17] = 0x80;
    let tiles = tiles_rgba(&chars);
    assert_eq!(tiles.len(), 2);
    assert_eq!(tiles[1].len(), 256);
    assert_eq!(&tiles[0][0..4], &rgba(255));
    assert_eq!(&tiles[1][0..4], &rgba(0));
}

#[test]
fn sprites_are_drawn_over_white() {
    let mut chars = vec![0u8; 4096];
    chars[3 * 16] = 0xFF;
    chars[3 * 16 + 1] = 0xFF;
    let sprite = Sprite {
        y: 2,
        x: 1,
        pattern_num: 3,
        attributes: 0,
        priority: false,
        y_flip: false,
        x_flip: false,
        palette_num: false,
    };
    let layer = sprite_layer_rgba(&vec![sprite], &chars);
    assert_eq!(layer.len(), 92160);
    let start = 2 * 32 + 4;
    assert_eq!(&layer[start..start + 4], &rgba(0));
    assert_eq!(&layer[0..4], &rgba(255));
}

#[test]
fn composing_keeps_screen_under_white() {
    let screen = vec![1u8, 2, 3, 4, 5, 6, 7, 8];
    let layer = vec![255u8, 255, 255, 255, 0, 0, 0, 255];
    assert_eq!(compose_rgba(&screen, &layer), vec![1, 2, 3, 4, 0, 0, 0, 255]);
}

#[test]
fn console_images_of_blank_memory() {
    let mut gb = console();
    assert!(gb.screen_fits());
    let screen = gb.screen_image();
    assert_eq!(screen.len(), 92160);
    assert!(screen.iter().all(|b| *b == 255));
    let with_sprites = gb.screen_with_sprites();
    assert_eq!(with_sprites, screen);
    let tiles = gb.background_tiles();
    assert_eq!(tiles.len(), 1024);
    assert_eq!((tiles[33].x, tiles[33].y), (8, 8));
    assert_eq!(tiles[33].tile_index, 128);
    let images = gb.background_tile_images();
    assert_eq!(images.len(), 256);
    let chars = gb.char_map_to_image_data();
    assert_eq!(chars.len(), 65536);
    assert_eq!(gb.image_data, chars);
    gb.machine.memory[0xFF43] = 97;
    gb.machine.memory[0xFF42] = 112;
    assert!(!gb.screen_fits());
}

#[test]
fn sprites_from_object_attribute_memory() {
    let mut gb = console();
    gb.machine.memory[0xFE04] = 16;
    gb.machine.memory[0xFE05] = 8;
    gb.machine.memory[0xFE06] = 0x21;
    gb.machine.memory[0xFE07] = 0xA0;
    let sprites = gb.all_sprites();
    assert_eq!(sprites.len(), 40);
    let s = sprites[1];
    assert_eq!((s.y, s.x, s.pattern_num, s.attributes), (16, 8, 0x21, 0xA0));
    assert!(s.priority && !s.y_flip && s.x_flip && !s.palette_num);
}

#[test]
fn pixel_canvas_decodes_the_logo() {
    let canvas = PixelCanvas::new(&[0x31, 0xFE]);
    assert_eq!((canvas.width(), canvas.height()), (160, 144));
    assert_eq!(canvas.memory.len(), 0xFFFF);
    assert_eq!(&canvas.memory[0..2], &[0x31, 0xFE]);
    assert_eq!(canvas.memory[0x104], 0xCE);
    assert_eq!(canvas.memory[0x133], 0x3E);
    assert_eq!(canvas.pixels.len(), 48 * 4);
    // 0xCE, 0xED: bits 1100_1110 and 1110_1101.
    assert_eq!(
        &canvas.pixels[0..8],
        &[
            Pixel::Black,
            Pixel::Black,
            Pixel::LightGray,
            Pixel::White,
            Pixel::Black,
            Pixel::Black,
            Pixel::DarkGray,
            Pixel::LightGray
        ]
    );
    assert_eq!(canvas.get_index(2, 3), 67);
}

#[test]
fn pixel_tile_rows() {
    assert_eq!(
        PixelCanvas::tile_row(0xF0, 0x3C),
        vec![
            Pixel::DarkGray,
            Pixel::DarkGray,
            Pixel::Black,
            Pixel::Black,
            Pixel::LightGray,
            Pixel::LightGray,
            Pixel::White,
            Pixel::White
        ]
    );
    assert_eq!(PixelCanvas::tile(vec![0u8; 16]).len(), 64);
}

#[test]
fn cell_canvas_shows_the_sample_tile() {
    let canvas = CellCanvas::new();
    assert_eq!((canvas.width(), canvas.height()), (16, 8));
    assert_eq!(canvas.cells.len(), 1);
    assert_eq!(canvas.cells[0].len(), 64);
    assert!(canvas.cells[0][0..8].iter().all(|c| *c == Cell::DarkGray));
    assert_eq!(canvas.cells[0][8], Cell::LightGray);
    assert_eq!(canvas.cells[0][9], Cell::Black);
    assert_eq!(canvas.get_index(1, 2), 18);
    assert_eq!(canvas.get_index(20, 0), 64);
    assert_eq!(CellCanvas::tile_row(0x00, 0xFF), vec![Cell::LightGray; 8]);
}
