//! The images the page draws, computed from a console state.

use vstd::prelude::*;
use crate::gameboy::{Gameboy, GameboyModel, gameboy_wf, mem};
use crate::render::{
    background_rgba, background_spec, screen_rgba, screen_spec, screen_window_ok,
    sprite_layer_rgba, sprite_layer_spec, compose_rgba, compose_spec, tile_index, tile_index_spec,
    tiles_rgba, tile_byte, lemma_sprite_layer_len,
};
use crate::emulator::sprite_spec;
use crate::render::Sprite;

verus! {

/// Where a background tile is drawn.
#[derive(Clone, Copy, Debug, PartialEq, Eq)]
pub struct TilePlacement {
    pub tile_index: usize,
    pub x: u32,
    pub y: u32,
}

/// The background tile map selected by LCDC bit 3.
pub open spec fn bg_map_spec(g: GameboyModel) -> Seq<u8> {
    if mem(g, 0xff40) & 0x08 == 0x08 {
        g.machine.memory.subrange(0x9c00, 0xa000)
    } else {
        g.machine.memory.subrange(0x9800, 0x9c00)
    }
}

/// The background/window tile data selected by LCDC bit 4.
pub open spec fn char_map_spec(g: GameboyModel) -> Seq<u8> {
    if mem(g, 0xff40) & 0x10 == 0x10 {
        g.machine.memory.subrange(0x8000, 0x9000)
    } else {
        g.machine.memory.subrange(0x8800, 0x9800)
    }
}

/// LCDC bit 4 as 0 or 1.
pub open spec fn tile_selection_spec(g: GameboyModel) -> u8 {
    if mem(g, 0xff40) & 0x10 == 0x10 { 1 } else { 0 }
}

/// The background image of a console state.
pub open spec fn background_image_spec(g: GameboyModel) -> Seq<u8> {
    background_spec(bg_map_spec(g), char_map_spec(g), tile_selection_spec(g))
}

/// The visible screen of a console state.
pub open spec fn screen_image_spec(g: GameboyModel) -> Seq<u8> {
    screen_spec(background_image_spec(g), mem(g, 0xff43), mem(g, 0xff42))
}

/// The 40 sprites of a console state.
pub open spec fn sprites_spec(g: GameboyModel) -> Seq<Sprite> {
    Seq::new(40, |i: int| sprite_spec(g.machine.memory, 0xfe00 + 4 * i))
}

/// The screen with sprites of a console state.
pub open spec fn screen_with_sprites_spec(g: GameboyModel) -> Seq<u8> {
    compose_spec(
        screen_image_spec(g),
        sprite_layer_spec(sprites_spec(g), g.machine.memory.subrange(0x8800, 0x9800), 320),
    )
}

impl Gameboy {
    /// The background image (256 x 256 pixels, RGBA).
    pub fn background_image(&self) -> (r: Vec<u8>)
        requires
            gameboy_wf(self@),
        ensures
            r@ == background_image_spec(self@),
    {
        let background_map = self.bg_map();
        let char_map_vec = self.bg_window_char_map_bytes();
        let selection = self.get_tile_data_selection();
        background_rgba(&background_map, &char_map_vec, selection)
    }

    /// Whether the visible screen can be cut from the background at the current scroll.
    pub fn screen_fits(&self) -> (r: bool)
        requires
            gameboy_wf(self@),
        ensures
            r == screen_window_ok(mem(self@, 0xff43), mem(self@, 0xff42)),
    {
        let scroll_x = self.get_scroll_x();
        let scroll_y = self.get_scroll_y();
        scroll_x <= 96 || scroll_y < 112
    }

    /// The visible screen (160 x 144 pixels, RGBA).
    pub fn screen_image(&self) -> (r: Vec<u8>)
        requires
            gameboy_wf(self@),
            screen_window_ok(mem(self@, 0xff43), mem(self@, 0xff42)),
        ensures
            r@ == screen_image_spec(self@),
    {
        let background = self.background_image();
        screen_rgba(&background, self.get_scroll_x(), self.get_scroll_y())
    }

    /// The sprite layer over a white screen.
    pub fn sprite_layer(&self) -> (r: Vec<u8>)
        requires
            gameboy_wf(self@),
        ensures
            r@ == sprite_layer_spec(sprites_spec(self@), self@.machine.memory.subrange(0x8800, 0x9800), 320),
    {
        let sprites = self.all_sprites();
        let chars = self.obj_char_map_bytes();
        assert(sprites@ =~= sprites_spec(self@));
        sprite_layer_rgba(&sprites, &chars)
    }

    /// The visible screen with sprites over it.
    pub fn screen_with_sprites(&self) -> (r: Vec<u8>)
        requires
            gameboy_wf(self@),
            screen_window_ok(mem(self@, 0xff43), mem(self@, 0xff42)),
        ensures
            r@ == screen_with_sprites_spec(self@),
    {
        let screen = self.screen_image();
        let layer = self.sprite_layer();
        proof {
            lemma_sprite_layer_len(sprites_spec(self@), self@.machine.memory.subrange(0x8800, 0x9800), 320);
        }
        compose_rgba(&screen, &layer)
    }

    /// Where each entry of the background tile map is drawn: entry `i` at
    /// ((i % 32) * 8, (i / 32) * 8), showing the tile it refers to.
    pub fn background_tiles(&self) -> (r: Vec<TilePlacement>)
        requires
            gameboy_wf(self@),
        ensures
            r@.len() == 1024,
            forall|i: int| 0 <= i < 1024 ==> #[trigger] r@[i] == (TilePlacement {
                tile_index: tile_index_spec(bg_map_spec(self@)[i], tile_selection_spec(self@)) as usize,
                x: ((i % 32) * 8) as u32,
                y: ((i / 32) * 8) as u32,
            }),
    {
        let background_map = self.bg_map();
        let selection = self.get_tile_data_selection();
        let mut placements: Vec<TilePlacement> = Vec::new();
        let mut x: u32 = 0;
        let mut y: u32 = 0;
        let mut i: usize = 0;
        while i < background_map.len()
            invariant
                i <= 1024,
                background_map@ == bg_map_spec(self@),
                background_map@.len() == 1024,
                selection == tile_selection_spec(self@),
                placements@.len() == i,
                x == (i % 32) * 8,
                y == (i / 32) * 8,
                forall|j: int| 0 <= j < i ==> #[trigger] placements@[j] == (TilePlacement {
                    tile_index: tile_index_spec(bg_map_spec(self@)[j], tile_selection_spec(self@)) as usize,
                    x: ((j % 32) * 8) as u32,
                    y: ((j / 32) * 8) as u32,
                }),
            decreases 1024 - i,
        {
            let t = tile_index(background_map[i], selection);
            placements.push(TilePlacement { tile_index: t, x, y });
            x = x + 8;
            if x >= 32 * 8 {
                x = 0;
                y = y + 8;
            }
            i = i + 1;
        }
        placements
    }

    /// The image data of every background/window tile (256 bytes each).
    pub fn background_tile_images(&self) -> (r: Vec<Vec<u8>>)
        requires
            gameboy_wf(self@),
        ensures
            r@.len() == 256,
            forall|t: int| 0 <= t < 256 ==> (#[trigger] r@[t])@.len() == 256 && forall|k: int| 0 <= k < 256 ==> r@[t]@[k] == tile_byte(char_map_spec(self@), t, k),
    {
        let chars = self.bg_window_char_map_bytes();
        tiles_rgba(&chars)
    }
}

} // verus!
