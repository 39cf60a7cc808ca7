//! Turning tile data into RGBA image data: tiles, the background map, the visible
//! screen and the sprite layer.

use vstd::prelude::*;
use crate::bits::{bitvec_from_byte, bitvec_get, bitvec_bits, msb_bit, byte_bits_msb};
use crate::registers::add8;

verus! {

/// Bytes of image data per pixel (r, g, b, a).
pub const IMAGE_DATA_LENGTH_PER_PIXEL: usize = 4;
/// Bytes per tile (8 rows of two bytes).
pub const BYTES_PER_TILE: usize = 16;
/// Bytes of image data in one row of the background (256 pixels).
pub const BACKGROUND_ROW_BYTES: usize = 1024;
/// Bytes of image data of the whole background (256 rows).
pub const BACKGROUND_BYTES: usize = 262144;
/// Bytes of image data in one screen row (160 pixels).
pub const SCREEN_ROW_BYTES: usize = 640;
/// Bytes of image data of the whole screen (144 rows).
pub const SCREEN_BYTES: usize = 92160;

/// One entry of the object attribute memory.
#[derive(Clone, Copy, Debug)]
pub struct Sprite {
    pub y: u8,
    pub x: u8,
    pub pattern_num: u8,
    pub attributes: u8,
    pub priority: bool,
    pub y_flip: bool,
    pub x_flip: bool,
    pub palette_num: bool,
}

/// The grey level of a pixel from its low and high bit: white, light grey, dark grey,
/// black.
pub open spec fn shade(lo: bool, hi: bool) -> u8 {
    if !lo && !hi {
        255
    } else if !lo && hi {
        191
    } else if lo && !hi {
        64
    } else {
        0
    }
}

/// The 32 bytes of image data (8 pixels, RGBA) of a tile row given by its two bytes:
/// pixel `p` takes bit `7 - p` of each byte.
pub open spec fn row_rgba(lo: u8, hi: u8) -> Seq<u8> {
    Seq::new(32, |k: int| if k % 4 == 3 { 255u8 } else { shade(msb_bit(lo, k / 4), msb_bit(hi, k / 4)) })
}

/// Image data of a sequence of tile rows: each pair of bytes gives 32 bytes.
pub open spec fn image_data_spec(bytes: Seq<u8>) -> Seq<u8> {
    Seq::new(
        (bytes.len() / 2 * 32) as nat,
        |k: int| row_rgba(bytes[2 * (k / 32)], bytes[2 * (k / 32) + 1])[k % 32],
    )
}

/// The tile a background map entry refers to: the entry itself with unsigned
/// addressing (selection 1), otherwise the entry as a signed number plus 128.
pub open spec fn tile_index_spec(entry: u8, selection: u8) -> int {
    if selection == 1 {
        entry as int
    } else {
        (entry as i8) as int + 128
    }
}

/// Byte `k` of the background image: 256 rows of 32 tiles, each tile row 32 bytes.
pub open spec fn background_byte(map: Seq<u8>, chars: Seq<u8>, selection: u8, k: int) -> u8 {
    let y = k / 1024;
    let rem = k % 1024;
    let t = tile_index_spec(map[(y / 8) * 32 + rem / 32], selection);
    row_rgba(chars[16 * t + 2 * (y % 8)], chars[16 * t + 2 * (y % 8) + 1])[rem % 32]
}

/// The background image.
pub open spec fn background_spec(map: Seq<u8>, chars: Seq<u8>, selection: u8) -> Seq<u8> {
    Seq::new(BACKGROUND_BYTES as nat, |k: int| background_byte(map, chars, selection, k))
}

/// The background row shown on screen row `screen_y` (vertical scroll wraps at 256).
pub open spec fn scrolled_row(scroll_y: u8, screen_y: int) -> int {
    if scroll_y + screen_y > 255 {
        scroll_y + screen_y - 256
    } else {
        scroll_y + screen_y
    }
}

/// Whether the screen window stays inside the background image: the last background
/// row only has room for a horizontal scroll up to 96.
pub open spec fn screen_window_ok(scroll_x: u8, scroll_y: u8) -> bool {
    scroll_x <= 96 || scroll_y < 112
}

/// The visible screen cut from the background: 144 rows of 160 pixels starting at
/// (scroll_x, scroll_y), rows wrapping vertically.
pub open spec fn screen_spec(background: Seq<u8>, scroll_x: u8, scroll_y: u8) -> Seq<u8> {
    Seq::new(
        SCREEN_BYTES as nat,
        |k: int| background[scrolled_row(scroll_y, k / 640) * 1024 + scroll_x * 4 + k % 640],
    )
}

/// Byte `k` of tile `t`'s image data (256 bytes) in `chars`.
pub open spec fn tile_byte(chars: Seq<u8>, t: int, k: int) -> u8 {
    row_rgba(chars[16 * t + 2 * (k / 32)], chars[16 * t + 2 * (k / 32) + 1])[k % 32]
}

/// `buf` with 32 bytes at `start` replaced by `src`.
pub open spec fn splice32(buf: Seq<u8>, start: int, src: Seq<u8>) -> Seq<u8> {
    Seq::new(buf.len(), |i: int| if start <= i < start + 32 { src[i - start] } else { buf[i] })
}

/// Where row `row` of a sprite is written in the sprite layer.
pub open spec fn sprite_row_start(s: Sprite, row: int) -> int {
    add8(s.y as int, row) as int * 32 + s.x as int * 4
}

/// The 32 bytes written for row `row` of a sprite: tile data starting at byte `row` of
/// the sprite's tile.
pub open spec fn sprite_row_src(chars: Seq<u8>, s: Sprite, row: int) -> Seq<u8> {
    Seq::new(32, |i: int| tile_byte(chars, s.pattern_num as int, row + i))
}

/// The sprite layer after the first `n` sprite rows (8 per sprite, in OAM order) have
/// been written over a white screen.
pub open spec fn sprite_layer_spec(sprites: Seq<Sprite>, chars: Seq<u8>, n: int) -> Seq<u8>
    decreases n,
{
    if n <= 0 {
        Seq::new(SCREEN_BYTES as nat, |i: int| 255u8)
    } else {
        let s = sprites[(n - 1) / 8];
        let row = (n - 1) % 8;
        splice32(sprite_layer_spec(sprites, chars, n - 1), sprite_row_start(s, row), sprite_row_src(chars, s, row))
    }
}

/// Sprites over the screen: a pixel of the sprite layer whose red, green and blue are
/// all 255 shows the screen, any other shows the sprite layer.
pub open spec fn compose_spec(screen: Seq<u8>, layer: Seq<u8>) -> Seq<u8> {
    Seq::new(
        screen.len(),
        |k: int| {
            let base = k - k % 4;
            if layer[base] == 255 && layer[base + 1] == 255 && layer[base + 2] == 255 {
                screen[k]
            } else {
                layer[k]
            }
        },
    )
}

/// Appends the image data of one tile row, reading its bits with `BitVec`.
pub fn push_tile_row(out: &mut Vec<u8>, lo: u8, hi: u8)
    ensures
        final(out)@ == old(out)@ + row_rgba(lo, hi),
{
    let low_bits = bitvec_from_byte(lo);
    let high_bits = bitvec_from_byte(hi);
    let ghost start = old(out)@;
    let mut pixel_index: usize = 0;
    while pixel_index < 8
        invariant
            pixel_index <= 8,
            bitvec_bits(low_bits) == byte_bits_msb(lo),
            bitvec_bits(high_bits) == byte_bits_msb(hi),
            out@ == start + row_rgba(lo, hi).take(pixel_index as int * 4),
        decreases 8 - pixel_index,
    {
        let l = bitvec_get(&low_bits, pixel_index);
        let h = bitvec_get(&high_bits, pixel_index);
        let v: u8 = if !l && !h {
            255
        } else if !l && h {
            191
        } else if l && !h {
            64
        } else {
            0
        };
        out.push(v);
        out.push(v);
        out.push(v);
        out.push(255);
        pixel_index = pixel_index + 1;
        assert(out@ =~= start + row_rgba(lo, hi).take(pixel_index as int * 4));
    }
    assert(row_rgba(lo, hi).take(32) =~= row_rgba(lo, hi));
}

/// Image data of tile rows: every two bytes give 8 RGBA pixels.
pub fn pixels_to_image_data(pixels_as_byte_vec: Vec<u8>) -> (r: Vec<u8>)
    requires
        pixels_as_byte_vec@.len() % 2 == 0,
        pixels_as_byte_vec@.len() * 16 <= usize::MAX,
    ensures
        r@ == image_data_spec(pixels_as_byte_vec@),
{
    let bytes = &pixels_as_byte_vec;
    let mut image_data: Vec<u8> = Vec::new();
    let mut idx: usize = 0;
    while idx < bytes.len()
        invariant
            idx <= bytes.len(),
            idx % 2 == 0,
            bytes@.len() % 2 == 0,
            image_data@.len() == idx * 16,
            forall|k: int| 0 <= k < image_data@.len() ==> #[trigger] image_data@[k] == row_rgba(
                bytes@[2 * (k / 32)], bytes@[2 * (k / 32) + 1])[k % 32],
        decreases bytes.len() - idx,
    {
        let ghost before = image_data@;
        push_tile_row(&mut image_data, bytes[idx], bytes[idx + 1]);
        proof {
            assert forall|k: int| 0 <= k < image_data@.len() implies #[trigger] image_data@[k] == row_rgba(
                bytes@[2 * (k / 32)], bytes@[2 * (k / 32) + 1])[k % 32] by {
                if k >= before.len() {
                    assert(k / 32 == idx / 2);
                    assert(k % 32 == k - before.len());
                } else {
                    assert(image_data@[k] == before[k]);
                }
            }
        }
        idx = idx + 2;
    }
    assert(image_data@ =~= image_data_spec(bytes@));
    image_data
}

/// The tile a background map entry refers to (see [`tile_index_spec`]).
pub fn tile_index(entry: u8, selection: u8) -> (r: usize)
    ensures
        r as int == tile_index_spec(entry, selection),
        r < 256,
{
    if selection == 1 {
        entry as usize
    } else {
        ((entry as i8) as i16 + 128) as usize
    }
}

/// The background image (256 x 256 pixels, RGBA) drawn from a 32 x 32 tile map and
/// 256 tiles of data.
pub fn background_rgba(map: &Vec<u8>, chars: &Vec<u8>, selection: u8) -> (r: Vec<u8>)
    requires
        map@.len() == 1024,
        chars@.len() == 4096,
    ensures
        r@ == background_spec(map@, chars@, selection),
{
    let mut out: Vec<u8> = Vec::new();
    let mut y: usize = 0;
    while y < 256
        invariant
            y <= 256,
            map@.len() == 1024,
            chars@.len() == 4096,
            out@.len() == y * 1024,
            forall|k: int| 0 <= k < out@.len() ==> #[trigger] out@[k] == background_byte(map@, chars@, selection, k),
        decreases 256 - y,
    {
        let mut tx: usize = 0;
        while tx < 32
            invariant
                y < 256,
                tx <= 32,
                map@.len() == 1024,
                chars@.len() == 4096,
                out@.len() == y * 1024 + tx * 32,
                forall|k: int| 0 <= k < out@.len() ==> #[trigger] out@[k] == background_byte(map@, chars@, selection, k),
            decreases 32 - tx,
        {
            let entry = map[(y / 8) * 32 + tx];
            let t = tile_index(entry, selection);
            let row = 16 * t + 2 * (y % 8);
            let ghost before = out@;
            push_tile_row(&mut out, chars[row], chars[row + 1]);
            proof {
                assert forall|k: int| 0 <= k < out@.len() implies #[trigger] out@[k] == background_byte(map@, chars@, selection, k) by {
                    if k >= before.len() {
                        assert(k / 1024 == y);
                        assert((k % 1024) / 32 == tx);
                        assert((k % 1024) % 32 == k - before.len());
                    } else {
                        assert(out@[k] == before[k]);
                    }
                }
            }
            tx = tx + 1;
        }
        y = y + 1;
    }
    assert(out@ =~= background_spec(map@, chars@, selection));
    out
}

/// Cuts the visible screen (160 x 144 pixels) out of the background image.
pub fn screen_rgba(background: &Vec<u8>, scroll_x: u8, scroll_y: u8) -> (r: Vec<u8>)
    requires
        background@.len() == BACKGROUND_BYTES,
        screen_window_ok(scroll_x, scroll_y),
    ensures
        r@ == screen_spec(background@, scroll_x, scroll_y),
{
    let mut out: Vec<u8> = Vec::new();
    let x = scroll_x as usize;
    let sy = scroll_y as usize;
    let mut screen_y: usize = 0;
    while screen_y < 144
        invariant
            screen_y <= 144,
            background@.len() == BACKGROUND_BYTES,
            screen_window_ok(scroll_x, scroll_y),
            x == scroll_x,
            sy == scroll_y,
            out@.len() == screen_y * 640,
            forall|k: int| 0 <= k < out@.len() ==> #[trigger] out@[k] == background@[scrolled_row(scroll_y, k / 640) * 1024 + scroll_x * 4 + k % 640],
        decreases 144 - screen_y,
    {
        let y = if sy + screen_y > 255 { sy + screen_y - 256 } else { sy + screen_y };
        let start = y * 1024 + x * 4;
        let end = start + 640;
        let mut i = start;
        let ghost before = out@;
        while i < end
            invariant
                start <= i <= end,
                end == start + 640,
                end <= BACKGROUND_BYTES,
                background@.len() == BACKGROUND_BYTES,
                out@.len() == before.len() + (i - start),
                forall|k: int| 0 <= k < before.len() ==> out@[k] == before[k],
                forall|k: int| before.len() <= k < out@.len() ==> out@[k] == background@[start + (k - before.len())],
            decreases end - i,
        {
            out.push(background[i]);
            i = i + 1;
        }
        proof {
            assert(before.len() == screen_y * 640);
            assert(y as int == scrolled_row(scroll_y, screen_y as int));
            assert forall|k: int| 0 <= k < out@.len() implies #[trigger] out@[k] == background@[scrolled_row(scroll_y, k / 640) * 1024 + scroll_x * 4 + k % 640] by {
                if k >= before.len() {
                    assert(k / 640 == screen_y);
                    assert(k % 640 == k - before.len());
                    assert(out@[k] == background@[start + (k - before.len())]);
                    assert(start + (k - before.len()) == scrolled_row(scroll_y, k / 640) * 1024 + scroll_x * 4 + k % 640);
                } else {
                    assert(out@[k] == before[k]);
                }
            }
        }
        screen_y = screen_y + 1;
    }
    assert(out@ =~= screen_spec(background@, scroll_x, scroll_y));
    out
}

/// The image data of every tile (256 bytes each) in `chars`.
pub fn tiles_rgba(chars: &Vec<u8>) -> (r: Vec<Vec<u8>>)
    requires
        chars@.len() % 16 == 0,
        chars@.len() <= 4096,
    ensures
        r@.len() == chars@.len() / 16,
        forall|t: int| 0 <= t < r@.len() ==> (#[trigger] r@[t])@.len() == 256 && forall|k: int| 0 <= k < 256 ==> r@[t]@[k] == tile_byte(chars@, t, k),
{
    let mut tiles: Vec<Vec<u8>> = Vec::new();
    let mut idx: usize = 0;
    while idx < chars.len()
        invariant
            idx <= chars@.len(),
            idx % 16 == 0,
            chars@.len() % 16 == 0,
            chars@.len() <= 4096,
            tiles@.len() == idx / 16,
            forall|t: int| 0 <= t < tiles@.len() ==> (#[trigger] tiles@[t])@.len() == 256 && forall|k: int| 0 <= k < 256 ==> tiles@[t]@[k] == tile_byte(chars@, t, k),
        decreases chars@.len() - idx,
    {
        let mut image: Vec<u8> = Vec::new();
        let mut i: usize = 0;
        while i < 16
            invariant
                i <= 16,
                i % 2 == 0,
                idx % 16 == 0,
                chars@.len() <= 4096,
                idx + 16 <= chars@.len(),
                image@.len() == i * 16,
                forall|k: int| 0 <= k < image@.len() ==> #[trigger] image@[k] == tile_byte(chars@, idx as int / 16, k),
            decreases 16 - i,
        {
            let ghost before = image@;
            push_tile_row(&mut image, chars[idx + i], chars[idx + i + 1]);
            proof {
                assert forall|k: int| 0 <= k < image@.len() implies #[trigger] image@[k] == tile_byte(chars@, idx as int / 16, k) by {
                    if k >= before.len() {
                        assert(k / 32 == i / 2);
                        assert(k % 32 == k - before.len());
                        assert(16 * (idx as int / 16) == idx);
                    }
                }
            }
            i = i + 2;
        }
        tiles.push(image);
        idx = idx + 16;
    }
    tiles
}

/// The sprite layer: a white screen with 8 rows of every sprite written over it in
/// OAM order. A row is placed 32 bytes per line of the sprite's y and 4 bytes per unit
/// of its x, and takes the 32 bytes of tile data starting at byte `row` of its tile.
pub fn sprite_layer_rgba(sprites: &Vec<Sprite>, chars: &Vec<u8>) -> (r: Vec<u8>)
    requires
        chars@.len() == 4096,
        sprites@.len() <= 40,
    ensures
        r@ == sprite_layer_spec(sprites@, chars@, sprites@.len() as int * 8),
{
    let tiles_rgba_vec = tiles_rgba(chars);
    let mut screen: Vec<u8> = Vec::new();
    let mut i: usize = 0;
    while i < SCREEN_BYTES
        invariant
            i <= SCREEN_BYTES,
            screen@ =~= Seq::new(i as nat, |j: int| 255u8),
        decreases SCREEN_BYTES - i,
    {
        screen.push(255);
        i = i + 1;
    }
    assert(screen@ =~= sprite_layer_spec(sprites@, chars@, 0));
    let mut n: usize = 0;
    while n < sprites.len()
        invariant
            n <= sprites@.len(),
            sprites@.len() <= 40,
            chars@.len() == 4096,
            tiles_rgba_vec@.len() == 256,
            forall|t: int| 0 <= t < 256 ==> (#[trigger] tiles_rgba_vec@[t])@.len() == 256 && forall|k: int| 0 <= k < 256 ==> tiles_rgba_vec@[t]@[k] == tile_byte(chars@, t, k),
            screen@ == sprite_layer_spec(sprites@, chars@, n as int * 8),
        decreases sprites@.len() - n,
    {
        let obj = sprites[n];
        let tile_rgba = &tiles_rgba_vec[obj.pattern_num as usize];
        let mut obj_row: u8 = 0;
        while obj_row < 8
            invariant
                n < sprites@.len(),
                obj == sprites@[n as int],
                obj_row <= 8,
                tile_rgba@.len() == 256,
                forall|k: int| 0 <= k < 256 ==> tile_rgba@[k] == tile_byte(chars@, obj.pattern_num as int, k),
                screen@ == sprite_layer_spec(sprites@, chars@, n as int * 8 + obj_row as int),
            decreases 8 - obj_row,
        {
            proof {
                lemma_sprite_layer_len(sprites@, chars@, n as int * 8 + obj_row as int);
            }
            let y = obj.y.wrapping_add(obj_row);
            let start: usize = y as usize * 8 * IMAGE_DATA_LENGTH_PER_PIXEL + obj.x as usize * IMAGE_DATA_LENGTH_PER_PIXEL;
            let ghost before = screen@;
            let mut k: usize = 0;
            while k < 32
                invariant
                    k <= 32,
                    obj_row < 8,
                    start + 32 <= SCREEN_BYTES,
                    tile_rgba@.len() == 256,
                    screen@.len() == before.len(),
                    before.len() == SCREEN_BYTES,
                    forall|i: int| 0 <= i < screen@.len() ==> #[trigger] screen@[i] == if start <= i < start + k {
                        tile_rgba@[obj_row + (i - start)]
                    } else {
                        before[i]
                    },
                decreases 32 - k,
            {
                screen.set(start + k, tile_rgba[obj_row as usize + k]);
                k = k + 1;
            }
            proof {
                let m = n as int * 8 + obj_row as int;
                assert((m + 1 - 1) / 8 == n);
                assert((m + 1 - 1) % 8 == obj_row);
                assert(start as int == sprite_row_start(obj, obj_row as int));
                assert(screen@ =~= splice32(before, start as int, sprite_row_src(chars@, obj, obj_row as int)));
            }
            obj_row = obj_row + 1;
        }
        n = n + 1;
    }
    screen
}

/// The sprite layer always has the size of the screen.
pub proof fn lemma_sprite_layer_len(sprites: Seq<Sprite>, chars: Seq<u8>, n: int)
    ensures
        sprite_layer_spec(sprites, chars, n).len() == SCREEN_BYTES,
    decreases n,
{
    if n > 0 {
        lemma_sprite_layer_len(sprites, chars, n - 1);
    }
}

/// Sprites over the screen (see [`compose_spec`]).
pub fn compose_rgba(screen: &Vec<u8>, layer: &Vec<u8>) -> (r: Vec<u8>)
    requires
        screen@.len() == layer@.len(),
        screen@.len() % 4 == 0,
    ensures
        r@ == compose_spec(screen@, layer@),
{
    let mut result: Vec<u8> = Vec::new();
    let mut p: usize = 0;
    while p < screen.len()
        invariant
            p <= screen@.len(),
            p % 4 == 0,
            screen@.len() == layer@.len(),
            screen@.len() % 4 == 0,
            result@.len() == p,
            forall|k: int| 0 <= k < p ==> #[trigger] result@[k] == compose_spec(screen@, layer@)[k],
        decreases screen@.len() - p,
    {
        let r = layer[p];
        let g = layer[p + 1];
        let b = layer[p + 2];
        let white = r == 255 && g == 255 && b == 255;
        let mut c: usize = 0;
        while c < 4
            invariant
                c <= 4,
                p + 4 <= screen@.len(),
                p % 4 == 0,
                screen@.len() == layer@.len(),
                result@.len() == p + c,
                white == (layer@[p as int] == 255 && layer@[p + 1] == 255 && layer@[p + 2] == 255),
                forall|k: int| 0 <= k < p + c ==> #[trigger] result@[k] == compose_spec(screen@, layer@)[k],
            decreases 4 - c,
        {
            if white {
                result.push(screen[p + c]);
            } else {
                result.push(layer[p + c]);
            }
            proof {
                let k = p + c;
                assert(k - k % 4 == p);
            }
            c = c + 1;
        }
        p = p + 4;
    }
    assert(result@ =~= compose_spec(screen@, layer@));
    result
}

} // verus!
