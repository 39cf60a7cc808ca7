//! A small canvas of the boot ROM experiment: the address space with the cartridge
//! header logo, and the logo decoded as tiles of pixels.

use vstd::prelude::*;
use crate::bits::{bitvec_from_byte, bitvec_get, bitvec_bits, msb_bit, byte_bits_msb};

verus! {

/// A pixel's grey level.
#[derive(Clone, Copy, Debug, PartialEq, Eq)]
pub enum Pixel {
    White,
    LightGray,
    DarkGray,
    Black,
}

/// The pixel for a low bit and a high bit.
pub open spec fn pixel_of(lo: bool, hi: bool) -> Pixel {
    if !lo && !hi {
        Pixel::White
    } else if !lo && hi {
        Pixel::LightGray
    } else if lo && !hi {
        Pixel::DarkGray
    } else {
        Pixel::Black
    }
}

/// The 8 pixels of a tile row given by its two bytes.
pub open spec fn pixel_row_spec(first_b: u8, second_b: u8) -> Seq<Pixel> {
    Seq::new(8, |i: int| pixel_of(msb_bit(first_b, i), msb_bit(second_b, i)))
}

/// The pixels of consecutive tile rows.
pub open spec fn pixels_spec(bytes: Seq<u8>) -> Seq<Pixel> {
    Seq::new(
        (bytes.len() / 2 * 8) as nat,
        |k: int| pixel_row_spec(bytes[2 * (k / 8)], bytes[2 * (k / 8) + 1])[k % 8],
    )
}

/// The Nintendo logo of the cartridge header.
pub open spec fn cartridge_header_spec() -> Seq<u8> {
    seq![
        0xce, 0xed, 0x66, 0x66, 0xcc, 0x0d, 0x00, 0x0b, 0x03, 0x73, 0x00, 0x83, 0x00, 0x0c,
        0x00, 0x0d, 0x00, 0x08, 0x11, 0x1f, 0x88, 0x89, 0x00, 0x0e, 0xdc, 0xcc, 0x6e, 0xe6,
        0xdd, 0xdd, 0xd9, 0x99, 0xbb, 0xbb, 0x67, 0x63, 0x6e, 0x0e, 0xec, 0xcc, 0xdd, 0xdc,
        0x99, 0x9f, 0xbb, 0xb9, 0x33, 0x3e,
    ]
}

/// The address space of the canvas: the boot ROM zero-filled (or cut) to 0xFFFF
/// bytes, with the logo at 0x104.
pub open spec fn canvas_memory_spec(boot_rom: Seq<u8>) -> Seq<u8> {
    Seq::new(
        0xffff,
        |i: int| if 0x104 <= i < 0x104 + 48 {
            cartridge_header_spec()[i - 0x104]
        } else if i < boot_rom.len() {
            boot_rom[i]
        } else {
            0u8
        },
    )
}

/// A canvas of pixels with its address space.
pub struct Canvas {
    pub width: u8,
    pub height: u8,
    pub pixels: Vec<Pixel>,
    pub memory: Vec<u8>,
}

impl Canvas {
    /// Index of a cell (row * width + column, in 8-bit arithmetic).
    pub fn get_index(&self, row: u8, column: u8) -> (r: usize)
        ensures
            r as int == ((row as int * self.width as int) % 256 + column as int) % 256,
    {
        let prod = row.wrapping_mul(self.width);
        prod.wrapping_add(column) as usize
    }

    pub fn width(&self) -> (r: u8)
        ensures
            r == self.width,
    {
        self.width
    }

    pub fn height(&self) -> (r: u8)
        ensures
            r == self.height,
    {
        self.height
    }

    /// A 160 x 144 canvas whose pixels are the logo's tiles.
    pub fn new(boot_rom: &[u8]) -> (r: Canvas)
        ensures
            r.width == 160,
            r.height == 144,
            r.memory@ == canvas_memory_spec(boot_rom@),
            r.pixels@ == pixels_spec(cartridge_header_spec()),
    {
        let cartrage_header: Vec<u8> = vec![
            0xce, 0xed, 0x66, 0x66, 0xcc, 0x0d, 0x00, 0x0b, 0x03, 0x73, 0x00, 0x83, 0x00, 0x0c,
            0x00, 0x0d, 0x00, 0x08, 0x11, 0x1f, 0x88, 0x89, 0x00, 0x0e, 0xdc, 0xcc, 0x6e, 0xe6,
            0xdd, 0xdd, 0xd9, 0x99, 0xbb, 0xbb, 0x67, 0x63, 0x6e, 0x0e, 0xec, 0xcc, 0xdd, 0xdc,
            0x99, 0x9f, 0xbb, 0xb9, 0x33, 0x3e,
        ];
        assert(cartrage_header@ =~= cartridge_header_spec());
        let full_memory_capacity: usize = 0xffff;
        let mut full_memory: Vec<u8> = Vec::new();
        let mut i: usize = 0;
        while i < full_memory_capacity
            invariant
                i <= full_memory_capacity,
                full_memory_capacity == 0xffff,
                full_memory@.len() == i,
                forall|k: int| 0 <= k < i ==> #[trigger] full_memory@[k] == (if k < boot_rom@.len() { boot_rom@[k] } else { 0u8 }),
            decreases full_memory_capacity - i,
        {
            if i < boot_rom.len() {
                full_memory.push(boot_rom[i]);
            } else {
                full_memory.push(0);
            }
            i = i + 1;
        }
        let mut idx: usize = 0;
        while idx < cartrage_header.len()
            invariant
                idx <= 48,
                cartrage_header@ == cartridge_header_spec(),
                full_memory@.len() == 0xffff,
                forall|k: int| 0 <= k < 0xffff ==> #[trigger] full_memory@[k] == (if 0x104 <= k < 0x104 + idx {
                    cartridge_header_spec()[k - 0x104]
                } else if k < boot_rom@.len() {
                    boot_rom@[k]
                } else {
                    0u8
                }),
            decreases 48 - idx,
        {
            full_memory.set(0x104 + idx, cartrage_header[idx]);
            idx = idx + 1;
        }
        assert(full_memory@ =~= canvas_memory_spec(boot_rom@));
        let pixels = Canvas::tile(cartrage_header);
        Canvas { width: 160, height: 144, pixels, memory: full_memory }
    }

    /// The 8 pixels of a tile row, read with `BitVec`.
    pub fn tile_row(first_b: u8, second_b: u8) -> (r: Vec<Pixel>)
        ensures
            r@ == pixel_row_spec(first_b, second_b),
    {
        let low_bits = bitvec_from_byte(first_b);
        let high_bits = bitvec_from_byte(second_b);
        let mut row: Vec<Pixel> = Vec::new();
        let mut idx: usize = 0;
        while idx < 8
            invariant
                idx <= 8,
                bitvec_bits(low_bits) == byte_bits_msb(first_b),
                bitvec_bits(high_bits) == byte_bits_msb(second_b),
                row@ == pixel_row_spec(first_b, second_b).take(idx as int),
            decreases 8 - idx,
        {
            let l = bitvec_get(&low_bits, idx);
            let h = bitvec_get(&high_bits, idx);
            let p = if !l && !h {
                Pixel::White
            } else if !l && h {
                Pixel::LightGray
            } else if l && !h {
                Pixel::DarkGray
            } else {
                Pixel::Black
            };
            row.push(p);
            idx = idx + 1;
            assert(row@ =~= pixel_row_spec(first_b, second_b).take(idx as int));
        }
        assert(pixel_row_spec(first_b, second_b).take(8) =~= pixel_row_spec(first_b, second_b));
        row
    }

    /// The pixels of whole tiles (16 bytes each), tile after tile.
    pub fn tile(byte_vec: Vec<u8>) -> (r: Vec<Pixel>)
        requires
            byte_vec@.len() % 16 == 0,
        ensures
            r@ == pixels_spec(byte_vec@),
    {
        let mut tile_vec: Vec<Pixel> = Vec::new();
        let mut idx: usize = 0;
        while idx < byte_vec.len()
            invariant
                idx <= byte_vec@.len(),
                idx % 2 == 0,
                byte_vec@.len() % 16 == 0,
                tile_vec@.len() == idx * 4,
                forall|k: int| 0 <= k < tile_vec@.len() ==> #[trigger] tile_vec@[k] == pixel_row_spec(
                    byte_vec@[2 * (k / 8)], byte_vec@[2 * (k / 8) + 1])[k % 8],
            decreases byte_vec@.len() - idx,
        {
            let row = Canvas::tile_row(byte_vec[idx], byte_vec[idx + 1]);
            let ghost before = tile_vec@;
            let mut j: usize = 0;
            while j < 8
                invariant
                    j <= 8,
                    row@ == pixel_row_spec(byte_vec@[idx as int], byte_vec@[idx + 1]),
                    tile_vec@ == before + row@.take(j as int),
                decreases 8 - j,
            {
                tile_vec.push(row[j]);
                j = j + 1;
                assert(tile_vec@ =~= before + row@.take(j as int));
            }
            proof {
                assert forall|k: int| 0 <= k < tile_vec@.len() implies #[trigger] tile_vec@[k] == pixel_row_spec(
                    byte_vec@[2 * (k / 8)], byte_vec@[2 * (k / 8) + 1])[k % 8] by {
                    if k >= before.len() {
                        assert(k / 8 == idx / 2);
                        assert(k % 8 == k - before.len());
                    } else {
                        assert(tile_vec@[k] == before[k]);
                    }
                }
            }
            idx = idx + 2;
        }
        assert(tile_vec@ =~= pixels_spec(byte_vec@));
        tile_vec
    }
}

} // verus!
