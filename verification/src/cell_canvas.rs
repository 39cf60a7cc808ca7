//! A 16 x 8 canvas of cells showing one tile.

use vstd::prelude::*;
use crate::bits::{bitvec_from_byte, bitvec_get, bitvec_bits, msb_bit, byte_bits_msb};

verus! {

/// A cell's grey level.
#[derive(Clone, Copy, Debug, PartialEq, Eq)]
pub enum Cell {
    White,
    LightGray,
    DarkGray,
    Black,
}

/// The cell for a low bit and a high bit.
pub open spec fn cell_of(lo: bool, hi: bool) -> Cell {
    if !lo && !hi {
        Cell::White
    } else if !lo && hi {
        Cell::LightGray
    } else if lo && !hi {
        Cell::DarkGray
    } else {
        Cell::Black
    }
}

/// The 8 cells of a tile row given by its two bytes.
pub open spec fn cell_row_spec(first_b: u8, second_b: u8) -> Seq<Cell> {
    Seq::new(8, |i: int| cell_of(msb_bit(first_b, i), msb_bit(second_b, i)))
}

/// The cells of consecutive tile rows.
pub open spec fn cells_spec(bytes: Seq<u8>) -> Seq<Cell> {
    Seq::new(
        (bytes.len() / 2 * 8) as nat,
        |k: int| cell_row_spec(bytes[2 * (k / 8)], bytes[2 * (k / 8) + 1])[k % 8],
    )
}

/// The tile the canvas shows.
pub open spec fn sample_tile_spec() -> Seq<u8> {
    seq![0xFF, 0x00, 0x7E, 0xFF, 0x85, 0x81, 0x89, 0x83, 0x93, 0x85, 0xA5, 0x8B, 0xC9, 0x97, 0x7E, 0xFF]
}

/// A canvas of cells.
pub struct Canvas {
    pub width: u8,
    pub height: u8,
    pub cells: Vec<Vec<Cell>>,
}

impl Canvas {
    /// Index of a cell (row * width + column, in 8-bit arithmetic).
    pub fn get_index(&self, row: u8, column: u8) -> (r: usize)
        ensures
            r as int == ((row as int * self.width as int) % 256 + column as int) % 256,
    {
        let prod = row.wrapping_mul(self.width);
        prod.wrapping_add(column) as usize
    }

    pub fn width(&self) -> (r: u8)
        ensures
            r == self.width,
    {
        self.width
    }

    pub fn height(&self) -> (r: u8)
        ensures
            r == self.height,
    {
        self.height
    }

    /// A 16 x 8 canvas whose cells are one sample tile.
    pub fn new() -> (r: Canvas)
        ensures
            r.width == 16,
            r.height == 8,
            r.cells@.len() == 1,
            r.cells@[0]@ == cells_spec(sample_tile_spec()),
    {
        let width: u8 = 16;
        let height: u8 = 8;
        let bytes: Vec<u8> = vec![
            0xFF, 0x00, 0x7E, 0xFF, 0x85, 0x81, 0x89, 0x83, 0x93, 0x85, 0xA5, 0x8B, 0xC9, 0x97,
            0x7E, 0xFF,
        ];
        assert(bytes@ =~= sample_tile_spec());
        let tile_vec = Canvas::tile_vec(bytes);
        Canvas { width, height, cells: tile_vec }
    }

    /// The 8 cells of a tile row, read with `BitVec`.
    pub fn tile_row(first_b: u8, second_b: u8) -> (r: Vec<Cell>)
        ensures
            r@ == cell_row_spec(first_b, second_b),
    {
        let low_bits = bitvec_from_byte(first_b);
        let high_bits = bitvec_from_byte(second_b);
        let mut row: Vec<Cell> = Vec::new();
        let mut idx: usize = 0;
        while idx < 8
            invariant
                idx <= 8,
                bitvec_bits(low_bits) == byte_bits_msb(first_b),
                bitvec_bits(high_bits) == byte_bits_msb(second_b),
                row@ == cell_row_spec(first_b, second_b).take(idx as int),
            decreases 8 - idx,
        {
            let l = bitvec_get(&low_bits, idx);
            let h = bitvec_get(&high_bits, idx);
            let c = if !l && !h {
                Cell::White
            } else if !l && h {
                Cell::LightGray
            } else if l && !h {
                Cell::DarkGray
            } else {
                Cell::Black
            };
            row.push(c);
            idx = idx + 1;
            assert(row@ =~= cell_row_spec(first_b, second_b).take(idx as int));
        }
        assert(cell_row_spec(first_b, second_b).take(8) =~= cell_row_spec(first_b, second_b));
        row
    }

    /// All rows of the given tiles (16 bytes each) gathered into one entry.
    pub fn tile_vec(byte_vec: Vec<u8>) -> (r: Vec<Vec<Cell>>)
        requires
            byte_vec@.len() % 16 == 0,
        ensures
            r@.len() == 1,
            r@[0]@ == cells_spec(byte_vec@),
    {
        let mut tile: Vec<Cell> = Vec::new();
        let mut idx: usize = 0;
        while idx < byte_vec.len()
            invariant
                idx <= byte_vec@.len(),
                idx % 2 == 0,
                byte_vec@.len() % 16 == 0,
                tile@.len() == idx * 4,
                forall|k: int| 0 <= k < tile@.len() ==> #[trigger] tile@[k] == cell_row_spec(
                    byte_vec@[2 * (k / 8)], byte_vec@[2 * (k / 8) + 1])[k % 8],
            decreases byte_vec@.len() - idx,
        {
            let row = Canvas::tile_row(byte_vec[idx], byte_vec[idx + 1]);
            let ghost before = tile@;
            let mut j: usize = 0;
            while j < 8
                invariant
                    j <= 8,
                    row@ == cell_row_spec(byte_vec@[idx as int], byte_vec@[idx + 1]),
                    tile@ == before + row@.take(j as int),
                decreases 8 - j,
            {
                tile.push(row[j]);
                j = j + 1;
                assert(tile@ =~= before + row@.take(j as int));
            }
            proof {
                assert forall|k: int| 0 <= k < tile@.len() implies #[trigger] tile@[k] == cell_row_spec(
                    byte_vec@[2 * (k / 8)], byte_vec@[2 * (k / 8) + 1])[k % 8] by {
                    if k >= before.len() {
                        assert(k / 8 == idx / 2);
                        assert(k % 8 == k - before.len());
                    } else {
                        assert(tile@[k] == before[k]);
                    }
                }
            }
            idx = idx + 2;
        }
        assert(tile@ =~= cells_spec(byte_vec@));
        let mut tile_vec: Vec<Vec<Cell>> = Vec::new();
        tile_vec.push(tile);
        tile_vec
    }
}

} // verus!
