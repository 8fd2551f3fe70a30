//! The three grids of a radar view, each unpacked from its own bytes: the
//! two passage grids from a 24-bit word at two bits per passage, the cell
//! grid from five bytes at four bits per cell.

use vstd::prelude::*;
use crate::codes::{item_of, passage_of, Passage, RadarItem};

verus! {

/// The 24-bit word that the first three bytes of `data` spell, the first
/// byte being the least significant.
pub open spec fn word_of(data: Seq<u8>) -> u32 {
    (data[0] as int + 256 * (data[1] as int) + 65536 * (data[2] as int)) as u32
}

/// The two bits of `word` that start at bit `shift`.
pub open spec fn two_bits(word: u32, shift: u32) -> u8 {
    ((word >> shift) & 0b11) as u8
}

/// Whether `grid` is the grid of horizontal passages that `data` spells: the
/// passage in row `r` and column `c` is coded by the two bits at `6r + 2c`.
pub open spec fn is_horizontal_grid(grid: [[Passage; 3]; 4], data: Seq<u8>) -> bool {
    forall|r: int, c: int|
        0 <= r < 4 && 0 <= c < 3 ==> #[trigger] grid[r][c] == passage_of(
            two_bits(word_of(data), (6 * r + 2 * c) as u32),
        )
}

/// Reads the three bytes as one little-endian word.
fn read_word(data: &[u8]) -> (word: u32)
    requires
        data@.len() >= 3,
    ensures
        word == word_of(data@),
{
    let b0: u32 = data[0] as u32;
    let b1: u32 = data[1] as u32;
    let b2: u32 = data[2] as u32;
    assert(b0 | (b1 << 8) | (b2 << 16) == b0 + 256 * b1 + 65536 * b2) by (bit_vector)
        requires
            b0 < 256,
            b1 < 256,
            b2 < 256,
    ;
    b0 | (b1 << 8) | (b2 << 16)
}

/// Unpacks the grid of horizontal passages, four rows of three, from the
/// first three bytes of `data`.
pub fn extract_horizontal_passages(data: &[u8]) -> (grid: [[Passage; 3]; 4])
    requires
        data@.len() >= 3,
    ensures
        is_horizontal_grid(grid, data@),
{
    let word: u32 = read_word(data);
    let mut grid: [[Passage; 3]; 4] = [[Passage::Undefined; 3]; 4];
    for row in 0..4usize
        invariant
            word == word_of(data@),
            forall|r: int, c: int|
                0 <= r < row && 0 <= c < 3 ==> #[trigger] grid[r][c] == passage_of(
                    two_bits(word, (6 * r + 2 * c) as u32),
                ),
    {
        for col in 0..3usize
            invariant
                row < 4,
                word == word_of(data@),
                forall|r: int, c: int|
                    0 <= r < row && 0 <= c < 3 ==> #[trigger] grid[r][c] == passage_of(
                        two_bits(word, (6 * r + 2 * c) as u32),
                    ),
                forall|c: int|
                    0 <= c < col ==> #[trigger] grid[row as int][c] == passage_of(
                        two_bits(word, (6 * row + 2 * c) as u32),
                    ),
        {
            let shift: u32 = (row * 6 + col * 2) as u32;
            let code: u8 = ((word >> shift) & 0b11) as u8;
            grid[row][col] = Passage::from(code);
        }
    }
    grid
}

/// Whether `grid` is the grid of vertical passages that `data` spells: the
/// passage in row `r` and column `c` is coded by the two bits at `8r + 2c`.
pub open spec fn is_vertical_grid(grid: [[Passage; 4]; 3], data: Seq<u8>) -> bool {
    forall|r: int, c: int|
        0 <= r < 3 && 0 <= c < 4 ==> #[trigger] grid[r][c] == passage_of(
            two_bits(word_of(data), (8 * r + 2 * c) as u32),
        )
}

/// Unpacks the grid of vertical passages, three rows of four, from the
/// first three bytes of `data`.
pub fn extract_vertical_passages(data: &[u8]) -> (grid: [[Passage; 4]; 3])
    requires
        data@.len() >= 3,
    ensures
        is_vertical_grid(grid, data@),
{
    let word: u32 = read_word(data);
    let mut grid: [[Passage; 4]; 3] = [[Passage::Undefined; 4]; 3];
    for row in 0..3usize
        invariant
            word == word_of(data@),
            forall|r: int, c: int|
                0 <= r < row && 0 <= c < 4 ==> #[trigger] grid[r][c] == passage_of(
                    two_bits(word, (8 * r + 2 * c) as u32),
                ),
    {
        for col in 0..4usize
            invariant
                row < 3,
                word == word_of(data@),
                forall|r: int, c: int|
                    0 <= r < row && 0 <= c < 4 ==> #[trigger] grid[r][c] == passage_of(
                        two_bits(word, (8 * r + 2 * c) as u32),
                    ),
                forall|c: int|
                    0 <= c < col ==> #[trigger] grid[row as int][c] == passage_of(
                        two_bits(word, (8 * row + 2 * c) as u32),
                    ),
        {
            let shift: u32 = (row * 8 + col * 2) as u32;
            let code: u8 = ((word >> shift) & 0b11) as u8;
            grid[row][col] = Passage::from(code);
        }
    }
    grid
}

/// The code of cell `k`, counting the cells row by row: the high half of
/// byte `k / 2` where `k` is even, its low half where `k` is odd.
pub open spec fn cell_code(data: Seq<u8>, k: int) -> u8 {
    if k % 2 == 0 {
        (data[k / 2] >> 4) & 0x0F
    } else {
        data[k / 2] & 0x0F
    }
}

/// Whether `grid` is the grid of cells that `data` spells: the cell in row
/// `r` and column `c` is cell `3r + c`.
pub open spec fn is_cell_grid(grid: [[RadarItem; 3]; 3], data: Seq<u8>) -> bool {
    forall|r: int, c: int|
        0 <= r < 3 && 0 <= c < 3 ==> #[trigger] grid[r][c] == item_of(cell_code(data, 3 * r + c))
}

/// Unpacks the grid of cells, three rows of three, from the first five
/// bytes of `data`. The low half of the fifth byte is not read.
pub fn extract_cells(data: &[u8]) -> (grid: [[RadarItem; 3]; 3])
    requires
        data@.len() >= 5,
    ensures
        is_cell_grid(grid, data@),
{
    let mut grid: [[RadarItem; 3]; 3] = [[RadarItem::Undefined; 3]; 3];
    let mut cell_index: usize = 0;
    for i in 0..5usize
        invariant
            data@.len() >= 5,
            cell_index == if i < 5 {
                2 * i
            } else {
                9
            },
            forall|r: int, c: int|
                0 <= r < 3 && 0 <= c < 3 && 3 * r + c < cell_index ==> #[trigger] grid[r][c]
                    == item_of(cell_code(data@, 3 * r + c)),
    {
        let byte: u8 = data[i];
        if cell_index < 9 {
            let row: usize = cell_index / 3;
            let col: usize = cell_index % 3;
            grid[row][col] = RadarItem::from((byte >> 4) & 0x0F);
            cell_index = cell_index + 1;
        }
        if cell_index < 9 {
            let row: usize = cell_index / 3;
            let col: usize = cell_index % 3;
            grid[row][col] = RadarItem::from(byte & 0x0F);
            cell_index = cell_index + 1;
        }
    }
    grid
}

/// No passage straddles two bytes. Passage `k` of the horizontal grid,
/// counting row by row, is coded by two bits of byte `k / 4`, and the passage
/// in row `r` and column `c` of the vertical grid by two bits of byte `r`.
pub proof fn passage_bits_lie_in_one_byte(data: Seq<u8>, r: int, c: int)
    requires
        data.len() >= 3,
        0 <= r < 4,
        0 <= c < 4,
    ensures
        c < 3 ==> two_bits(word_of(data), (6 * r + 2 * c) as u32) == (data[(3 * r + c) / 4] >> (2
            * ((3 * r + c) % 4)) as u8) & 0b11,
        r < 3 ==> two_bits(word_of(data), (8 * r + 2 * c) as u32) == (data[r] >> (2 * c) as u8)
            & 0b11,
{
    let b0: u8 = data[0];
    let b1: u8 = data[1];
    let b2: u8 = data[2];
    let word: u32 = word_of(data);
    assert(word == (b0 as u32) | ((b1 as u32) << 8) | ((b2 as u32) << 16)) by (bit_vector)
        requires
            word == b0 as u32 + 256 * (b1 as u32) + 65536 * (b2 as u32),
    ;
    assert forall|s: u32| s <= 6 implies {
        &&& #[trigger] two_bits(word, s) == (b0 >> (s as u8)) & 0b11
        &&& two_bits(word, (s + 8) as u32) == (b1 >> (s as u8)) & 0b11
        &&& two_bits(word, (s + 16) as u32) == (b2 >> (s as u8)) & 0b11
    } by {
        assert(((word >> s) & 0b11) as u8 == (b0 >> (s as u8)) & 0b11 && ((word >> ((s + 8) as u32))
            & 0b11) as u8 == (b1 >> (s as u8)) & 0b11 && ((word >> ((s + 16) as u32)) & 0b11) as u8
            == (b2 >> (s as u8)) & 0b11) by (bit_vector)
            requires
                s <= 6,
                word == (b0 as u32) | ((b1 as u32) << 8) | ((b2 as u32) << 16),
        ;
    }
    if c < 3 {
        let k = 3 * r + c;
        let s: u32 = (2 * (k % 4)) as u32;
        assert(two_bits(word, s) == (b0 >> (s as u8)) & 0b11);
    }
    if r < 3 {
        let s: u32 = (2 * c) as u32;
        assert(two_bits(word, s) == (b0 >> (s as u8)) & 0b11);
    }
}

} // verus!
