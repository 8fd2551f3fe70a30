//! The radar view: one snapshot of what surrounds the agent, put together
//! from eleven bytes.

use vstd::prelude::*;
use vstd::slice::slice_subrange;
use crate::base64::{decode_b64, decoded};
use crate::codes::{Passage, RadarItem};
use crate::error::DecodeError;
use crate::grids::{
    cell_code, extract_cells, extract_horizontal_passages, extract_vertical_passages,
    is_cell_grid, is_horizontal_grid, is_vertical_grid, two_bits, word_of,
};

verus! {

/// Number of bytes that spell a radar view: three for each passage grid and
/// five for the cells.
pub const VIEW_BYTES: usize = 11;

/// What the agent sees around it: the passages between the cells of a
/// three by three window, and what each of those cells holds.
#[derive(Debug)]
pub struct RadarView {
    /// Passages crossed when moving up or down: four rows of three.
    pub horizontal_passages: [[Passage; 3]; 4],
    /// Passages crossed when moving left or right: three rows of four.
    pub vertical_passages: [[Passage; 4]; 3],
    /// Contents of the cells: three rows of three.
    pub cells: [[RadarItem; 3]; 3],
}

/// Whether `view` is the radar view that `bytes` spell: bytes 0 to 2 hold
/// the horizontal passages, bytes 3 to 5 the vertical passages and bytes 6
/// to 10 the cells. Bytes from the twelfth on play no part.
pub open spec fn spells(bytes: Seq<u8>, view: RadarView) -> bool {
    &&& is_horizontal_grid(view.horizontal_passages, bytes.subrange(0, 3))
    &&& is_vertical_grid(view.vertical_passages, bytes.subrange(3, 6))
    &&& is_cell_grid(view.cells, bytes.subrange(6, 11))
}

/// Whether `result` is what assembling a radar view from `bytes` gives:
/// the view that they spell where there are at least eleven of them, and
/// otherwise the report of how many there were.
pub open spec fn assembled(bytes: Seq<u8>, result: Result<RadarView, DecodeError>) -> bool {
    if bytes.len() < VIEW_BYTES {
        result == Err::<RadarView, DecodeError>(
            DecodeError::InsufficientData { actual: bytes.len() as usize, required: VIEW_BYTES },
        )
    } else {
        result is Ok && spells(bytes, result->Ok_0)
    }
}

impl Clone for RadarView {
    fn clone(&self) -> (copy: RadarView)
        ensures
            copy == *self,
    {
        RadarView {
            horizontal_passages: self.horizontal_passages,
            vertical_passages: self.vertical_passages,
            cells: self.cells,
        }
    }
}

impl RadarView {
    /// Assembles a radar view from decoded bytes.
    pub fn from_bytes(bytes: &[u8]) -> (result: Result<RadarView, DecodeError>)
        ensures
            assembled(bytes@, result),
    {
        if bytes.len() < VIEW_BYTES {
            return Err(
                DecodeError::InsufficientData { actual: bytes.len(), required: VIEW_BYTES },
            );
        }
        let horizontal_passages = extract_horizontal_passages(slice_subrange(bytes, 0, 3));
        let vertical_passages = extract_vertical_passages(slice_subrange(bytes, 3, 6));
        let cells = extract_cells(slice_subrange(bytes, 6, 11));
        Ok(RadarView { horizontal_passages, vertical_passages, cells })
    }
}

/// Decoding is a function of the bytes: two views that the same bytes spell
/// are equal.
pub proof fn spelled_view_is_unique(bytes: Seq<u8>, a: RadarView, b: RadarView)
    requires
        spells(bytes, a),
        spells(bytes, b),
    ensures
        a == b,
{
    assert forall|r: int| 0 <= r < 4 implies a.horizontal_passages[r]
        == b.horizontal_passages[r] by {
        assert forall|c: int| 0 <= c < 3 implies a.horizontal_passages[r][c]
            == b.horizontal_passages[r][c] by {}
        assert(a.horizontal_passages[r] =~= b.horizontal_passages[r]);
    }
    assert(a.horizontal_passages =~= b.horizontal_passages);
    assert forall|r: int| 0 <= r < 3 implies a.vertical_passages[r] == b.vertical_passages[r] by {
        assert forall|c: int| 0 <= c < 4 implies a.vertical_passages[r][c]
            == b.vertical_passages[r][c] by {}
        assert(a.vertical_passages[r] =~= b.vertical_passages[r]);
    }
    assert(a.vertical_passages =~= b.vertical_passages);
    assert forall|r: int| 0 <= r < 3 implies a.cells[r] == b.cells[r] by {
        assert forall|c: int| 0 <= c < 3 implies a.cells[r][c] == b.cells[r][c] by {}
        assert(a.cells[r] =~= b.cells[r]);
    }
    assert(a.cells =~= b.cells);
}

/// Only the first eleven bytes count: bytes that agree on them spell the
/// same view.
pub proof fn bytes_past_the_view_are_ignored(a: Seq<u8>, b: Seq<u8>, view: RadarView)
    requires
        a.len() >= VIEW_BYTES,
        b.len() >= VIEW_BYTES,
        a.take(11) == b.take(11),
        spells(a, view),
    ensures
        spells(b, view),
{
    assert forall|i: int| 0 <= i < 11 implies a[i] == b[i] by {
        assert(a.take(11)[i] == a[i]);
        assert(b.take(11)[i] == b[i]);
    }
    assert(a.subrange(0, 3) =~= b.subrange(0, 3));
    assert(a.subrange(3, 6) =~= b.subrange(3, 6));
    assert(a.subrange(6, 11) =~= b.subrange(6, 11));
}

/// Eleven zero bytes spell the blank view: every passage undefined and
/// every cell empty.
pub proof fn zero_bytes_spell_the_blank_view(bytes: Seq<u8>, view: RadarView)
    requires
        bytes.len() >= VIEW_BYTES,
        forall|i: int| 0 <= i < 11 ==> bytes[i] == 0,
        spells(bytes, view),
    ensures
        forall|r: int, c: int|
            0 <= r < 4 && 0 <= c < 3 ==> view.horizontal_passages[r][c] == Passage::Undefined,
        forall|r: int, c: int|
            0 <= r < 3 && 0 <= c < 4 ==> view.vertical_passages[r][c] == Passage::Undefined,
        forall|r: int, c: int| 0 <= r < 3 && 0 <= c < 3 ==> view.cells[r][c] == RadarItem::Empty,
{
    assert(word_of(bytes.subrange(0, 3)) == 0);
    assert(word_of(bytes.subrange(3, 6)) == 0);
    assert forall|s: u32| s < 32 implies #[trigger] two_bits(0, s) == 0 by {
        assert(((0u32 >> s) & 0b11) as u8 == 0) by (bit_vector)
            requires
                s < 32,
        ;
    }
    assert forall|r: int, c: int| 0 <= r < 4 && 0 <= c < 3 implies view.horizontal_passages[r][c]
        == Passage::Undefined by {
        assert(two_bits(0, (6 * r + 2 * c) as u32) == 0);
    }
    assert forall|r: int, c: int| 0 <= r < 3 && 0 <= c < 4 implies view.vertical_passages[r][c]
        == Passage::Undefined by {
        assert(two_bits(0, (8 * r + 2 * c) as u32) == 0);
    }
    assert((0u8 >> 4) & 0x0F == 0 && 0u8 & 0x0F == 0) by (bit_vector);
    assert forall|r: int, c: int| 0 <= r < 3 && 0 <= c < 3 implies view.cells[r][c]
        == RadarItem::Empty by {
        let k = 3 * r + c;
        assert(bytes.subrange(6, 11)[k / 2] == 0);
        assert(cell_code(bytes.subrange(6, 11), k) == 0);
    }
}

/// Decodes a radar view from its text form.
pub fn decode_radar_view(encoded: &str) -> (result: Result<RadarView, DecodeError>)
    ensures
        match decoded(encoded@) {
            Ok(bytes) => assembled(bytes, result),
            Err(e) => result == Err::<RadarView, DecodeError>(e),
        },
{
    match decode_b64(encoded) {
        Ok(bytes) => RadarView::from_bytes(bytes.as_slice()),
        Err(e) => Err(e),
    }
}

} // verus!
