//! The way back, in ghost code only: the text that spells given bytes and
//! the bytes that spell a given view. Nothing here runs; it states that the
//! decoder reaches every byte sequence and every view, and undoes the
//! encoding exactly.

use vstd::prelude::*;
use crate::alphabet::{in_alphabet, value_of};
use crate::base64::{
    all_in_alphabet, alphabet_text_byte_len, decoded, decoded_len, packed, packed_byte, values_of,
};
use crate::codes::{item_of, passage_of, Passage, RadarItem};
use crate::error::DecodeError;
use crate::grids::{cell_code, two_bits, word_of};
use crate::view::{spells, RadarView};

verus! {

/// The character of the alphabet that has the 6-bit value `value`.
pub open spec fn char_of(value: u8) -> char
    recommends
        value < 64,
{
    if value < 26 {
        ((value + 97) as u8) as char
    } else if value < 52 {
        ((value - 26 + 65) as u8) as char
    } else if value < 62 {
        ((value - 52 + 48) as u8) as char
    } else if value == 62 {
        '+'
    } else {
        '/'
    }
}

/// `char_of` picks a character of the alphabet, and the one with the value
/// asked for.
pub proof fn char_of_has_its_value(value: u8)
    requires
        value < 64,
    ensures
        in_alphabet(char_of(value)),
        value_of(char_of(value)) == value,
{
}

/// Number of characters that spell `n` bytes: four for every three bytes,
/// then two for one last byte and three for two last bytes.
pub open spec fn encoded_len(n: nat) -> nat {
    4 * (n / 3) + if n % 3 == 1 {
        2nat
    } else if n % 3 == 2 {
        3nat
    } else {
        0nat
    }
}

/// Byte `i` of `bytes`, or zero past their end.
pub open spec fn byte_or_zero(bytes: Seq<u8>, i: int) -> u8 {
    if 0 <= i < bytes.len() {
        bytes[i]
    } else {
        0
    }
}

/// The 6-bit value at position `j` of the text that spells `bytes`: the bits
/// of the bytes, six at a time, from the most significant bit of the first
/// byte on.
pub open spec fn spread_value(bytes: Seq<u8>, j: int) -> u8 {
    let g = 3 * (j / 4);
    let b0 = byte_or_zero(bytes, g);
    let b1 = byte_or_zero(bytes, g + 1);
    let b2 = byte_or_zero(bytes, g + 2);
    if j % 4 == 0 {
        b0 >> 2
    } else if j % 4 == 1 {
        ((b0 & 0x03) << 4) | (b1 >> 4)
    } else if j % 4 == 2 {
        ((b1 & 0x0F) << 2) | (b2 >> 6)
    } else {
        b2 & 0x3F
    }
}

/// The text that spells `bytes`.
pub open spec fn encoded(bytes: Seq<u8>) -> Seq<char> {
    Seq::new(encoded_len(bytes.len()), |j: int| char_of(spread_value(bytes, j)))
}

/// Splitting three bytes into four 6-bit values and joining them again
/// gives the three bytes back.
proof fn group_round_trip(b0: u8, b1: u8, b2: u8)
    ensures
        ({
            let v0: u8 = b0 >> 2;
            let v1: u8 = ((b0 & 0x03) << 4) | (b1 >> 4);
            let v2: u8 = ((b1 & 0x0F) << 2) | (b2 >> 6);
            let v3: u8 = b2 & 0x3F;
            &&& v0 < 64 && v1 < 64 && v2 < 64 && v3 < 64
            &&& (v0 << 2) | (v1 >> 4) == b0
            &&& ((v1 & 0x0F) << 4) | (v2 >> 2) == b1
            &&& ((v2 & 0x03) << 6) | v3 == b2
        }),
{
    assert({
        let v0: u8 = b0 >> 2;
        let v1: u8 = ((b0 & 0x03) << 4) | (b1 >> 4);
        let v2: u8 = ((b1 & 0x0F) << 2) | (b2 >> 6);
        let v3: u8 = b2 & 0x3F;
        &&& v0 < 64 && v1 < 64 && v2 < 64 && v3 < 64
        &&& (v0 << 2) | (v1 >> 4) == b0
        &&& ((v1 & 0x0F) << 4) | (v2 >> 2) == b1
        &&& ((v2 & 0x03) << 6) | v3 == b2
    }) by (bit_vector);
}

/// Every value of the spelling text fits in six bits.
pub proof fn spread_values_are_six_bits(bytes: Seq<u8>, j: int)
    ensures
        spread_value(bytes, j) < 64,
{
    let g = 3 * (j / 4);
    group_round_trip(
        byte_or_zero(bytes, g),
        byte_or_zero(bytes, g + 1),
        byte_or_zero(bytes, g + 2),
    );
}

/// Decoding undoes encoding: the text that spells `bytes` lies within the
/// alphabet, has an accepted length, and decodes to exactly `bytes`.
pub proof fn decoding_inverts_encoding(bytes: Seq<u8>)
    ensures
        all_in_alphabet(encoded(bytes)),
        encoded(bytes).len() % 4 != 1,
        decoded(encoded(bytes)) == Ok::<Seq<u8>, DecodeError>(bytes),
{
    let text = encoded(bytes);
    let n = bytes.len();
    assert forall|j: int| 0 <= j < text.len() implies in_alphabet(#[trigger] text[j])
        && value_of(text[j]) == spread_value(bytes, j) by {
        spread_values_are_six_bits(bytes, j);
        char_of_has_its_value(spread_value(bytes, j));
    }
    alphabet_text_byte_len(text);
    let values = values_of(text);
    assert(decoded_len(text.len()) == n);
    assert forall|k: int| 0 <= k < n implies packed_byte(values, k) == bytes[k] by {
        let g = 3 * (k / 3);
        let j = 4 * (k / 3);
        assert(j / 4 == k / 3);
        assert(j + 1 < text.len());
        assert((j + 1) / 4 == k / 3 && (j + 2) / 4 == k / 3 && (j + 3) / 4 == k / 3);
        assert(j % 4 == 0 && (j + 1) % 4 == 1 && (j + 2) % 4 == 2 && (j + 3) % 4 == 3);
        group_round_trip(
            byte_or_zero(bytes, g),
            byte_or_zero(bytes, g + 1),
            byte_or_zero(bytes, g + 2),
        );
        assert(values[j] == spread_value(bytes, j));
        assert(values[j + 1] == spread_value(bytes, j + 1));
        if k % 3 >= 1 {
            assert(j + 2 < text.len());
            assert(values[j + 2] == spread_value(bytes, j + 2));
        }
        if k % 3 == 2 {
            assert(j + 3 < text.len());
            assert(values[j + 3] == spread_value(bytes, j + 3));
        }
    }
    assert(packed(values) =~= bytes);
}

/// The code that spells a passage.
pub open spec fn passage_code(passage: Passage) -> u8 {
    match passage {
        Passage::Undefined => 0,
        Passage::Open => 1,
        Passage::Wall => 2,
    }
}

/// The code that spells what a cell holds; the undefined item is spelled 15.
pub open spec fn item_code(item: RadarItem) -> u8 {
    match item {
        RadarItem::Empty => 0,
        RadarItem::Ally => 1,
        RadarItem::Enemy => 2,
        RadarItem::Monster => 3,
        RadarItem::Hint => 4,
        RadarItem::HintWithAlly => 5,
        RadarItem::HintWithEnemy => 6,
        RadarItem::HintWithMonster => 7,
        RadarItem::Goal => 8,
        RadarItem::GoalWithAlly => 9,
        RadarItem::GoalWithEnemy => 10,
        RadarItem::GoalWithMonster => 11,
        RadarItem::Undefined => 15,
    }
}

/// Each table reads back the code that spells a value.
pub proof fn tables_invert_codes(passage: Passage, item: RadarItem)
    ensures
        passage_code(passage) < 4,
        passage_of(passage_code(passage)) == passage,
        item_code(item) < 16,
        item_of(item_code(item)) == item,
{
}

/// Byte `i` of the 24-bit word that holds twelve 2-bit codes, code `k` at
/// bit `2k`: four codes to a byte, the first in the lowest bits.
pub open spec fn codes_byte(codes: Seq<u8>, i: int) -> u8 {
    codes[4 * i] | (codes[4 * i + 1] << 2) | (codes[4 * i + 2] << 4) | (codes[4 * i + 3] << 6)
}

/// The three bytes that hold twelve 2-bit codes.
pub open spec fn codes_bytes(codes: Seq<u8>) -> Seq<u8> {
    Seq::new(3, |i: int| codes_byte(codes, i))
}

/// The codes of the horizontal passages of `view`, row by row.
pub open spec fn horizontal_codes(view: RadarView) -> Seq<u8> {
    Seq::new(12, |k: int| passage_code(view.horizontal_passages[k / 3][k % 3]))
}

/// The codes of the vertical passages of `view`, row by row.
pub open spec fn vertical_codes(view: RadarView) -> Seq<u8> {
    Seq::new(12, |k: int| passage_code(view.vertical_passages[k / 4][k % 4]))
}

/// The five bytes that hold the codes of the cells of `view`, row by row,
/// two to a byte and the first in the high half; the last half is zero.
pub open spec fn cells_bytes(view: RadarView) -> Seq<u8> {
    Seq::new(
        5,
        |i: int|
            {
                let high = item_code(view.cells[(2 * i) / 3][(2 * i) % 3]);
                let low = if i < 4 {
                    item_code(view.cells[(2 * i + 1) / 3][(2 * i + 1) % 3])
                } else {
                    0u8
                };
                (high << 4) | low
            },
    )
}

/// The eleven bytes that spell `view`.
pub open spec fn view_bytes(view: RadarView) -> Seq<u8> {
    codes_bytes(horizontal_codes(view)) + codes_bytes(vertical_codes(view)) + cells_bytes(view)
}

/// Twelve 2-bit codes put into three bytes are found again, code `k` in the
/// two bits at `2k` of the word that the bytes spell.
proof fn codes_are_found_again(codes: Seq<u8>, k: int)
    requires
        codes.len() == 12,
        forall|i: int| 0 <= i < 12 ==> codes[i] < 4,
        0 <= k < 12,
    ensures
        two_bits(word_of(codes_bytes(codes)), (2 * k) as u32) == codes[k],
{
    let bytes = codes_bytes(codes);
    let i = k / 4;
    let c0: u8 = codes[4 * i];
    let c1: u8 = codes[4 * i + 1];
    let c2: u8 = codes[4 * i + 2];
    let c3: u8 = codes[4 * i + 3];
    let byte: u8 = bytes[i];
    assert(byte == c0 | (c1 << 2) | (c2 << 4) | (c3 << 6));
    assert((byte >> 0) & 0b11 == c0 && (byte >> 2) & 0b11 == c1 && (byte >> 4) & 0b11 == c2 && (byte
        >> 6) & 0b11 == c3) by (bit_vector)
        requires
            byte == c0 | (c1 << 2) | (c2 << 4) | (c3 << 6),
            c0 < 4,
            c1 < 4,
            c2 < 4,
            c3 < 4,
    ;
    let b0: u8 = bytes[0];
    let b1: u8 = bytes[1];
    let b2: u8 = bytes[2];
    let word: u32 = word_of(bytes);
    let s: u32 = (2 * (k % 4)) as u32;
    assert(((word >> s) & 0b11) as u8 == (b0 >> (s as u8)) & 0b11 && ((word >> ((s + 8) as u32))
        & 0b11) as u8 == (b1 >> (s as u8)) & 0b11 && ((word >> ((s + 16) as u32)) & 0b11) as u8 == (
    b2 >> (s as u8)) & 0b11) by (bit_vector)
        requires
            s <= 6,
            word == b0 as u32 + 256 * (b1 as u32) + 65536 * (b2 as u32),
    ;
}

/// Every view is spelled by its eleven bytes.
pub proof fn every_view_is_spelled(view: RadarView)
    ensures
        view_bytes(view).len() == 11,
        spells(view_bytes(view), view),
{
    let bytes = view_bytes(view);
    let h = horizontal_codes(view);
    let v = vertical_codes(view);
    assert(bytes.subrange(0, 3) =~= codes_bytes(h));
    assert(bytes.subrange(3, 6) =~= codes_bytes(v));
    assert(bytes.subrange(6, 11) =~= cells_bytes(view));
    assert forall|k: int| 0 <= k < 12 implies h[k] < 4 && v[k] < 4 by {
        tables_invert_codes(view.horizontal_passages[k / 3][k % 3], RadarItem::Empty);
        tables_invert_codes(view.vertical_passages[k / 4][k % 4], RadarItem::Empty);
    }
    assert forall|r: int, c: int| 0 <= r < 4 && 0 <= c < 3 implies #[trigger]
        view.horizontal_passages[r][c] == passage_of(
        two_bits(word_of(codes_bytes(h)), (6 * r + 2 * c) as u32),
    ) by {
        let k = 3 * r + c;
        assert(k / 3 == r && k % 3 == c);
        codes_are_found_again(h, k);
        tables_invert_codes(view.horizontal_passages[r][c], RadarItem::Empty);
    }
    assert forall|r: int, c: int| 0 <= r < 3 && 0 <= c < 4 implies #[trigger]
        view.vertical_passages[r][c] == passage_of(
        two_bits(word_of(codes_bytes(v)), (8 * r + 2 * c) as u32),
    ) by {
        let k = 4 * r + c;
        assert(k / 4 == r && k % 4 == c);
        codes_are_found_again(v, k);
        tables_invert_codes(view.vertical_passages[r][c], RadarItem::Empty);
    }
    assert forall|r: int, c: int| 0 <= r < 3 && 0 <= c < 3 implies #[trigger] view.cells[r][c]
        == item_of(cell_code(cells_bytes(view), 3 * r + c)) by {
        let k = 3 * r + c;
        let i = k / 2;
        let high: u8 = item_code(view.cells[(2 * i) / 3][(2 * i) % 3]);
        let low: u8 = if i < 4 {
            item_code(view.cells[(2 * i + 1) / 3][(2 * i + 1) % 3])
        } else {
            0u8
        };
        tables_invert_codes(Passage::Open, view.cells[(2 * i) / 3][(2 * i) % 3]);
        if i < 4 {
            tables_invert_codes(Passage::Open, view.cells[(2 * i + 1) / 3][(2 * i + 1) % 3]);
        }
        assert((((high << 4) | low) >> 4) & 0x0F == high && ((high << 4) | low) & 0x0F == low)
            by (bit_vector)
            requires
                high < 16,
                low < 16,
        ;
        assert(cells_bytes(view)[i] == (high << 4) | low);
        tables_invert_codes(Passage::Open, view.cells[r][c]);
    }
}

/// The round trip: a view written as bytes, and the bytes as text, decodes
/// to those bytes, and they spell the view.
pub proof fn decoding_inverts_encoding_of_a_view(view: RadarView)
    ensures
        decoded(encoded(view_bytes(view))) == Ok::<Seq<u8>, DecodeError>(view_bytes(view)),
        view_bytes(view).len() == 11,
        spells(view_bytes(view), view),
{
    decoding_inverts_encoding(view_bytes(view));
    every_view_is_spelled(view);
}

} // verus!
