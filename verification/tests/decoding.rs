use maze_radar::base64::{decode_b64, pack_values, text_values};
use maze_radar::codes::{Passage, RadarItem};
use maze_radar::error::DecodeError;
use maze_radar::grids::{extract_cells, extract_horizontal_passages, extract_vertical_passages};
use maze_radar::view::{decode_radar_view, RadarView, VIEW_BYTES};

const ALPHABET: &[u8; 64] = b"abcdefghijklmnopqrstuvwxyzABCDEFGHIJKLMNOPQRSTUVWXYZ0123456789+/";

/// Writes bytes as text of the variant, without padding.
fn encode_b64(bytes: &[u8]) -> String {
    let mut text = String::new();
    for group in bytes.chunks(3) {
        let b0 = group[0];
        let b1 = if group.len() > 1 { group[1] } else { 0 };
        let b2 = if group.len() > 2 { group[2] } else { 0 };
        let values = [b0 >> 2, ((b0 & 0x03) << 4) | (b1 >> 4), ((b1 & 0x0F) << 2) | (b2 >> 6), b2 & 0x3F];
        for value in values.iter().take(group.len() + 1) {
            text.push(ALPHABET[*value as usize] as char);
        }
    }
    text
}

/// Writes grid codes as the eleven bytes of a radar view.
fn pack_view(horizontal: [[u8; 3]; 4], vertical: [[u8; 4]; 3], cells: [[u8; 3]; 3]) -> Vec<u8> {
    let mut h: u32 = 0;
    for r in 0..4 {
        for c in 0..3 {
            h |= (horizontal[r][c] as u32) << (r * 6 + c * 2);
        }
    }
    let mut v: u32 = 0;
    for r in 0..3 {
        for c in 0..4 {
            v |= (vertical[r][c] as u32) << (r * 8 + c * 2);
        }
    }
    let mut bytes = vec![h as u8, (h >> 8) as u8, (h >> 16) as u8, v as u8, (v >> 8) as u8, (v >> 16) as u8];
    let mut nibbles: Vec<u8> = Vec::new();
    for r in 0..3 {
        for c in 0..3 {
            nibbles.push(cells[r][c]);
        }
    }
    nibbles.push(0);
    for pair in nibbles.chunks(2) {
        bytes.push((pair[0] << 4) | pair[1]);
    }
    bytes
}

fn passage(code: u8) -> Passage {
    match code {
        1 => Passage::Open,
        2 => Passage::Wall,
        _ => Passage::Undefined,
    }
}

const ITEMS: [RadarItem; 13] = [
    RadarItem::Empty,
    RadarItem::Ally,
    RadarItem::Enemy,
    RadarItem::Monster,
    RadarItem::Hint,
    RadarItem::HintWithAlly,
    RadarItem::HintWithEnemy,
    RadarItem::HintWithMonster,
    RadarItem::Goal,
    RadarItem::GoalWithAlly,
    RadarItem::GoalWithEnemy,
    RadarItem::GoalWithMonster,
    RadarItem::Undefined,
];

fn expect_view(view: &RadarView, horizontal: [[u8; 3]; 4], vertical: [[u8; 4]; 3], cells: [[u8; 3]; 3]) {
    for r in 0..4 {
        for c in 0..3 {
            assert_eq!(view.horizontal_passages[r][c], passage(horizontal[r][c]), "horizontal {} {}", r, c);
        }
    }
    for r in 0..3 {
        for c in 0..4 {
            assert_eq!(view.vertical_passages[r][c], passage(vertical[r][c]), "vertical {} {}", r, c);
        }
    }
    for r in 0..3 {
        for c in 0..3 {
            let code = cells[r][c] as usize;
            let item = if code < 12 { ITEMS[code] } else { RadarItem::Undefined };
            assert_eq!(view.cells[r][c], item, "cell {} {}", r, c);
        }
    }
}

#[test]
fn empty_text_decodes_to_no_bytes() {
    assert_eq!(decode_b64(""), Ok(Vec::new()));
}

#[test]
fn empty_text_is_too_short_for_a_view() {
    let error = decode_radar_view("").unwrap_err();
    assert_eq!(error, DecodeError::InsufficientData { actual: 0, required: 11 });
}

#[test]
fn group_of_two_gives_one_byte() {
    assert_eq!(decode_b64("ab"), Ok(vec![0]));
    assert_eq!(decode_b64("/+"), Ok(vec![255]));
}

#[test]
fn group_of_three_gives_two_bytes() {
    assert_eq!(decode_b64("zZ9"), Ok(vec![103, 63]));
    assert_eq!(decode_b64("//8"), Ok(vec![255, 255]));
}

#[test]
fn group_of_four_gives_three_bytes() {
    assert_eq!(decode_b64("abcd"), Ok(vec![0, 16, 131]));
    assert_eq!(decode_b64("////"), Ok(vec![255, 255, 255]));
}

#[test]
fn several_groups_with_a_short_last_one() {
    assert_eq!(decode_b64("Rust2024+/"), Ok(vec![173, 68, 147, 219, 77, 184, 251]));
    assert_eq!(
        decode_b64("ieysGjGO8papd/a"),
        Ok(vec![32, 70, 18, 128, 152, 40, 240, 240, 15, 15, 240])
    );
}

#[test]
fn decoded_length_follows_the_text_length() {
    for len in 0usize..40 {
        if len % 4 == 1 {
            continue;
        }
        let text: String = (0..len).map(|i| ALPHABET[(i * 7) % 64] as char).collect();
        let bytes = decode_b64(&text).unwrap();
        let tail = match len % 4 {
            0 => 0,
            2 => 1,
            _ => 2,
        };
        assert_eq!(bytes.len(), 3 * (len / 4) + tail);
        assert_eq!(bytes.len(), (3 * len) / 4);
    }
}

#[test]
fn one_leftover_character_is_an_invalid_length() {
    assert_eq!(decode_b64("AAAAA"), Err(DecodeError::InvalidLength));
    assert_eq!(decode_b64("a"), Err(DecodeError::InvalidLength));
    assert_eq!(decode_b64("abcdefghi"), Err(DecodeError::InvalidLength));
    assert_eq!(decode_radar_view("AAAAA").unwrap_err(), DecodeError::InvalidLength);
}

#[test]
fn invalid_character_is_named() {
    assert_eq!(decode_b64("AAA#"), Err(DecodeError::InvalidCharacter('#')));
    assert_eq!(decode_radar_view("AAA#").unwrap_err(), DecodeError::InvalidCharacter('#'));
}

#[test]
fn padding_character_is_not_accepted() {
    assert_eq!(decode_b64("ab=="), Err(DecodeError::InvalidCharacter('=')));
}

#[test]
fn first_invalid_character_wins() {
    assert_eq!(decode_b64("ab!c?d"), Err(DecodeError::InvalidCharacter('!')));
    assert_eq!(decode_b64("abcdefg-"), Err(DecodeError::InvalidCharacter('-')));
}

#[test]
fn length_is_checked_before_characters() {
    assert_eq!(decode_b64("#"), Err(DecodeError::InvalidLength));
    assert_eq!(decode_b64("####!"), Err(DecodeError::InvalidLength));
}

#[test]
fn length_counts_bytes_of_text_outside_ascii() {
    // Two characters, three bytes: no leftover by bytes.
    assert_eq!(decode_b64("aé"), Err(DecodeError::InvalidCharacter('é')));
    // Four characters, five bytes: one leftover by bytes.
    assert_eq!(decode_b64("abcé"), Err(DecodeError::InvalidLength));
    // Five characters, six bytes.
    assert_eq!(decode_b64("abcdé"), Err(DecodeError::InvalidCharacter('é')));
    assert_eq!(decode_b64("漢"), Err(DecodeError::InvalidCharacter('漢')));
}

#[test]
fn text_values_reads_every_character() {
    assert_eq!(text_values(""), Ok(Vec::new()));
    assert_eq!(text_values("azAZ09+/"), Ok(vec![0, 25, 26, 51, 52, 61, 62, 63]));
    assert_eq!(text_values("a"), Ok(vec![0]));
    assert_eq!(text_values("ab cd"), Err(DecodeError::InvalidCharacter(' ')));
}

#[test]
fn pack_values_joins_six_bit_values() {
    assert_eq!(pack_values(&[]), Vec::<u8>::new());
    assert_eq!(pack_values(&[0, 1]), vec![0]);
    assert_eq!(pack_values(&[25, 51, 61]), vec![103, 63]);
    assert_eq!(pack_values(&[0, 1, 2, 3]), vec![0, 16, 131]);
    assert_eq!(pack_values(&[63, 63, 63, 63, 63, 62]), vec![255, 255, 255, 255]);
}

#[test]
fn decoder_inverts_the_encoder() {
    for len in 0usize..64 {
        let bytes: Vec<u8> = (0..len).map(|i| (i * 37 + len * 11) as u8).collect();
        assert_eq!(decode_b64(&encode_b64(&bytes)), Ok(bytes));
    }
}

#[test]
fn horizontal_passages_from_three_bytes() {
    let grid = extract_horizontal_passages(&[0x06, 0x00, 0x80]);
    let expected = [
        [Passage::Wall, Passage::Open, Passage::Undefined],
        [Passage::Undefined, Passage::Undefined, Passage::Undefined],
        [Passage::Undefined, Passage::Undefined, Passage::Undefined],
        [Passage::Undefined, Passage::Undefined, Passage::Wall],
    ];
    assert_eq!(grid, expected);
}

#[test]
fn horizontal_passages_cross_byte_borders() {
    // Codes by row: 0 3 1, 2 2 2, 1 1 1, 0 2 3.
    let grid = extract_horizontal_passages(&[0x9C, 0x5A, 0xE1]);
    let expected = [
        [Passage::Undefined, Passage::Undefined, Passage::Open],
        [Passage::Wall, Passage::Wall, Passage::Wall],
        [Passage::Open, Passage::Open, Passage::Open],
        [Passage::Undefined, Passage::Wall, Passage::Undefined],
    ];
    assert_eq!(grid, expected);
}

#[test]
fn vertical_passages_from_three_bytes() {
    // Codes by row: 0 1 2 3, 3 2 1 0, 3 0 1 2.
    let grid = extract_vertical_passages(&[0xE4, 0x1B, 0x93]);
    let expected = [
        [Passage::Undefined, Passage::Open, Passage::Wall, Passage::Undefined],
        [Passage::Undefined, Passage::Wall, Passage::Open, Passage::Undefined],
        [Passage::Undefined, Passage::Undefined, Passage::Open, Passage::Wall],
    ];
    assert_eq!(grid, expected);
}

#[test]
fn the_two_passage_grids_read_the_same_word_differently() {
    let data = [0x40, 0x00, 0x00];
    // Bits 6 and 7 hold code 1: row 1, column 0 of the horizontal grid, and
    // row 0, column 3 of the vertical grid.
    let horizontal = extract_horizontal_passages(&data);
    let vertical = extract_vertical_passages(&data);
    assert_eq!(horizontal[1][0], Passage::Open);
    assert_eq!(horizontal[0][2], Passage::Undefined);
    assert_eq!(vertical[0][3], Passage::Open);
    assert_eq!(vertical[1][0], Passage::Undefined);
}

#[test]
fn cells_take_the_high_half_first() {
    let grid = extract_cells(&[0x01, 0x23, 0x45, 0x67, 0x8F]);
    let expected = [
        [RadarItem::Empty, RadarItem::Ally, RadarItem::Enemy],
        [RadarItem::Monster, RadarItem::Hint, RadarItem::HintWithAlly],
        [RadarItem::HintWithEnemy, RadarItem::HintWithMonster, RadarItem::Goal],
    ];
    assert_eq!(grid, expected);
}

#[test]
fn tenth_half_byte_is_ignored() {
    let with_zero = extract_cells(&[0x9A, 0xBC, 0xDE, 0xF0, 0x10]);
    let with_ones = extract_cells(&[0x9A, 0xBC, 0xDE, 0xF0, 0x1F]);
    assert_eq!(with_zero, with_ones);
    let expected = [
        [RadarItem::GoalWithAlly, RadarItem::GoalWithEnemy, RadarItem::GoalWithMonster],
        [RadarItem::Undefined, RadarItem::Undefined, RadarItem::Undefined],
        [RadarItem::Undefined, RadarItem::Empty, RadarItem::Ally],
    ];
    assert_eq!(with_zero, expected);
}

#[test]
fn extractors_read_only_the_bytes_they_need() {
    let long = [0x06, 0x00, 0x80, 0xFF, 0xFF, 0xFF];
    assert_eq!(extract_horizontal_passages(&long), extract_horizontal_passages(&long[0..3]));
    assert_eq!(extract_vertical_passages(&long), extract_vertical_passages(&long[0..3]));
}

#[test]
fn view_takes_eleven_bytes() {
    assert_eq!(VIEW_BYTES, 11);
    for len in 0usize..11 {
        let bytes = vec![0xA5u8; len];
        let error = RadarView::from_bytes(&bytes).unwrap_err();
        assert_eq!(error, DecodeError::InsufficientData { actual: len, required: 11 });
    }
    assert!(RadarView::from_bytes(&[0xA5u8; 11]).is_ok());
}

#[test]
fn ten_decoded_bytes_are_insufficient() {
    let zeros = encode_b64(&[0u8; 10]);
    assert_eq!(zeros, "aaaaaaaaaaaaaa");
    assert_eq!(
        decode_radar_view(&zeros).unwrap_err(),
        DecodeError::InsufficientData { actual: 10, required: 11 }
    );
    let ones = encode_b64(&[0xFFu8; 10]);
    assert_eq!(
        decode_radar_view(&ones).unwrap_err(),
        DecodeError::InsufficientData { actual: 10, required: 11 }
    );
}

#[test]
fn eleven_zero_bytes_give_the_blank_view() {
    let text = encode_b64(&[0u8; 11]);
    assert_eq!(text, "aaaaaaaaaaaaaaa");
    let view = decode_radar_view(&text).unwrap();
    assert_eq!(view.horizontal_passages, [[Passage::Undefined; 3]; 4]);
    assert_eq!(view.vertical_passages, [[Passage::Undefined; 4]; 3]);
    assert_eq!(view.cells, [[RadarItem::Empty; 3]; 3]);
}

#[test]
fn view_from_a_known_text() {
    // Bytes 06 00 80, E4 1B 93, 01 23 45 67 8F.
    let view = decode_radar_view("bGca5bUtasnfz48").unwrap();
    expect_view(
        &view,
        [[2, 1, 0], [0, 0, 0], [0, 0, 0], [0, 0, 2]],
        [[0, 1, 2, 3], [3, 2, 1, 0], [3, 0, 1, 2]],
        [[0, 1, 2], [3, 4, 5], [6, 7, 8]],
    );
}

#[test]
fn bytes_past_the_eleventh_are_ignored() {
    // Bytes DE AD BE, EF 00 11, 22 33 44 55 66, then 77.
    let view = decode_radar_view("3Q2+7WariJnevwz3").unwrap();
    expect_view(
        &view,
        [[2, 3, 1], [3, 1, 3], [2, 2, 2], [3, 3, 2]],
        [[3, 3, 2, 3], [0, 0, 0, 0], [1, 0, 1, 0]],
        [[2, 2, 3], [3, 4, 4], [5, 5, 6]],
    );
    let mut bytes = vec![0xDE, 0xAD, 0xBE, 0xEF, 0x00, 0x11, 0x22, 0x33, 0x44, 0x55, 0x66];
    let short = RadarView::from_bytes(&bytes).unwrap();
    bytes.extend_from_slice(&[0x77, 0x88, 0x99]);
    let long = RadarView::from_bytes(&bytes).unwrap();
    assert_eq!(short.horizontal_passages, long.horizontal_passages);
    assert_eq!(short.vertical_passages, long.vertical_passages);
    assert_eq!(short.cells, long.cells);
}

#[test]
fn round_trip_of_known_grids() {
    let horizontal = [[1, 2, 0], [2, 2, 1], [0, 1, 1], [2, 0, 1]];
    let vertical = [[2, 1, 1, 0], [0, 2, 1, 2], [1, 1, 2, 2]];
    let cells = [[0, 1, 2], [4, 15, 9], [11, 8, 3]];
    let bytes = pack_view(horizontal, vertical, cells);
    assert_eq!(bytes.len(), 11);
    let view = decode_radar_view(&encode_b64(&bytes)).unwrap();
    expect_view(&view, horizontal, vertical, cells);
}

#[test]
fn round_trip_of_every_code_in_every_slot() {
    for code in 0u8..16 {
        for slot in 0usize..12 {
            let mut horizontal = [[0u8; 3]; 4];
            let mut vertical = [[0u8; 4]; 3];
            let mut cells = [[0u8; 3]; 3];
            horizontal[slot / 3][slot % 3] = code & 3;
            vertical[slot / 4][slot % 4] = (code >> 2) & 3;
            cells[(slot % 9) / 3][slot % 3] = code;
            let bytes = pack_view(horizontal, vertical, cells);
            let view = decode_radar_view(&encode_b64(&bytes)).unwrap();
            expect_view(&view, horizontal, vertical, cells);
        }
    }
}

#[test]
fn decoding_twice_gives_the_same_view() {
    let first = decode_radar_view("ieysGjGO8papd/a").unwrap();
    let second = decode_radar_view("ieysGjGO8papd/a").unwrap();
    assert_eq!(first.horizontal_passages, second.horizontal_passages);
    assert_eq!(first.vertical_passages, second.vertical_passages);
    assert_eq!(first.cells, second.cells);
}

#[test]
fn cloned_view_equals_its_source() {
    let view = decode_radar_view("bGca5bUtasnfz48").unwrap();
    let copy = view.clone();
    assert_eq!(copy.horizontal_passages, view.horizontal_passages);
    assert_eq!(copy.vertical_passages, view.vertical_passages);
    assert_eq!(copy.cells, view.cells);
}

#[test]
fn items_are_reachable_from_the_crate_root() {
    let view: maze_radar::RadarView = maze_radar::decode_radar_view("aaaaaaaaaaaaaaa").unwrap();
    assert_eq!(view.cells[1][1], maze_radar::RadarItem::Empty);
    assert_eq!(view.vertical_passages[2][3], maze_radar::Passage::Undefined);
    assert_eq!(maze_radar::decode_radar_view("a").unwrap_err(), maze_radar::DecodeError::InvalidLength);
}
