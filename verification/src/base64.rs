//! The unpadded base64 variant: text is read in groups of up to four
//! characters, each worth six bits, and every group of two, three or four
//! characters yields one, two or three bytes.

use vstd::prelude::*;
use vstd::std_specs::iter::IteratorSpec;
use vstd::utf8::{encode_utf8, is_ascii_chars, is_ascii_chars_encode_utf8};
use crate::alphabet::{char_to_value, in_alphabet, value_of};
use crate::error::DecodeError;

verus! {

/// Whether every character of `text` belongs to the alphabet.
pub open spec fn all_in_alphabet(text: Seq<char>) -> bool {
    forall|i: int| 0 <= i < text.len() ==> in_alphabet(#[trigger] text[i])
}

/// Whether `i` is the position of the first character of `text` that is
/// outside the alphabet.
pub open spec fn is_first_invalid(text: Seq<char>, i: int) -> bool {
    &&& 0 <= i < text.len()
    &&& !in_alphabet(text[i])
    &&& forall|j: int| 0 <= j < i ==> in_alphabet(#[trigger] text[j])
}

/// The position of the first character of `text` that is outside the
/// alphabet, where there is one.
pub open spec fn first_invalid(text: Seq<char>) -> int {
    choose|i: int| is_first_invalid(text, i)
}

/// The 6-bit values of the characters of `text`, in order.
pub open spec fn values_of(text: Seq<char>) -> Seq<u8> {
    Seq::new(text.len(), |i: int| value_of(text[i]) as u8)
}

/// Reads the 6-bit value of every character of `encoded`, stopping at the
/// first character outside the alphabet.
pub fn text_values(encoded: &str) -> (result: Result<Vec<u8>, DecodeError>)
    ensures
        match result {
            Ok(values) => all_in_alphabet(encoded@) && values@ == values_of(encoded@),
            Err(e) => exists|i: int|
                is_first_invalid(encoded@, i) && e == DecodeError::InvalidCharacter(encoded@[i]),
        },
{
    let mut values: Vec<u8> = Vec::new();
    let mut chars = encoded.chars();
    loop
        invariant
            values@.len() <= encoded@.len(),
            chars.remaining() == encoded@.skip(values@.len() as int),
            values@ == values_of(encoded@.take(values@.len() as int)),
            all_in_alphabet(encoded@.take(values@.len() as int)),
        decreases encoded@.len() - values@.len(),
    {
        let ghost done = values@.len() as int;
        match chars.next() {
            None => {
                assert(encoded@.take(done) == encoded@);
                return Ok(values);
            },
            Some(c) => {
                assert(c == encoded@[done]);
                match char_to_value(c) {
                    Ok(value) => {
                        values.push(value);
                        assert(encoded@.skip(done).drop_first() == encoded@.skip(done + 1));
                        assert(encoded@.take(done + 1) == encoded@.take(done).push(c));
                        assert(values@ == values_of(encoded@.take(done + 1)));
                    },
                    Err(e) => {
                        assert(is_first_invalid(encoded@, done)) by {
                            assert forall|j: int| 0 <= j < done implies in_alphabet(
                                #[trigger] encoded@[j],
                            ) by {
                                assert(encoded@.take(done)[j] == encoded@[j]);
                            }
                        }
                        return Err(e);
                    },
                }
            },
        }
    }
}

/// Number of bytes that `n` 6-bit values hold: three for every full group of
/// four, then one for a last group of two and two for a last group of three.
pub open spec fn decoded_len(n: nat) -> nat {
    3 * (n / 4) + if n % 4 == 2 {
        1nat
    } else if n % 4 == 3 {
        2nat
    } else {
        0nat
    }
}

/// Byte `k` of what `values` hold. Byte `k` lies in group `k / 3`, whose
/// values are `v0` to `v3`: its first byte is `(v0 << 2) | (v1 >> 4)`, its
/// second `((v1 & 0x0F) << 4) | (v2 >> 2)`, its third `((v2 & 0x03) << 6) | v3`.
pub open spec fn packed_byte(values: Seq<u8>, k: int) -> u8 {
    let g = 4 * (k / 3);
    if k % 3 == 0 {
        (values[g] << 2) | (values[g + 1] >> 4)
    } else if k % 3 == 1 {
        ((values[g + 1] & 0x0F) << 4) | (values[g + 2] >> 2)
    } else {
        ((values[g + 2] & 0x03) << 6) | values[g + 3]
    }
}

/// The bytes that a sequence of 6-bit values holds.
pub open spec fn packed(values: Seq<u8>) -> Seq<u8> {
    Seq::new(decoded_len(values.len()), |k: int| packed_byte(values, k))
}

/// Joins 6-bit values into bytes, group by group.
pub fn pack_values(values: &[u8]) -> (bytes: Vec<u8>)
    requires
        values@.len() % 4 != 1,
    ensures
        bytes@ == packed(values@),
{
    let n: usize = values.len();
    let mut bytes: Vec<u8> = Vec::new();
    let mut i: usize = 0;
    while i < n
        invariant
            n == values@.len(),
            n % 4 != 1,
            i <= n,
            i % 4 == 0 || i == n,
            bytes@.len() == decoded_len(i as nat),
            forall|k: int| 0 <= k < bytes@.len() ==> bytes@[k] == packed_byte(values@, k),
        decreases n - i,
    {
        let ghost k0 = bytes@.len() as int;
        let remaining: usize = n - i;
        let v0: u8 = values[i];
        let v1: u8 = values[i + 1];
        bytes.push((v0 << 2) | (v1 >> 4));
        assert(k0 / 3 == i / 4 && k0 % 3 == 0);
        if remaining >= 3 {
            let v2: u8 = values[i + 2];
            bytes.push(((v1 & 0x0F) << 4) | (v2 >> 2));
            assert((k0 + 1) / 3 == i / 4 && (k0 + 1) % 3 == 1);
            if remaining >= 4 {
                let v3: u8 = values[i + 3];
                bytes.push(((v2 & 0x03) << 6) | v3);
                assert((k0 + 2) / 3 == i / 4 && (k0 + 2) % 3 == 2);
            }
        }
        if remaining >= 4 {
            i = i + 4;
        } else {
            i = n;
        }
    }
    assert(bytes@ =~= packed(values@));
    bytes
}

/// Length of `text` as the decoder counts it: the number of bytes of its
/// UTF-8 form, which for text within the alphabet is its number of
/// characters.
pub open spec fn byte_len(text: Seq<char>) -> nat {
    encode_utf8(text).len()
}

/// What decoding `text` gives. A length that leaves one character in the
/// last group is reported before any character is looked at; then the first
/// character outside the alphabet is reported; otherwise the values of the
/// characters are joined into bytes.
pub open spec fn decoded(text: Seq<char>) -> Result<Seq<u8>, DecodeError> {
    if byte_len(text) % 4 == 1 {
        Err(DecodeError::InvalidLength)
    } else if !all_in_alphabet(text) {
        Err(DecodeError::InvalidCharacter(text[first_invalid(text)]))
    } else {
        Ok(packed(values_of(text)))
    }
}

/// Text outside the alphabet has exactly one first invalid position, and
/// `first_invalid` names it.
pub proof fn first_invalid_is_unique(text: Seq<char>, i: int)
    requires
        is_first_invalid(text, i),
    ensures
        !all_in_alphabet(text),
        first_invalid(text) == i,
{
    let j = first_invalid(text);
    assert(is_first_invalid(text, j));
    if j < i {
        assert(in_alphabet(text[j]));
    } else if i < j {
        assert(in_alphabet(text[i]));
    }
}

/// ASCII text is as many bytes long as it has characters, so that its
/// length is refused exactly where its number of characters leaves one over.
pub proof fn ascii_text_byte_len(text: Seq<char>)
    requires
        is_ascii_chars(text),
    ensures
        byte_len(text) == text.len(),
        decoded(text) == Err::<Seq<u8>, DecodeError>(DecodeError::InvalidLength) <==> text.len()
            % 4 == 1,
{
    is_ascii_chars_encode_utf8(text);
}

/// Text within the alphabet is ASCII, and so as many bytes long as it has
/// characters.
pub proof fn alphabet_text_byte_len(text: Seq<char>)
    requires
        all_in_alphabet(text),
    ensures
        is_ascii_chars(text),
        byte_len(text) == text.len(),
{
    assert(is_ascii_chars(text)) by {
        assert forall|i: int| 0 <= i < text.len() implies '\0' <= #[trigger] text[i]
            <= '\u{7f}' by {
            assert(in_alphabet(text[i]));
        }
    }
    is_ascii_chars_encode_utf8(text);
}

/// Decoding succeeds on every text that lies within the alphabet and does
/// not leave a single character in its last group, and then yields three
/// bytes for every full group of four characters, plus one byte for a last
/// group of two and two bytes for a last group of three.
pub proof fn decoding_succeeds_within_alphabet(text: Seq<char>)
    requires
        all_in_alphabet(text),
        text.len() % 4 != 1,
    ensures
        decoded(text) is Ok,
        decoded(text)->Ok_0.len() == decoded_len(text.len()),
        decoded(text)->Ok_0.len() == 3 * (text.len() / 4) + if text.len() % 4 == 0 {
            0nat
        } else if text.len() % 4 == 2 {
            1nat
        } else {
            2nat
        },
{
    alphabet_text_byte_len(text);
}

/// The number of decoded bytes is three quarters of the number of values,
/// rounded down.
pub proof fn decoded_len_is_three_quarters(n: nat)
    ensures
        decoded_len(n) == (3 * n) / 4,
{
}

/// Decodes text of the unpadded base64 variant into bytes.
pub fn decode_b64(encoded: &str) -> (result: Result<Vec<u8>, DecodeError>)
    ensures
        match result {
            Ok(bytes) => decoded(encoded@) == Ok::<Seq<u8>, DecodeError>(bytes@),
            Err(e) => decoded(encoded@) == Err::<Seq<u8>, DecodeError>(e),
        },
{
    if encoded.as_bytes().len() % 4 == 1 {
        return Err(DecodeError::InvalidLength);
    }
    match text_values(encoded) {
        Ok(values) => {
            proof {
                alphabet_text_byte_len(encoded@);
            }
            Ok(pack_values(values.as_slice()))
        },
        Err(e) => {
            proof {
                let i = choose|i: int|
                    is_first_invalid(encoded@, i) && e == DecodeError::InvalidCharacter(
                        encoded@[i],
                    );
                first_invalid_is_unique(encoded@, i);
            }
            Err(e)
        },
    }
}

} // verus!
