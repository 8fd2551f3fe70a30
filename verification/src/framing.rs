//! The length prefix of a message on the wire: four bytes, least
//! significant first, in front of the message's text.

use vstd::prelude::*;

verus! {

/// Number of bytes of the length prefix.
pub const PREFIX_BYTES: usize = 4;

/// The number that four bytes spell, the first byte being the least
/// significant.
pub open spec fn prefix_value(prefix: Seq<u8>) -> int {
    prefix[0] as int + 256 * (prefix[1] as int) + 65536 * (prefix[2] as int) + 16777216 * (
    prefix[3] as int)
}

/// The prefix that announces a message of `len` bytes. A length that does
/// not fit in 32 bits is cut down to its low 32 bits.
pub fn length_prefix(len: usize) -> (prefix: [u8; 4])
    ensures
        prefix_value(prefix@) == len as int % 0x1_0000_0000,
{
    let wide: u64 = len as u64;
    let low: u32 = (wide & 0xFFFF_FFFF) as u32;
    let b0: u8 = (low & 0xFF) as u8;
    let b1: u8 = ((low >> 8) & 0xFF) as u8;
    let b2: u8 = ((low >> 16) & 0xFF) as u8;
    let b3: u8 = ((low >> 24) & 0xFF) as u8;
    assert(low == len as int % 0x1_0000_0000) by {
        assert(wide & 0xFFFF_FFFF == wide % 0x1_0000_0000) by (bit_vector);
    }
    assert(b0 as u32 + 256 * (b1 as u32) + 65536 * (b2 as u32) + 16777216 * (b3 as u32) == low)
        by (bit_vector)
        requires
            b0 == (low & 0xFF) as u8,
            b1 == ((low >> 8) & 0xFF) as u8,
            b2 == ((low >> 16) & 0xFF) as u8,
            b3 == ((low >> 24) & 0xFF) as u8,
    ;
    [b0, b1, b2, b3]
}

/// The length that a prefix announces.
pub fn prefixed_length(prefix: [u8; 4]) -> (len: usize)
    ensures
        len == prefix_value(prefix@),
{
    let b0: u32 = prefix[0] as u32;
    let b1: u32 = prefix[1] as u32;
    let b2: u32 = prefix[2] as u32;
    let b3: u32 = prefix[3] as u32;
    assert(b0 | (b1 << 8) | (b2 << 16) | (b3 << 24) == b0 + 256 * b1 + 65536 * b2 + 16777216 * b3)
        by (bit_vector)
        requires
            b0 < 256,
            b1 < 256,
            b2 < 256,
            b3 < 256,
    ;
    (b0 | (b1 << 8) | (b2 << 16) | (b3 << 24)) as usize
}

/// Every prefix announces a length below 2^32, and two prefixes that
/// announce the same length are the same four bytes.
pub proof fn prefixes_are_distinct(a: Seq<u8>, b: Seq<u8>)
    requires
        a.len() == 4,
        b.len() == 4,
        prefix_value(a) == prefix_value(b),
    ensures
        0 <= prefix_value(a) < 0x1_0000_0000,
        a == b,
{
    prefix_value_digits(a);
    prefix_value_digits(b);
    assert(a =~= b);
}

/// The bytes of a prefix are the base-256 digits of the length it announces.
pub proof fn prefix_value_digits(prefix: Seq<u8>)
    requires
        prefix.len() == 4,
    ensures
        prefix[0] == prefix_value(prefix) % 256,
        prefix[1] == (prefix_value(prefix) / 256) % 256,
        prefix[2] == (prefix_value(prefix) / 65536) % 256,
        prefix[3] == prefix_value(prefix) / 16777216,
{
    let v0 = prefix_value(prefix);
    let v1 = prefix[1] as int + 256 * (prefix[2] as int) + 65536 * (prefix[3] as int);
    let v2 = prefix[2] as int + 256 * (prefix[3] as int);
    assert(v0 == prefix[0] as int + 256 * v1);
    assert(v0 % 256 == prefix[0] && v0 / 256 == v1);
    assert(v1 == prefix[1] as int + 256 * v2);
    assert(v1 % 256 == prefix[1] && v1 / 256 == v2);
    assert(v2 % 256 == prefix[2] && v2 / 256 == prefix[3]);
    assert(v0 / 65536 == v2);
    assert(v0 / 16777216 == prefix[3]);
}

} // verus!
