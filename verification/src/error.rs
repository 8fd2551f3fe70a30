//! Why a decode call gave up.

use vstd::prelude::*;

verus! {

/// The three ways in which decoding fails. Each is final for the call that
/// reports it: nothing is retried and no partial result is handed out.
#[derive(Debug, Clone, Copy, PartialEq, Eq, Structural)]
pub enum DecodeError {
    /// The text leaves a single character in its last group of four, which
    /// cannot hold a whole byte.
    InvalidLength,
    /// The text holds a character outside the alphabet; the first such
    /// character is carried along.
    InvalidCharacter(char),
    /// The text decodes to fewer bytes than a radar view takes.
    InsufficientData {
        /// Number of bytes that the text decoded to.
        actual: usize,
        /// Number of bytes that a radar view takes.
        required: usize,
    },
}

} // verus!
