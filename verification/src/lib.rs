//! Decoder for the compact radar snapshot that a maze server sends to an
//! agent: an unpadded base64 variant carrying two grids of wall passages and
//! one grid of cell contents. Beside it stand the two small rules that the
//! agent's client needs: the length prefix of a message, and the choice of
//! the next move.

pub mod alphabet;
pub mod base64;
pub mod codes;
pub mod encoding;
pub mod error;
pub mod framing;
pub mod grids;
pub mod pilot;
pub mod view;

pub use codes::{Passage, RadarItem};
pub use error::DecodeError;
pub use view::{decode_radar_view, RadarView};
