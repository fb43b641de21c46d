//! Drunken-bishop fingerprint art: a bishop walks a 17 x 9 board, steered by
//! the bit pairs of a digest, and the visit counts are drawn as text.

pub mod art;
pub mod bits;
pub mod board;
pub mod digest;
pub mod render;

pub use crate::art::{Entry, RandomArt};
pub use crate::bits::Bits;
pub use crate::board::{Direction, Region};
pub use crate::digest::{Base64, Digest, DigestError, Hex};
pub use crate::render::randomart;
