//! Board state, piece encoding, pointer-to-cell mapping and the
//! hover/selection state machine of an 8×8 chess board viewer.

pub mod board;
pub mod cursor;
pub mod error;
pub mod moves;
pub mod piece;
pub mod render;
pub mod selection;
pub mod setup;
