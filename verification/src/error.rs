//! The two ways a request to the board can be refused.

use vstd::prelude::*;

verus! {

/// Why the board or the piece decoder refused a request.
#[derive(Clone, Copy, Debug, PartialEq, Eq, Structural)]
pub enum BoardError {
    /// The requested cell lies outside the 8×8 board.
    InvalidCoordinate,
    /// The byte is neither the empty sentinel nor the packing of a kind and a color.
    InvalidEncoding,
}

} // verus!
