//! Bit-packed piece codes.
//!
//! A piece code is one byte. Bits 0–2 hold the kind of the piece, bits 3–4 its
//! color, where each color is a flag of its own (`0x08` for white, `0x10` for
//! black). The byte `0` stands for an unoccupied square and is no piece code.

use vstd::prelude::*;
use crate::error::BoardError;

verus! {

/// The byte that marks an unoccupied square.
pub const EMPTY: u8 = 0;

/// Mask of the kind field of a piece code.
pub const KIND_MASK: u8 = 0x07;

/// Mask of the color field of a piece code.
pub const COLOR_MASK: u8 = 0x18;

/// The kinds of pieces and the two colors, in one closed set of names.
///
/// A piece is a pair of a kind (`King` … `Pawn`) and a color (`White`, `Black`).
#[derive(Copy, Clone, Debug, PartialEq, Eq, Structural)]
pub enum PieceType {
    King,
    Queen,
    Bishop,
    Knight,
    Rook,
    Pawn,
    White,
    Black,
}

impl PieceType {
    /// Whether this name is one of the six kinds.
    pub open spec fn spec_is_kind(self) -> bool {
        match self {
            PieceType::White | PieceType::Black => false,
            _ => true,
        }
    }

    /// Whether this name is one of the two colors.
    pub open spec fn spec_is_color(self) -> bool {
        match self {
            PieceType::White | PieceType::Black => true,
            _ => false,
        }
    }

    /// The bits that this name contributes to a piece code.
    pub open spec fn spec_bits(self) -> u8 {
        match self {
            PieceType::King => 0x00,
            PieceType::Queen => 0x01,
            PieceType::Bishop => 0x02,
            PieceType::Knight => 0x03,
            PieceType::Rook => 0x04,
            PieceType::Pawn => 0x05,
            PieceType::White => 0x08,
            PieceType::Black => 0x10,
        }
    }

    /// The piece code of the pair `(kind, color)`: the bitwise or of the two fields.
    pub open spec fn spec_to_u8(value: (PieceType, PieceType)) -> u8 {
        value.0.spec_bits() | value.1.spec_bits()
    }

    /// The kind that a masked kind field names, if any.
    pub open spec fn kind_of_field(field: u8) -> Option<PieceType> {
        if field == 0x00 {
            Some(PieceType::King)
        } else if field == 0x01 {
            Some(PieceType::Queen)
        } else if field == 0x02 {
            Some(PieceType::Bishop)
        } else if field == 0x03 {
            Some(PieceType::Knight)
        } else if field == 0x04 {
            Some(PieceType::Rook)
        } else if field == 0x05 {
            Some(PieceType::Pawn)
        } else {
            None
        }
    }

    /// The color that a masked color field names, if any.
    pub open spec fn color_of_field(field: u8) -> Option<PieceType> {
        if field == 0x08 {
            Some(PieceType::White)
        } else if field == 0x10 {
            Some(PieceType::Black)
        } else {
            None
        }
    }

    /// The pair that a byte decodes to: its kind field (`value & 0x07`) must
    /// name a kind and its color field (`value & 0x18`) a color.
    pub open spec fn spec_from_u8(value: u8) -> Option<(PieceType, PieceType)> {
        match (
            PieceType::kind_of_field(value & KIND_MASK),
            PieceType::color_of_field(value & COLOR_MASK),
        ) {
            (Some(kind), Some(color)) => Some((kind, color)),
            _ => None,
        }
    }

    /// Whether this name is one of the six kinds.
    #[verifier::when_used_as_spec(spec_is_kind)]
    pub fn is_kind(self) -> (r: bool)
        ensures
            r == self.spec_is_kind(),
    {
        match self {
            PieceType::White | PieceType::Black => false,
            _ => true,
        }
    }

    /// Whether this name is one of the two colors.
    #[verifier::when_used_as_spec(spec_is_color)]
    pub fn is_color(self) -> (r: bool)
        ensures
            r == self.spec_is_color(),
    {
        match self {
            PieceType::White | PieceType::Black => true,
            _ => false,
        }
    }

    /// Packs a `(kind, color)` pair into its piece code.
    ///
    /// The pair must name a kind first and a color second. The code is never
    /// the empty sentinel, and it decodes to the pair it was made from.
    pub fn to_u8(value: (PieceType, PieceType)) -> (code: u8)
        requires
            value.0.is_kind(),
            value.1.is_color(),
        ensures
            code == PieceType::spec_to_u8(value),
            code == value.0.spec_bits() + value.1.spec_bits(),
            code != EMPTY,
            PieceType::spec_from_u8(code) == Some(value),
    {
        let p_type: u8 = match value.0 {
            PieceType::King => 0x00,
            PieceType::Queen => 0x01,
            PieceType::Bishop => 0x02,
            PieceType::Knight => 0x03,
            PieceType::Rook => 0x04,
            _ => 0x05,
        };
        let p_color: u8 = match value.1 {
            PieceType::White => 0x08,
            _ => 0x10,
        };
        proof {
            lemma_fields_of_packing(p_type, p_color);
        }
        p_type | p_color
    }

    /// Unpacks a byte into its `(kind, color)` pair.
    ///
    /// Succeeds exactly on the bytes whose masked kind field is one of the six
    /// kinds and whose masked color field is one of the two colors. Every other
    /// byte, the empty sentinel among them, is an `InvalidEncoding`.
    pub fn from_u8(value: u8) -> (r: Result<(PieceType, PieceType), BoardError>)
        ensures
            r is Ok <==> is_piece_code(value),
            r matches Ok(pair) ==> PieceType::spec_from_u8(value) == Some(pair),
            r matches Err(e) ==> e == BoardError::InvalidEncoding,
    {
        let p_type: u8 = value & KIND_MASK;
        let p_color: u8 = value & COLOR_MASK;
        let kind = if p_type == 0x00 {
            PieceType::King
        } else if p_type == 0x01 {
            PieceType::Queen
        } else if p_type == 0x02 {
            PieceType::Bishop
        } else if p_type == 0x03 {
            PieceType::Knight
        } else if p_type == 0x04 {
            PieceType::Rook
        } else if p_type == 0x05 {
            PieceType::Pawn
        } else {
            return Err(BoardError::InvalidEncoding);
        };
        let color = if p_color == 0x08 {
            PieceType::White
        } else if p_color == 0x10 {
            PieceType::Black
        } else {
            return Err(BoardError::InvalidEncoding);
        };
        Ok((kind, color))
    }
}

/// Whether a byte is a piece code, that is, whether it decodes to a pair.
pub open spec fn is_piece_code(code: u8) -> bool {
    PieceType::spec_from_u8(code) is Some
}

/// Whether a byte may stand in a square: the empty sentinel or a piece code.
pub open spec fn is_cell_value(code: u8) -> bool {
    code == EMPTY || is_piece_code(code)
}

/// Or-ing a kind field and a color flag keeps both fields readable: the masks
/// give them back, and since they share no bit the or is their sum.
pub proof fn lemma_fields_of_packing(kind_bits: u8, color_bits: u8)
    requires
        kind_bits <= 0x05,
        color_bits == 0x08 || color_bits == 0x10,
    ensures
        (kind_bits | color_bits) & KIND_MASK == kind_bits,
        (kind_bits | color_bits) & COLOR_MASK == color_bits,
        (kind_bits | color_bits) == kind_bits + color_bits,
{
    assert((kind_bits | color_bits) & 0x07 == kind_bits && (kind_bits | color_bits) & 0x18
        == color_bits && (kind_bits | color_bits) == kind_bits + color_bits) by (bit_vector)
        requires
            kind_bits <= 0x05,
            color_bits == 0x08 || color_bits == 0x10,
    ;
}

/// Decoding undoes encoding: every pair of a kind and a color comes back from
/// its own piece code. That code is the sum of the two fields, and never the
/// empty sentinel.
pub proof fn lemma_decode_encode(kind: PieceType, color: PieceType)
    requires
        kind.is_kind(),
        color.is_color(),
    ensures
        PieceType::spec_from_u8(PieceType::spec_to_u8((kind, color))) == Some((kind, color)),
        PieceType::spec_to_u8((kind, color)) == kind.spec_bits() + color.spec_bits(),
        PieceType::spec_to_u8((kind, color)) != EMPTY,
{
    lemma_fields_of_packing(kind.spec_bits(), color.spec_bits());
}

/// Encoding undoes decoding on the five bits that a piece code uses: a byte that
/// decodes to a pair has that pair's code in its low five bits.
pub proof fn lemma_encode_decode(code: u8)
    requires
        is_piece_code(code),
    ensures
        PieceType::spec_from_u8(code).unwrap().0.is_kind(),
        PieceType::spec_from_u8(code).unwrap().1.is_color(),
        PieceType::spec_to_u8(PieceType::spec_from_u8(code).unwrap()) == code & 0x1f,
        code != EMPTY,
{
    assert((code & 0x07) | (code & 0x18) == code & 0x1f) by (bit_vector);
    assert(code == 0 ==> code & 0x18 == 0) by (bit_vector);
}

/// Two different pairs never share a piece code.
pub proof fn lemma_encode_injective(a: (PieceType, PieceType), b: (PieceType, PieceType))
    requires
        a.0.is_kind(),
        a.1.is_color(),
        b.0.is_kind(),
        b.1.is_color(),
        PieceType::spec_to_u8(a) == PieceType::spec_to_u8(b),
    ensures
        a == b,
{
    lemma_decode_encode(a.0, a.1);
    lemma_decode_encode(b.0, b.1);
}

} // verus!
