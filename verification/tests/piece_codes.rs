use chess_board::error::BoardError;
use chess_board::piece::{PieceType, COLOR_MASK, EMPTY, KIND_MASK};

const KINDS: [PieceType; 6] = [
    PieceType::King,
    PieceType::Queen,
    PieceType::Bishop,
    PieceType::Knight,
    PieceType::Rook,
    PieceType::Pawn,
];

const COLORS: [PieceType; 2] = [PieceType::White, PieceType::Black];

#[test]
fn decode_undoes_encode_for_every_pair() {
    for kind in KINDS {
        for color in COLORS {
            let code = PieceType::to_u8((kind, color));
            assert_eq!(PieceType::from_u8(code), Ok((kind, color)));
        }
    }
}

#[test]
fn encode_gives_the_documented_bytes() {
    assert_eq!(PieceType::to_u8((PieceType::King, PieceType::White)), 0x08);
    assert_eq!(PieceType::to_u8((PieceType::Queen, PieceType::White)), 0x09);
    assert_eq!(PieceType::to_u8((PieceType::Bishop, PieceType::White)), 0x0a);
    assert_eq!(PieceType::to_u8((PieceType::Knight, PieceType::White)), 0x0b);
    assert_eq!(PieceType::to_u8((PieceType::Rook, PieceType::White)), 0x0c);
    assert_eq!(PieceType::to_u8((PieceType::Pawn, PieceType::White)), 0x0d);
    assert_eq!(PieceType::to_u8((PieceType::King, PieceType::Black)), 0x10);
    assert_eq!(PieceType::to_u8((PieceType::Queen, PieceType::Black)), 0x11);
    assert_eq!(PieceType::to_u8((PieceType::Bishop, PieceType::Black)), 0x12);
    assert_eq!(PieceType::to_u8((PieceType::Knight, PieceType::Black)), 0x13);
    assert_eq!(PieceType::to_u8((PieceType::Rook, PieceType::Black)), 0x14);
    assert_eq!(PieceType::to_u8((PieceType::Pawn, PieceType::Black)), 0x15);
}

#[test]
fn encode_keeps_kind_and_color_in_their_fields() {
    for kind in KINDS {
        for color in COLORS {
            let code = PieceType::to_u8((kind, color));
            assert_ne!(code, EMPTY);
            assert!(code & KIND_MASK <= 5);
            assert!(code & COLOR_MASK == 0x08 || code & COLOR_MASK == 0x10);
            assert_eq!(code & !(KIND_MASK | COLOR_MASK), 0);
        }
    }
}

#[test]
fn encode_is_injective() {
    let mut seen: Vec<u8> = Vec::new();
    for kind in KINDS {
        for color in COLORS {
            let code = PieceType::to_u8((kind, color));
            assert!(!seen.contains(&code));
            seen.push(code);
        }
    }
    assert_eq!(seen.len(), 12);
}

#[test]
fn empty_sentinel_does_not_decode() {
    assert_eq!(EMPTY, 0);
    assert_eq!(PieceType::from_u8(EMPTY), Err(BoardError::InvalidEncoding));
}

#[test]
fn byte_without_color_does_not_decode() {
    assert_eq!(PieceType::from_u8(0x05), Err(BoardError::InvalidEncoding));
}

#[test]
fn byte_with_both_colors_does_not_decode() {
    assert_eq!(PieceType::from_u8(0x18 | 0x01), Err(BoardError::InvalidEncoding));
}

#[test]
fn byte_with_unknown_kind_does_not_decode() {
    assert_eq!(PieceType::from_u8(0x08 | 0x06), Err(BoardError::InvalidEncoding));
    assert_eq!(PieceType::from_u8(0x10 | 0x07), Err(BoardError::InvalidEncoding));
}

#[test]
fn decode_reads_the_masked_fields_only() {
    assert_eq!(PieceType::from_u8(0x28), Ok((PieceType::King, PieceType::White)));
    assert_eq!(PieceType::from_u8(0xf5), Ok((PieceType::Pawn, PieceType::Black)));
}

#[test]
fn decode_agrees_with_the_masks_on_every_byte() {
    for byte in 0..=255u8 {
        let kind_ok = byte & 0x07 <= 5;
        let color_ok = byte & 0x18 == 0x08 || byte & 0x18 == 0x10;
        match PieceType::from_u8(byte) {
            Ok((kind, color)) => {
                assert!(kind_ok && color_ok);
                assert!(kind.is_kind());
                assert!(color.is_color());
                assert_eq!(PieceType::to_u8((kind, color)), byte & 0x1f);
            }
            Err(e) => {
                assert!(!(kind_ok && color_ok));
                assert_eq!(e, BoardError::InvalidEncoding);
            }
        }
    }
}

#[test]
fn kinds_and_colors_are_told_apart() {
    for kind in KINDS {
        assert!(kind.is_kind());
        assert!(!kind.is_color());
    }
    for color in COLORS {
        assert!(color.is_color());
        assert!(!color.is_kind());
    }
}
