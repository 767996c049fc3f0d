//! The starting position.

use vstd::prelude::*;
use crate::board::{on_board, BoardModel, BoardState};
use crate::piece::{PieceType, EMPTY};

verus! {

/// The kind that starts on file `x` of a back rank: rook, knight, bishop,
/// king, queen, bishop, knight, rook.
pub open spec fn spec_back_rank_kind(x: int) -> PieceType {
    if x == 0 || x == 7 {
        PieceType::Rook
    } else if x == 1 || x == 6 {
        PieceType::Knight
    } else if x == 2 || x == 5 {
        PieceType::Bishop
    } else if x == 3 {
        PieceType::King
    } else {
        PieceType::Queen
    }
}

/// Whether pieces start on rank `y`.
pub open spec fn is_setup_rank(y: int) -> bool {
    y == 0 || y == 1 || y == 6 || y == 7
}

/// What stands on square `(x, y)` in the starting position: white's back rank
/// on rank 0 and its pawns on rank 1, black's pawns on rank 6 and its back
/// rank on rank 7, nothing in between.
pub open spec fn standard_piece(x: int, y: int) -> u8 {
    if y == 0 {
        PieceType::spec_to_u8((spec_back_rank_kind(x), PieceType::White))
    } else if y == 1 {
        PieceType::spec_to_u8((PieceType::Pawn, PieceType::White))
    } else if y == 6 {
        PieceType::spec_to_u8((PieceType::Pawn, PieceType::Black))
    } else if y == 7 {
        PieceType::spec_to_u8((spec_back_rank_kind(x), PieceType::Black))
    } else {
        EMPTY
    }
}

/// The kind that starts on file `x` of a back rank.
pub fn back_rank_kind(x: usize) -> (kind: PieceType)
    ensures
        kind == spec_back_rank_kind(x as int),
        kind.is_kind(),
{
    if x == 0 || x == 7 {
        PieceType::Rook
    } else if x == 1 || x == 6 {
        PieceType::Knight
    } else if x == 2 || x == 5 {
        PieceType::Bishop
    } else if x == 3 {
        PieceType::King
    } else {
        PieceType::Queen
    }
}

/// Puts the starting position on the board.
///
/// The four ranks on which pieces start are overwritten, the ranks between
/// them are left as they are, and the flag is raised. On an empty board the
/// result is the starting position, square for square.
pub fn build_pieces(board: &mut BoardState)
    ensures
        final(board)@.wf(),
        final(board)@.dirty,
        forall|x: int, y: int|
            on_board(x, y) && is_setup_rank(y) ==> #[trigger] final(board)@.get(x, y)
                == standard_piece(x, y),
        forall|x: int, y: int|
            on_board(x, y) && !is_setup_rank(y) ==> #[trigger] final(board)@.get(x, y) == old(
                board,
            )@.get(x, y),
        old(board)@.cells == BoardModel::empty().cells ==> forall|x: int, y: int|
            on_board(x, y) ==> #[trigger] final(board)@.get(x, y) == standard_piece(x, y),
{
    proof {
        use_type_invariant(&*board);
    }
    let ghost before = board@;
    let white_pawn = PieceType::to_u8((PieceType::Pawn, PieceType::White));
    let black_pawn = PieceType::to_u8((PieceType::Pawn, PieceType::Black));
    for i in 0..8usize
        invariant
            board@.cells.len() == 64,
            board@.wf(),
            before.cells.len() == 64,
            i > 0 ==> board@.dirty,
            white_pawn == PieceType::spec_to_u8((PieceType::Pawn, PieceType::White)),
            black_pawn == PieceType::spec_to_u8((PieceType::Pawn, PieceType::Black)),
            PieceType::spec_from_u8(white_pawn) is Some,
            PieceType::spec_from_u8(black_pawn) is Some,
            forall|x: int, y: int|
                on_board(x, y) ==> #[trigger] board@.get(x, y) == if x < i && is_setup_rank(y) {
                    standard_piece(x, y)
                } else {
                    before.get(x, y)
                },
    {
        let ghost start = board@;
        let kind = back_rank_kind(i);
        let white_piece = PieceType::to_u8((kind, PieceType::White));
        let black_piece = PieceType::to_u8((kind, PieceType::Black));
        let _ = board.set_state(i, 0, white_piece);
        let _ = board.set_state(i, 1, white_pawn);
        let _ = board.set_state(i, 6, black_pawn);
        let _ = board.set_state(i, 7, black_piece);
        proof {
            assert forall|x: int, y: int| on_board(x, y) implies #[trigger] board@.get(x, y) == if x
                < i + 1 && is_setup_rank(y) {
                standard_piece(x, y)
            } else {
                before.get(x, y)
            } by {
                if x != i || !is_setup_rank(y) {
                    assert(board@.get(x, y) == start.get(x, y));
                }
            }
        }
    }
}

} // verus!
