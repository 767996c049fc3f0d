//! What the renderer is told: one texture index per square for the board
//! layer, and one per occupied square for the piece layer.
//!
//! Both layers list the squares file by file: square `(x, y)` stands at
//! `x * 8 + y`.

use vstd::prelude::*;
use crate::board::{on_board, BoardState};
use crate::piece::{
    is_piece_code, lemma_decode_encode, lemma_encode_decode, lemma_fields_of_packing, PieceType,
    COLOR_MASK, EMPTY, KIND_MASK,
};
use crate::selection::{HoveredCell, SelectedCell};

verus! {

/// Texture of a square whose file and rank add up to an odd number.
pub const ODD_SQUARE_TEXTURE: u16 = 0;

/// Texture of a square whose file and rank add up to an even number.
pub const EVEN_SQUARE_TEXTURE: u16 = 1;

/// Texture of the square under the pointer.
pub const HOVER_TEXTURE: u16 = 3;

/// Texture of the selected square.
pub const SELECTED_TEXTURE: u16 = 4;

/// The texture of square `(x, y)` of the plain chequered board.
pub open spec fn spec_square_texture(x: int, y: int) -> u16 {
    if (x + y + 1) % 2 == 0 {
        ODD_SQUARE_TEXTURE
    } else {
        EVEN_SQUARE_TEXTURE
    }
}

/// The texture of square `(x, y)` of the board layer: the selected square
/// shows the selection texture, the hovered square the hover texture unless it
/// is the selected one, every other square its chequer.
pub open spec fn spec_tile_texture(
    x: int,
    y: int,
    hovered: Option<HoveredCell>,
    selected: Option<SelectedCell>,
) -> u16 {
    if selected matches Some(s) && s.0 == x && s.1 == y {
        SELECTED_TEXTURE
    } else if hovered matches Some(h) && h.0 == x && h.1 == y {
        HOVER_TEXTURE
    } else {
        spec_square_texture(x, y)
    }
}

/// The texture of a piece: its kind field plus its color flag less 8, so that
/// white pieces start at texture 0 and black pieces at texture 8. A byte that
/// is no piece code, the empty sentinel among them, has no texture.
pub open spec fn spec_piece_texture_index(piece: u8) -> Option<u16> {
    if is_piece_code(piece) {
        Some(((piece & KIND_MASK) + ((piece & COLOR_MASK) - 8)) as u16)
    } else {
        None
    }
}

/// The piece layer of a board: for each square, in the order of `cells`, the
/// texture of the piece on it, or `None` where the square is empty.
pub open spec fn spec_piece_layer(cells: Seq<u8>) -> Seq<Option<u16>> {
    Seq::new(64, |i: int| spec_piece_texture_index(cells[i]))
}

/// The texture of square `(x, y)` of the plain chequered board.
pub fn square_texture(x: u8, y: u8) -> (texture: u16)
    ensures
        texture == spec_square_texture(x as int, y as int),
{
    let sum: u16 = x as u16 + y as u16 + 1;
    if sum % 2 == 0 {
        ODD_SQUARE_TEXTURE
    } else {
        EVEN_SQUARE_TEXTURE
    }
}

/// The texture of square `(x, y)` of the board layer.
pub fn tile_texture(
    x: u8,
    y: u8,
    hovered: Option<HoveredCell>,
    selected: Option<SelectedCell>,
) -> (texture: u16)
    ensures
        texture == spec_tile_texture(x as int, y as int, hovered, selected),
{
    if let Some(s) = selected {
        if s.0 == x && s.1 == y {
            return SELECTED_TEXTURE;
        }
    }
    if let Some(h) = hovered {
        if h.0 == x && h.1 == y {
            return HOVER_TEXTURE;
        }
    }
    square_texture(x, y)
}

/// The board layer: the texture of each of the 64 squares, with the hovered
/// and the selected square marked.
pub fn color_board(
    hovered: Option<HoveredCell>,
    selected: Option<SelectedCell>,
) -> (textures: Vec<u16>)
    ensures
        textures@.len() == 64,
        forall|x: int, y: int|
            on_board(x, y) ==> #[trigger] textures@[x * 8 + y] == spec_tile_texture(
                x,
                y,
                hovered,
                selected,
            ),
{
    let mut textures: Vec<u16> = Vec::new();
    for x in 0..8u8
        invariant
            textures@.len() == x * 8,
            forall|i: int, j: int|
                0 <= i < x && 0 <= j < 8 ==> #[trigger] textures@[i * 8 + j] == spec_tile_texture(
                    i,
                    j,
                    hovered,
                    selected,
                ),
    {
        for y in 0..8u8
            invariant
                0 <= x < 8,
                textures@.len() == x * 8 + y,
                forall|i: int, j: int|
                    (0 <= i < x && 0 <= j < 8) || (i == x && 0 <= j < y)
                        ==> #[trigger] textures@[i * 8 + j] == spec_tile_texture(
                        i,
                        j,
                        hovered,
                        selected,
                    ),
        {
            textures.push(tile_texture(x, y, hovered, selected));
        }
    }
    textures
}

/// The texture of a piece, or `None` for a byte that is no piece code.
pub fn piece_texture_index(piece: u8) -> (texture: Option<u16>)
    ensures
        texture == spec_piece_texture_index(piece),
        texture matches Some(t) ==> t <= 13,
        texture is Some ==> piece != EMPTY,
{
    proof {
        if is_piece_code(piece) {
            lemma_encode_decode(piece);
        }
    }
    match PieceType::from_u8(piece) {
        Ok(_) => {
            let pc: u8 = piece & COLOR_MASK;
            let pt: u8 = piece & KIND_MASK;
            let texture_index: u8 = pt + (pc - 8);
            Some(texture_index as u16)
        },
        Err(_) => None,
    }
}

/// The piece layer: for each of the 64 squares the texture of the piece on
/// it, or `None` where the square is empty.
pub fn place_pieces(board: &BoardState) -> (textures: Vec<Option<u16>>)
    ensures
        textures@ == spec_piece_layer(board@.cells),
        textures@.len() == 64,
        forall|x: int, y: int|
            on_board(x, y) ==> #[trigger] textures@[x * 8 + y] == spec_piece_texture_index(
                board@.get(x, y),
            ),
        forall|x: int, y: int|
            on_board(x, y) ==> (#[trigger] textures@[x * 8 + y] is None <==> board@.get(x, y)
                == EMPTY),
{
    let mut textures: Vec<Option<u16>> = Vec::new();
    for x in 0..8usize
        invariant
            textures@.len() == x * 8,
            forall|i: int, j: int|
                0 <= i < x && 0 <= j < 8 ==> #[trigger] textures@[i * 8 + j]
                    == spec_piece_texture_index(board@.get(i, j)),
            forall|i: int, j: int|
                0 <= i < x && 0 <= j < 8 ==> (#[trigger] textures@[i * 8 + j] is None
                    <==> board@.get(i, j) == EMPTY),
    {
        for y in 0..8usize
            invariant
                0 <= x < 8,
                textures@.len() == x * 8 + y,
                forall|i: int, j: int|
                    (0 <= i < x && 0 <= j < 8) || (i == x && 0 <= j < y)
                        ==> #[trigger] textures@[i * 8 + j] == spec_piece_texture_index(
                        board@.get(i, j),
                    ),
                forall|i: int, j: int|
                    (0 <= i < x && 0 <= j < 8) || (i == x && 0 <= j < y) ==> (
                    #[trigger] textures@[i * 8 + j] is None <==> board@.get(i, j) == EMPTY),
        {
            let texture = match board.get_state(x, y) {
                Ok(piece) => piece_texture_index(piece),
                Err(_) => None,
            };
            textures.push(texture);
        }
    }
    proof {
        assert forall|i: int| 0 <= i < 64 implies textures@[i] == spec_piece_texture_index(
            board@.cells[i],
        ) by {
            let x = i / 8;
            let y = i % 8;
            assert(textures@[x * 8 + y] == spec_piece_texture_index(board@.get(x, y)));
        }
        assert(textures@ =~= spec_piece_layer(board@.cells));
    }
    textures
}

/// The piece layer, if a square was written since the renderer last asked.
///
/// Asking consumes the flag, so that any number of writes is answered by one
/// layer, and no layer is handed out while nothing was written.
pub fn refresh_pieces(board: &mut BoardState) -> (layer: Option<Vec<Option<u16>>>)
    ensures
        layer is Some <==> old(board)@.dirty,
        layer matches Some(textures) ==> textures@ == spec_piece_layer(old(board)@.cells),
        final(board)@ == old(board)@.take_dirty().1,
        final(board)@.wf(),
{
    if board.take_dirty() {
        Some(place_pieces(board))
    } else {
        None
    }
}

/// The texture of the piece of a given kind and color: the bits of the kind
/// for a white piece, and 8 more for a black one.
pub proof fn lemma_texture_of_pair(kind: PieceType, color: PieceType)
    requires
        kind.is_kind(),
        color.is_color(),
    ensures
        spec_piece_texture_index(PieceType::spec_to_u8((kind, color))) == Some(
            (kind.spec_bits() + (color.spec_bits() - 8)) as u16,
        ),
{
    lemma_decode_encode(kind, color);
    lemma_fields_of_packing(kind.spec_bits(), color.spec_bits());
}

} // verus!
