//! The board: 64 squares, each empty or holding one piece code, and a flag that
//! tells the renderer that a square was written since it last looked.

use vstd::prelude::*;
use crate::error::BoardError;
use crate::piece::{is_cell_value, PieceType, EMPTY};

verus! {

/// Number of files, and of ranks, of the board.
pub const BOARD_SIZE: usize = 8;

/// Whether `(x, y)` names a square of the board.
pub open spec fn on_board(x: int, y: int) -> bool {
    0 <= x < 8 && 0 <= y < 8
}

/// The board as a mathematical value.
///
/// `cells` lists the squares file by file: square `(x, y)` stands at `x * 8 + y`.
pub struct BoardModel {
    pub cells: Seq<u8>,
    pub dirty: bool,
}

impl BoardModel {
    /// There are 64 squares, and each holds the empty sentinel or a piece code.
    pub open spec fn wf(self) -> bool {
        &&& self.cells.len() == 64
        &&& forall|i: int| 0 <= i < 64 ==> is_cell_value(#[trigger] self.cells[i])
    }

    /// The board with no piece on it and nothing to report.
    pub open spec fn empty() -> BoardModel {
        BoardModel { cells: Seq::new(64, |i: int| EMPTY), dirty: false }
    }

    /// What stands on square `(x, y)`.
    pub open spec fn get(self, x: int, y: int) -> u8
        recommends
            on_board(x, y),
    {
        self.cells[x * 8 + y]
    }

    /// Whether a write of `code` to `(x, y)` is accepted.
    pub open spec fn accepts(x: int, y: int, code: u8) -> bool {
        on_board(x, y) && is_cell_value(code)
    }

    /// The board after an accepted write: `code` stands on `(x, y)`, every
    /// other square is as before, and the flag is raised.
    pub open spec fn set(self, x: int, y: int, code: u8) -> BoardModel
        recommends
            BoardModel::accepts(x, y, code),
    {
        BoardModel { cells: self.cells.update(x * 8 + y, code), dirty: true }
    }

    /// The answer to a write request: a square off the board is refused first,
    /// then a byte that is no cell value.
    pub open spec fn set_outcome(x: int, y: int, code: u8) -> Result<(), BoardError> {
        if !on_board(x, y) {
            Err(BoardError::InvalidCoordinate)
        } else if !is_cell_value(code) {
            Err(BoardError::InvalidEncoding)
        } else {
            Ok(())
        }
    }

    /// The board after a write request, accepted or not: a refused request
    /// leaves everything as it was, the flag included.
    pub open spec fn request(self, x: int, y: int, code: u8) -> BoardModel {
        if BoardModel::accepts(x, y, code) {
            self.set(x, y, code)
        } else {
            self
        }
    }

    /// The board after a run of write requests, first to last.
    pub open spec fn request_all(self, writes: Seq<(int, int, u8)>) -> BoardModel
        decreases writes.len(),
    {
        if writes.len() == 0 {
            self
        } else {
            let w = writes.last();
            self.request_all(writes.drop_last()).request(w.0, w.1, w.2)
        }
    }

    /// Consuming the flag: what the consumer is told, and the board it leaves.
    pub open spec fn take_dirty(self) -> (bool, BoardModel) {
        (self.dirty, BoardModel { cells: self.cells, dirty: false })
    }
}

/// The canonical position: one byte per square and the dirty flag.
pub struct BoardState {
    updated: bool,
    state: [u8; 64],
}

impl View for BoardState {
    type V = BoardModel;

    closed spec fn view(&self) -> BoardModel {
        BoardModel { cells: self.state@, dirty: self.updated }
    }
}

impl BoardState {
    /// Every board that exists is well formed.
    #[verifier::type_invariant]
    pub open spec fn inv(&self) -> bool {
        self@.wf()
    }

    /// An empty board with the flag down.
    pub fn new() -> (board: BoardState)
        ensures
            board@ == BoardModel::empty(),
            board@.wf(),
    {
        let board = BoardState { updated: false, state: [EMPTY; 64] };
        assert(board@.cells =~= BoardModel::empty().cells);
        board
    }

    /// Writes `piece` to square `(x, y)` and raises the flag.
    ///
    /// A square off the board is refused with `InvalidCoordinate`, a byte that
    /// is neither the empty sentinel nor a piece code with `InvalidEncoding`;
    /// a refused write changes nothing.
    pub fn set_state(&mut self, x: usize, y: usize, piece: u8) -> (r: Result<(), BoardError>)
        ensures
            r == BoardModel::set_outcome(x as int, y as int, piece),
            final(self)@ == old(self)@.request(x as int, y as int, piece),
            r is Ok ==> final(self)@ == old(self)@.set(x as int, y as int, piece),
            r is Err ==> final(self)@ == old(self)@,
            final(self)@.wf(),
    {
        proof {
            use_type_invariant(&*self);
        }
        if x >= BOARD_SIZE || y >= BOARD_SIZE {
            return Err(BoardError::InvalidCoordinate);
        }
        if piece != EMPTY && PieceType::from_u8(piece).is_err() {
            return Err(BoardError::InvalidEncoding);
        }
        self.state[x * 8 + y] = piece;
        self.updated = true;
        Ok(())
    }

    /// Reads square `(x, y)`; a square off the board is an `InvalidCoordinate`.
    pub fn get_state(&self, x: usize, y: usize) -> (r: Result<u8, BoardError>)
        ensures
            r is Ok <==> on_board(x as int, y as int),
            r matches Ok(code) ==> code == self@.get(x as int, y as int) && is_cell_value(code),
            r matches Err(e) ==> e == BoardError::InvalidCoordinate,
            self@.wf(),
    {
        proof {
            use_type_invariant(self);
        }
        if x >= BOARD_SIZE || y >= BOARD_SIZE {
            return Err(BoardError::InvalidCoordinate);
        }
        Ok(self.state[x * 8 + y])
    }

    /// Whether square `(x, y)` is unoccupied; a square off the board is an
    /// `InvalidCoordinate`.
    pub fn is_empty(&self, x: usize, y: usize) -> (r: Result<bool, BoardError>)
        ensures
            r is Ok <==> on_board(x as int, y as int),
            r matches Ok(empty) ==> empty == (self@.get(x as int, y as int) == EMPTY),
            r matches Err(e) ==> e == BoardError::InvalidCoordinate,
            self@.wf(),
    {
        proof {
            use_type_invariant(self);
        }
        if x >= BOARD_SIZE || y >= BOARD_SIZE {
            return Err(BoardError::InvalidCoordinate);
        }
        Ok(self.state[x * 8 + y] == EMPTY)
    }

    /// Whether a square was written since the flag was last consumed.
    pub fn updated(&self) -> (r: bool)
        ensures
            r == self@.dirty,
    {
        self.updated
    }

    /// Consumes the flag: tells whether a square was written since the last
    /// call, and lowers the flag. The squares stay as they are.
    pub fn take_dirty(&mut self) -> (r: bool)
        ensures
            (r, final(self)@) == old(self)@.take_dirty(),
            final(self)@.wf(),
    {
        proof {
            use_type_invariant(&*self);
        }
        let was = self.updated;
        self.updated = false;
        was
    }
}

/// A run of write requests keeps a well-formed board well formed.
pub proof fn lemma_request_all_wf(board: BoardModel, writes: Seq<(int, int, u8)>)
    requires
        board.wf(),
    ensures
        board.request_all(writes).wf(),
    decreases writes.len(),
{
    if writes.len() > 0 {
        lemma_request_all_wf(board, writes.drop_last());
    }
}

/// However many writes are accepted before the flag is consumed, the consumer
/// is told exactly once: the first consumption reports a change, the one after
/// it reports none, and neither touches a square.
pub proof fn lemma_writes_signal_once(board: BoardModel, writes: Seq<(int, int, u8)>)
    requires
        exists|i: int|
            0 <= i < writes.len() && BoardModel::accepts(
                (#[trigger] writes[i]).0,
                writes[i].1,
                writes[i].2,
            ),
    ensures
        ({
            let written = board.request_all(writes);
            let (first, after) = written.take_dirty();
            let (second, rest) = after.take_dirty();
            &&& first
            &&& !second
            &&& after.cells == written.cells
            &&& rest == after
        }),
    decreases writes.len(),
{
    let w = writes.last();
    if !BoardModel::accepts(w.0, w.1, w.2) {
        let i = choose|i: int|
            0 <= i < writes.len() && BoardModel::accepts(
                (#[trigger] writes[i]).0,
                writes[i].1,
                writes[i].2,
            );
        assert(writes.drop_last()[i] == writes[i]);
        lemma_writes_signal_once(board, writes.drop_last());
    }
}

/// Where no write is accepted, nothing is reported that was not already
/// pending, and no square changes.
pub proof fn lemma_refused_writes_change_nothing(board: BoardModel, writes: Seq<(int, int, u8)>)
    requires
        forall|i: int|
            0 <= i < writes.len() ==> !BoardModel::accepts(
                (#[trigger] writes[i]).0,
                writes[i].1,
                writes[i].2,
            ),
    ensures
        board.request_all(writes) == board,
    decreases writes.len(),
{
    if writes.len() > 0 {
        assert forall|i: int| 0 <= i < writes.drop_last().len() implies !BoardModel::accepts(
            (#[trigger] writes.drop_last()[i]).0,
            writes.drop_last()[i].1,
            writes.drop_last()[i].2,
        ) by {
            assert(writes.drop_last()[i] == writes[i]);
        }
        lemma_refused_writes_change_nothing(board, writes.drop_last());
    }
}

impl Default for BoardState {
    /// An empty board with the flag down.
    fn default() -> (board: BoardState)
        ensures
            board@ == BoardModel::empty(),
            board@.wf(),
    {
        BoardState::new()
    }
}

} // verus!
