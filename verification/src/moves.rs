//! The history of moves.

use vstd::prelude::*;

verus! {

/// The moves made so far, oldest first, each a pair of a square left and a
/// square reached.
pub struct MoveList {
    moves: Vec<(u16, u16)>,
}

impl View for MoveList {
    type V = Seq<(u16, u16)>;

    closed spec fn view(&self) -> Seq<(u16, u16)> {
        self.moves@
    }
}

/// The square that the latest move of `moves` reached, or `0` where no move
/// was made yet.
pub open spec fn last_move_position(moves: Seq<(u16, u16)>) -> u16 {
    if moves.len() == 0 {
        0
    } else {
        moves.last().1
    }
}

impl MoveList {
    /// A list without moves.
    pub fn new() -> (list: MoveList)
        ensures
            list@ == Seq::<(u16, u16)>::empty(),
    {
        MoveList { moves: Vec::new() }
    }

    /// Appends the move from `from` to `to`; earlier moves stay as they are.
    pub fn record_move(&mut self, from: u16, to: u16)
        ensures
            final(self)@ == old(self)@.push((from, to)),
    {
        self.moves.push((from, to));
    }

    /// The number of moves recorded.
    pub fn len(&self) -> (n: usize)
        ensures
            n == self@.len(),
    {
        self.moves.len()
    }

    /// The square that the latest move reached, or `0` where the list is empty.
    pub fn get_last_move_position(&self) -> (position: u16)
        ensures
            position == last_move_position(self@),
    {
        if self.moves.len() == 0 {
            0
        } else {
            self.moves[self.moves.len() - 1].1
        }
    }
}

impl Default for MoveList {
    /// A list without moves.
    fn default() -> (list: MoveList)
        ensures
            list@ == Seq::<(u16, u16)>::empty(),
    {
        MoveList::new()
    }
}

} // verus!
