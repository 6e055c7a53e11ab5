use vstd::prelude::*;

verus! {

use crate::board::{BoardPos, PieceID};

/// A move command as submitted by a client: which piece to move and the
/// square to move it to.
#[derive(Debug, Clone, Copy, PartialEq, Eq, Structural)]
pub struct Move {
    pub piece: PieceID,
    pub to: BoardPos,
}

} // verus!
