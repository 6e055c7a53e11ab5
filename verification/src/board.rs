use vstd::prelude::*;

verus! {

use crate::game::PlayerID;
use vstd::pervasive::VecAdditionalExecFns;

/// The closed set of piece kinds.
#[derive(Debug, Clone, Copy, PartialEq, Eq, Structural)]
pub enum PieceTy {
    Pawn,
    Queen,
    King,
    Bishop,
    Rook,
    Knight,
}

/// An immutable piece record; identity is carried by its `PieceID`.
#[derive(Debug, Clone, Copy, PartialEq, Eq, Structural)]
pub struct Piece {
    pub owner: PlayerID,
    pub ty: PieceTy,
}

/// An opaque, monotonically increasing identifier, unique for the lifetime
/// of a single `Board` and never reissued after removal.
#[derive(Debug, Clone, Copy, PartialEq, Eq, Hash, Structural)]
pub struct PieceID(pub usize);

/// One grid cell: empty, or holding exactly one piece identity.
#[derive(Debug, Clone, Copy, PartialEq, Eq, Structural)]
pub enum Square {
    Empty,
    Piece(PieceID),
}

/// A zero-based `(col, row)` coordinate; validity is relative to a board's
/// `width`/`height`.
#[derive(Debug, Clone, Copy, PartialEq, Eq, Structural)]
pub struct BoardPos {
    pub col: usize,
    pub row: usize,
}

#[derive(Debug, Clone, Copy, PartialEq, Eq, Structural)]
pub enum BoardError {
    OutsideOfBoard(BoardPos),
    OccupiedSquare(BoardPos, PieceID),
    InvalidPieceID(PieceID),
}

/// The authoritative board state: a dense `width x height` grid of squares
/// and the piece registry, the single source of truth for piece existence.
///
/// The grid is stored column-major in one vector (`col * height + row`);
/// the registry is indexed directly by identifier value, so an entry is
/// `None` both for identifiers never issued and for removed pieces.
#[derive(Debug)]
pub struct Board {
    width: usize,
    height: usize,
    squares: Vec<Square>,
    pieces: Vec<Option<Piece>>,
    id_counter: usize,
}

impl Board {
    pub closed spec fn spec_width(self) -> int {
        self.width as int
    }

    pub closed spec fn spec_height(self) -> int {
        self.height as int
    }

    /// The identifier counter: the number of identities issued so far.
    pub closed spec fn counter(self) -> int {
        self.id_counter as int
    }

    /// The identity the next allocation will issue.
    pub open spec fn fresh_id(self) -> PieceID {
        PieceID(self.counter() as usize)
    }

    pub open spec fn in_bounds(self, pos: BoardPos) -> bool {
        pos.col < self.spec_width() && pos.row < self.spec_height()
    }

    /// The square at `(col, row)`; meaningful only in bounds.
    pub closed spec fn square_at(self, col: int, row: int) -> Square {
        self.squares[col * self.spec_height() + row]
    }

    /// The registry entry for `id`: `Some` exactly while `id` is registered.
    pub closed spec fn piece_at(self, id: PieceID) -> Option<Piece> {
        if id.0 < self.pieces.len() {
            self.pieces[id.0 as int]
        } else {
            None
        }
    }

    pub open spec fn registered(self, id: PieceID) -> bool {
        self.piece_at(id) is Some
    }

    /// Structural well-formedness: the grid really is `width x height`, and
    /// the counter equals the number of identities ever issued.
    pub closed spec fn wf(self) -> bool {
        &&& self.squares.len() == self.width * self.height
        &&& self.id_counter == self.pieces.len()
    }

    /// Occupancy consistency: every occupant is registered, and an identity
    /// sits on at most one square.
    pub open spec fn consistent(self) -> bool {
        &&& forall|c: int, r: int|
            0 <= c < self.spec_width() && 0 <= r < self.spec_height() ==> (#[trigger] self.square_at(
                c,
                r,
            ) matches Square::Piece(id) ==> self.registered(id))
        &&& forall|c1: int, r1: int, c2: int, r2: int|
            0 <= c1 < self.spec_width() && 0 <= r1 < self.spec_height() && 0 <= c2
                < self.spec_width() && 0 <= r2 < self.spec_height() && #[trigger] self.square_at(
                c1,
                r1,
            ) is Piece && self.square_at(c1, r1) == #[trigger] self.square_at(c2, r2) ==> c1 == c2
                && r1 == r2
    }

    /// Both boards have the same dimensions.
    pub open spec fn same_dims(self, other: Board) -> bool {
        self.spec_width() == other.spec_width() && self.spec_height() == other.spec_height()
    }

    /// Both boards hold the same squares everywhere in bounds.
    pub open spec fn same_squares(self, other: Board) -> bool {
        forall|c: int, r: int|
            0 <= c < self.spec_width() && 0 <= r < self.spec_height() ==> #[trigger] self.square_at(
                c,
                r,
            ) == other.square_at(c, r)
    }

    /// Both boards register exactly the same pieces.
    pub open spec fn same_registry(self, other: Board) -> bool {
        forall|id: PieceID| #[trigger] self.piece_at(id) == other.piece_at(id)
    }

    /// `post` is `pre` with the single square at `pos` set to `sq`.
    pub open spec fn grid_update(pre: Board, post: Board, pos: BoardPos, sq: Square) -> bool {
        forall|c: int, r: int|
            0 <= c < pre.spec_width() && 0 <= r < pre.spec_height() ==> #[trigger] post.square_at(
                c,
                r,
            ) == (if c == pos.col && r == pos.row {
                sq
            } else {
                pre.square_at(c, r)
            })
    }

    /// While the board is well formed, every identity at or beyond the
    /// counter is unregistered; issued identities never come back.
    pub proof fn lemma_ids_bounded(self)
        requires
            self.wf(),
        ensures
            forall|id: PieceID| id.0 >= self.counter() ==> !(#[trigger] self.registered(id)),
    {
    }

    /// Allocates an empty grid; all squares `Empty`, counter at 0.
    pub fn new(width: usize, height: usize) -> (b: Board)
        requires
            width * height <= usize::MAX,
        ensures
            b.wf(),
            b.consistent(),
            b.spec_width() == width,
            b.spec_height() == height,
            b.counter() == 0,
            forall|c: int, r: int|
                0 <= c < width && 0 <= r < height ==> #[trigger] b.square_at(c, r) == Square::Empty,
            forall|id: PieceID| #[trigger] b.piece_at(id) == None::<Piece>,
    {
        let n = width * height;
        let b = Board {
            width,
            height,
            squares: vec![Square::Empty; n],
            pieces: Vec::new(),
            id_counter: 0,
        };
        proof {
            assert forall|c: int, r: int| 0 <= c < width && 0 <= r < height implies #[trigger] b
                .square_at(c, r) == Square::Empty by {
                lemma_grid_index(width as int, height as int, c, r);
            }
        }
        b
    }

    /// Pure read accessor; out-of-range positions yield no answer.
    pub fn get_square(&self, pos: BoardPos) -> (r: Option<&Square>)
        requires
            self.wf(),
        ensures
            r is Some <==> self.in_bounds(pos),
            r matches Some(sq) ==> *sq == self.square_at(pos.col as int, pos.row as int),
    {
        if pos.col < self.width && pos.row < self.height {
            proof {
                lemma_grid_index(
                    self.spec_width(),
                    self.spec_height(),
                    pos.col as int,
                    pos.row as int,
                );
            }
            let idx = pos.col * self.height + pos.row;
            Some(&self.squares[idx])
        } else {
            None
        }
    }

    /// Writes `sq` into the square at `pos`, touching nothing else.
    fn set_square(&mut self, pos: BoardPos, sq: Square)
        requires
            old(self).wf(),
            old(self).in_bounds(pos),
        ensures
            final(self).wf(),
            final(self).same_dims(*old(self)),
            final(self).counter() == old(self).counter(),
            final(self).same_registry(*old(self)),
            Board::grid_update(*old(self), *final(self), pos, sq),
    {
        proof {
            lemma_grid_index(self.spec_width(), self.spec_height(), pos.col as int, pos.row as int);
        }
        let idx = pos.col * self.height + pos.row;
        self.squares.set(idx, sq);
        proof {
            assert forall|c: int, r: int|
                0 <= c < old(self).spec_width() && 0 <= r < old(self).spec_height() implies #[trigger] final(self).square_at(c, r) == (if c == pos.col && r == pos.row {
                sq
            } else {
                old(self).square_at(c, r)
            }) by {
                lemma_grid_index(old(self).spec_width(), old(self).spec_height(), c, r);
                if !(c == pos.col && r == pos.row) && c * old(self).spec_height() + r == pos.col
                    * old(self).spec_height() + pos.row {
                    lemma_grid_index_inj(
                        old(self).spec_height(),
                        c,
                        r,
                        pos.col as int,
                        pos.row as int,
                    );
                }
            }
        }
    }

    /// Allocates a fresh identity for `piece` and registers it; the grid is
    /// untouched, so the new piece is registered but unplaced.
    fn generate_new_piece(&mut self, piece: Piece) -> (id: PieceID)
        requires
            old(self).wf(),
        ensures
            final(self).wf(),
            id == old(self).fresh_id(),
            final(self).same_dims(*old(self)),
            final(self).counter() == old(self).counter() + 1,
            0 <= old(self).counter() < usize::MAX,
            final(self).same_squares(*old(self)),
            forall|id2: PieceID| #[trigger]
                final(self).piece_at(id2) == (if id2 == old(self).fresh_id() {
                    Some(piece)
                } else {
                    old(self).piece_at(id2)
                }),
    {
        let id = PieceID(self.id_counter);
        self.pieces.push(Some(piece));
        self.id_counter = self.pieces.len();
        id
    }

    /// Deletes the identity from the registry and returns its record; any
    /// square still referencing it is left as it stands.
    pub fn remove_piece(&mut self, id: PieceID) -> (r: Result<Piece, BoardError>)
        requires
            old(self).wf(),
        ensures
            final(self).wf(),
            final(self).same_dims(*old(self)),
            final(self).counter() == old(self).counter(),
            final(self).same_squares(*old(self)),
            old(self).piece_at(id) matches Some(p) ==> r == Ok::<Piece, BoardError>(p),
            !old(self).registered(id) ==> r == Err::<Piece, BoardError>(
                BoardError::InvalidPieceID(id),
            ) && final(self).same_registry(*old(self)),
            forall|id2: PieceID| #[trigger]
                final(self).piece_at(id2) == (if id2 == id && old(self).registered(id) {
                    None
                } else {
                    old(self).piece_at(id2)
                }),
    {
        if id.0 < self.pieces.len() {
            match self.pieces[id.0] {
                Some(p) => {
                    self.pieces.set(id.0, None);
                    Ok(p)
                },
                None => Err(BoardError::InvalidPieceID(id)),
            }
        } else {
            Err(BoardError::InvalidPieceID(id))
        }
    }

    /// Writes `id` into the target square if that square is currently empty.
    ///
    /// This is a raw square-write primitive: it neither checks that `id` is
    /// registered nor clears any square `id` previously sat on; a full
    /// relocation must be composed on top of it.
    pub fn move_piece(&mut self, id: PieceID, pos: BoardPos) -> (r: Result<BoardPos, BoardError>)
        requires
            old(self).wf(),
        ensures
            final(self).wf(),
            final(self).same_dims(*old(self)),
            final(self).counter() == old(self).counter(),
            final(self).same_registry(*old(self)),
            !old(self).in_bounds(pos) ==> r == Err::<BoardPos, BoardError>(
                BoardError::OutsideOfBoard(pos),
            ) && final(self).same_squares(*old(self)),
            old(self).in_bounds(pos) && old(self).square_at(pos.col as int, pos.row as int)
                == Square::Empty ==> r == Ok::<BoardPos, BoardError>(pos) && Board::grid_update(
                *old(self),
                *final(self),
                pos,
                Square::Piece(id),
            ),
            old(self).in_bounds(pos) ==> (old(self).square_at(
                pos.col as int,
                pos.row as int,
            ) matches Square::Piece(occ) ==> r == Err::<BoardPos, BoardError>(
                BoardError::OccupiedSquare(pos, occ),
            ) && final(self).same_squares(*old(self))),
            old(self).consistent() && old(self).registered(id) && (forall|c: int, r2: int|
                0 <= c < old(self).spec_width() && 0 <= r2 < old(self).spec_height()
                    ==> #[trigger] old(self).square_at(c, r2) != Square::Piece(id)) ==> final(self).consistent(),
    {
        if pos.col < self.width && pos.row < self.height {
            proof {
                lemma_grid_index(
                    self.spec_width(),
                    self.spec_height(),
                    pos.col as int,
                    pos.row as int,
                );
            }
            let idx = pos.col * self.height + pos.row;
            match self.squares[idx] {
                Square::Empty => {
                    self.set_square(pos, Square::Piece(id));
                    Ok(pos)
                },
                Square::Piece(occ) => Err(BoardError::OccupiedSquare(pos, occ)),
            }
        } else {
            Err(BoardError::OutsideOfBoard(pos))
        }
    }

    /// Writes `id` into the target square; an existing occupant is evicted
    /// from the registry (capture) rather than reported as an error.
    ///
    /// Like `move_piece`, this is a raw square-write primitive; evicting an
    /// occupant that is not registered is reported as `InvalidPieceID`, and
    /// on that path the square has already been overwritten.
    pub fn move_piece_force(&mut self, id: PieceID, pos: BoardPos) -> (r: Result<
        BoardPos,
        BoardError,
    >)
        requires
            old(self).wf(),
        ensures
            final(self).wf(),
            final(self).same_dims(*old(self)),
            final(self).counter() == old(self).counter(),
            !old(self).in_bounds(pos) ==> r == Err::<BoardPos, BoardError>(
                BoardError::OutsideOfBoard(pos),
            ) && final(self).same_squares(*old(self)) && final(self).same_registry(*old(self)),
            old(self).in_bounds(pos) ==> Board::grid_update(
                *old(self),
                *final(self),
                pos,
                Square::Piece(id),
            ),
            old(self).in_bounds(pos) && old(self).square_at(pos.col as int, pos.row as int)
                == Square::Empty ==> r == Ok::<BoardPos, BoardError>(pos) && final(self).same_registry(*old(self)),
            old(self).in_bounds(pos) ==> (old(self).square_at(
                pos.col as int,
                pos.row as int,
            ) matches Square::Piece(occ) ==> {
                &&& old(self).registered(occ) ==> r == Ok::<BoardPos, BoardError>(pos)
                &&& !old(self).registered(occ) ==> r == Err::<BoardPos, BoardError>(
                    BoardError::InvalidPieceID(occ),
                )
                &&& forall|id2: PieceID| #[trigger]
                    final(self).piece_at(id2) == (if id2 == occ && old(self).registered(occ) {
                        None
                    } else {
                        old(self).piece_at(id2)
                    })
            }),
            old(self).consistent() && old(self).in_bounds(pos) ==> r is Ok,
            old(self).consistent() && old(self).registered(id) && (forall|c: int, r2: int|
                0 <= c < old(self).spec_width() && 0 <= r2 < old(self).spec_height()
                    ==> #[trigger] old(self).square_at(c, r2) != Square::Piece(id)) ==> final(self).consistent(),
    {
        if pos.col < self.width && pos.row < self.height {
            proof {
                lemma_grid_index(
                    self.spec_width(),
                    self.spec_height(),
                    pos.col as int,
                    pos.row as int,
                );
            }
            let idx = pos.col * self.height + pos.row;
            match self.squares[idx] {
                Square::Empty => {
                    self.set_square(pos, Square::Piece(id));
                    Ok(pos)
                },
                Square::Piece(old_id) => {
                    self.set_square(pos, Square::Piece(id));
                    match self.remove_piece(old_id) {
                        Ok(_) => Ok(pos),
                        Err(e) => Err(e),
                    }
                },
            }
        } else {
            Err(BoardError::OutsideOfBoard(pos))
        }
    }

    /// Allocates a fresh identity for `piece`, registers it, then attempts
    /// to place it at `pos`.
    ///
    /// On a failed placement the identity remains registered but unplaced:
    /// callers must treat failure as "piece not on the board" and may remove
    /// the orphaned registry entry explicitly.
    pub fn add_piece(&mut self, pos: BoardPos, piece: Piece) -> (r: Result<PieceID, BoardError>)
        requires
            old(self).wf(),
        ensures
            final(self).wf(),
            final(self).same_dims(*old(self)),
            final(self).counter() == old(self).counter() + 1,
            0 <= old(self).counter() < usize::MAX,
            forall|id2: PieceID| #[trigger]
                final(self).piece_at(id2) == (if id2 == old(self).fresh_id() {
                    Some(piece)
                } else {
                    old(self).piece_at(id2)
                }),
            !old(self).in_bounds(pos) ==> r == Err::<PieceID, BoardError>(
                BoardError::OutsideOfBoard(pos),
            ) && final(self).same_squares(*old(self)),
            old(self).in_bounds(pos) && old(self).square_at(pos.col as int, pos.row as int)
                == Square::Empty ==> r == Ok::<PieceID, BoardError>(old(self).fresh_id())
                && Board::grid_update(
                *old(self),
                *final(self),
                pos,
                Square::Piece(old(self).fresh_id()),
            ),
            old(self).in_bounds(pos) ==> (old(self).square_at(
                pos.col as int,
                pos.row as int,
            ) matches Square::Piece(occ) ==> r == Err::<PieceID, BoardError>(
                BoardError::OccupiedSquare(pos, occ),
            ) && final(self).same_squares(*old(self))),
            old(self).wf() && old(self).consistent() ==> final(self).consistent(),
    {
        proof {
            old(self).lemma_ids_bounded();
        }
        let id = self.generate_new_piece(piece);
        match self.move_piece(id, pos) {
            Ok(_) => Ok(id),
            Err(e) => Err(e),
        }
    }

    /// Allocates a fresh identity for `piece` and places it at `pos`;
    /// placement succeeds for every in-bounds position, evicting any
    /// existing occupant from the registry (capturing semantics).
    pub fn add_piece_forced(&mut self, pos: BoardPos, piece: Piece) -> (r: Result<
        PieceID,
        BoardError,
    >)
        requires
            old(self).wf(),
        ensures
            final(self).wf(),
            final(self).same_dims(*old(self)),
            final(self).counter() == old(self).counter() + 1,
            0 <= old(self).counter() < usize::MAX,
            !old(self).in_bounds(pos) ==> r == Err::<PieceID, BoardError>(
                BoardError::OutsideOfBoard(pos),
            ) && final(self).same_squares(*old(self)) && (forall|id2: PieceID| #[trigger]
                final(self).piece_at(id2) == (if id2 == old(self).fresh_id() {
                    Some(piece)
                } else {
                    old(self).piece_at(id2)
                })),
            old(self).in_bounds(pos) ==> Board::grid_update(
                *old(self),
                *final(self),
                pos,
                Square::Piece(old(self).fresh_id()),
            ),
            old(self).in_bounds(pos) && old(self).square_at(pos.col as int, pos.row as int)
                == Square::Empty ==> r == Ok::<PieceID, BoardError>(old(self).fresh_id()) && (
            forall|id2: PieceID| #[trigger]
                final(self).piece_at(id2) == (if id2 == old(self).fresh_id() {
                    Some(piece)
                } else {
                    old(self).piece_at(id2)
                })),
            old(self).in_bounds(pos) ==> (old(self).square_at(
                pos.col as int,
                pos.row as int,
            ) matches Square::Piece(occ) ==> {
                &&& old(self).registered(occ) || occ == old(self).fresh_id() ==> r == Ok::<
                    PieceID,
                    BoardError,
                >(old(self).fresh_id())
                &&& !(old(self).registered(occ) || occ == old(self).fresh_id()) ==> r == Err::<
                    PieceID,
                    BoardError,
                >(BoardError::InvalidPieceID(occ))
                &&& forall|id2: PieceID| #[trigger]
                    final(self).piece_at(id2) == (if id2 == occ && (old(self).registered(occ)
                        || occ == old(self).fresh_id()) {
                        None
                    } else if id2 == old(self).fresh_id() {
                        Some(piece)
                    } else {
                        old(self).piece_at(id2)
                    })
            }),
            old(self).consistent() && old(self).in_bounds(pos) ==> r == Ok::<PieceID, BoardError>(
                old(self).fresh_id(),
            ),
            old(self).wf() && old(self).consistent() ==> final(self).consistent(),
    {
        proof {
            old(self).lemma_ids_bounded();
        }
        let id = self.generate_new_piece(piece);
        match self.move_piece_force(id, pos) {
            Ok(_) => Ok(id),
            Err(e) => Err(e),
        }
    }

    /// Pure read accessor; unregistered identities yield no answer.
    pub fn get_piece(&self, id: PieceID) -> (r: Option<&Piece>)
        ensures
            r is Some <==> self.registered(id),
            r matches Some(p) ==> self.piece_at(id) == Some(*p),
    {
        if id.0 < self.pieces.len() {
            self.pieces[id.0].as_ref()
        } else {
            None
        }
    }
}

/// In a `width x height` grid, `(col, row)` maps to a flat index inside the
/// grid's extent.
proof fn lemma_grid_index(w: int, h: int, c: int, r: int)
    requires
        0 <= c < w,
        0 <= r < h,
    ensures
        0 <= c * h + r < w * h,
    decreases w,
{
    if c + 1 < w {
        lemma_grid_index(w - 1, h, c, r);
        assert((w - 1) * h + h == w * h) by (nonlinear_arith);
        assert(h > 0);
    } else {
        assert(c == w - 1);
        assert((w - 1) * h + r < w * h) by (nonlinear_arith)
            requires
                0 <= r < h,
                w >= 1,
        ;
        assert(c * h + r >= 0) by (nonlinear_arith)
            requires
                c >= 0,
                h > 0,
                r >= 0,
        ;
    }
}

/// Distinct in-bounds coordinates map to distinct flat indices.
proof fn lemma_grid_index_inj(h: int, c1: int, r1: int, c2: int, r2: int)
    requires
        0 <= c1,
        0 <= r1 < h,
        0 <= c2,
        0 <= r2 < h,
        c1 * h + r1 == c2 * h + r2,
    ensures
        c1 == c2 && r1 == r2,
{
    assert(c1 == c2 && r1 == r2) by (nonlinear_arith)
        requires
            0 <= c1,
            0 <= r1 < h,
            0 <= c2,
            0 <= r2 < h,
            c1 * h + r1 == c2 * h + r2,
    ;
}

} // verus!
