use vstd::prelude::*;

verus! {

use core::marker::PhantomData;
use crate::board::{Board, BoardError, BoardPos, Piece, PieceID, Square};
use crate::layout::Layout;
use crate::ruleset::RuleSet;

/// The two player slots; doubles as a stable identity handle, since exactly
/// one player occupies each slot.
#[derive(Debug, Clone, Copy, PartialEq, Eq, Hash, Structural)]
pub enum PlayerSlot {
    White,
    Black,
}

/// A player identity: a thin wrapper around the slot the player occupies.
#[derive(Debug, Clone, Copy, PartialEq, Eq, Structural)]
pub struct PlayerID(pub PlayerSlot);

/// Identifying information a player is registered with.
#[derive(Clone)]
pub struct PlayerInfo {
    pub ty: PlayerSlot,
    pub name: String,
    pub rating: u32,
}

/// A player record: its info, the ordered list of piece identities it is
/// attributed ownership of, and the historical lists of pieces lost and
/// gained. The piece list references identities in the board's registry by
/// value; the board stays the sole owner of piece data.
pub struct Player {
    pub info: PlayerInfo,
    pub pieces: Vec<PieceID>,
    pub lost: Vec<Piece>,
    pub gained: Vec<Piece>,
}

#[derive(Debug, Clone, Copy, PartialEq, Eq, Structural)]
pub enum GameError {
    PlayerSlotOccupied(PlayerID),
    InvalidPlayerID(PlayerID),
    BoardError(BoardError),
}

impl From<BoardError> for GameError {
    fn from(err: BoardError) -> (r: GameError) {
        GameError::BoardError(err)
    }
}

impl vstd::std_specs::convert::FromSpecImpl<BoardError> for GameError {
    open spec fn obeys_from_spec() -> bool {
        true
    }

    open spec fn from_spec(v: BoardError) -> GameError {
        GameError::BoardError(v)
    }
}

/// A game: exactly one board plus the players, one per slot. The type is
/// tagged by which `Layout` produced it and which `RuleSet` governs it, so
/// games under different rule sets are distinct types.
pub struct Game<L, R> {
    white: Option<Player>,
    black: Option<Player>,
    board: Board,
    _l: PhantomData<L>,
    _gr: PhantomData<R>,
}

impl<L, R> Game<L, R> {
    pub closed spec fn spec_board(self) -> Board {
        self.board
    }

    /// The player occupying `slot`, if any.
    pub closed spec fn spec_player(self, slot: PlayerSlot) -> Option<Player> {
        match slot {
            PlayerSlot::White => self.white,
            PlayerSlot::Black => self.black,
        }
    }

    /// The board is well formed and each registered player sits in the slot
    /// its info names.
    pub open spec fn wf(self) -> bool {
        &&& self.spec_board().wf()
        &&& (self.spec_player(PlayerSlot::White) matches Some(p) ==> p.info.ty
            == PlayerSlot::White)
        &&& (self.spec_player(PlayerSlot::Black) matches Some(p) ==> p.info.ty
            == PlayerSlot::Black)
    }

    /// Both games hold the same player records in every slot.
    pub open spec fn same_players(self, other: Game<L, R>) -> bool {
        forall|s: PlayerSlot| #[trigger] self.spec_player(s) == other.spec_player(s)
    }

    /// Wraps a board in a game with no players registered yet.
    pub(crate) fn with_board(board: Board) -> (g: Game<L, R>)
        requires
            board.wf(),
        ensures
            g.wf(),
            g.spec_board() == board,
            g.spec_player(PlayerSlot::White) is None,
            g.spec_player(PlayerSlot::Black) is None,
    {
        Game { white: None, black: None, board, _l: PhantomData, _gr: PhantomData }
    }

    /// Registers a player, keyed by the slot its info names; a slot only
    /// ever holds one player at a time.
    pub fn add_player(&mut self, info: PlayerInfo) -> (r: Result<PlayerID, GameError>)
        requires
            old(self).wf(),
        ensures
            final(self).wf(),
            final(self).spec_board() == old(self).spec_board(),
            old(self).spec_player(info.ty) is Some ==> r == Err::<PlayerID, GameError>(
                GameError::PlayerSlotOccupied(PlayerID(info.ty)),
            ) && final(self).same_players(*old(self)),
            old(self).spec_player(info.ty) is None ==> {
                &&& r == Ok::<PlayerID, GameError>(PlayerID(info.ty))
                &&& final(self).spec_player(info.ty) matches Some(p) && p.info == info
                    && p.pieces@.len() == 0 && p.lost@.len() == 0 && p.gained@.len() == 0
                &&& forall|s: PlayerSlot|
                    s != info.ty ==> #[trigger] final(self).spec_player(s) == old(self).spec_player(
                        s,
                    )
            },
    {
        let id = PlayerID(info.ty);
        match info.ty {
            PlayerSlot::White => {
                if self.white.is_some() {
                    Err(GameError::PlayerSlotOccupied(id))
                } else {
                    self.white = Some(
                        Player { info, pieces: Vec::new(), lost: Vec::new(), gained: Vec::new() },
                    );
                    Ok(id)
                }
            },
            PlayerSlot::Black => {
                if self.black.is_some() {
                    Err(GameError::PlayerSlotOccupied(id))
                } else {
                    self.black = Some(
                        Player { info, pieces: Vec::new(), lost: Vec::new(), gained: Vec::new() },
                    );
                    Ok(id)
                }
            },
        }
    }

    /// Unregisters the player and returns its full record, piece and history
    /// lists included, to the caller for disposal or archival.
    pub fn remove_player(&mut self, id: PlayerID) -> (r: Result<Player, GameError>)
        requires
            old(self).wf(),
        ensures
            final(self).wf(),
            final(self).spec_board() == old(self).spec_board(),
            old(self).spec_player(id.0) matches Some(p) ==> r == Ok::<Player, GameError>(p)
                && final(self).spec_player(id.0) is None,
            old(self).spec_player(id.0) is None ==> r == Err::<Player, GameError>(
                GameError::InvalidPlayerID(id),
            ) && final(self).same_players(*old(self)),
            forall|s: PlayerSlot|
                s != id.0 ==> #[trigger] final(self).spec_player(s) == old(self).spec_player(s),
    {
        match id.0 {
            PlayerSlot::White => match self.white.take() {
                Some(p) => Ok(p),
                None => Err(GameError::InvalidPlayerID(id)),
            },
            PlayerSlot::Black => match self.black.take() {
                Some(p) => Ok(p),
                None => Err(GameError::InvalidPlayerID(id)),
            },
        }
    }

    /// Delegates placement to the board, then appends the new identity to
    /// the owning player's piece list.
    ///
    /// The owner check happens after the board placement: on an unregistered
    /// owner the piece already sits on the board, attributed to nobody, and
    /// the call reports `InvalidPlayerID`.
    pub fn add_piece(&mut self, pos: BoardPos, piece: Piece) -> (r: Result<PieceID, GameError>)
        requires
            old(self).wf(),
        ensures
            final(self).wf(),
            final(self).spec_board().same_dims(old(self).spec_board()),
            final(self).spec_board().counter() == old(self).spec_board().counter() + 1,
            0 <= old(self).spec_board().counter() < usize::MAX,
            forall|id2: PieceID| #[trigger]
                final(self).spec_board().piece_at(id2) == (if id2 == old(self).spec_board().fresh_id() {
                    Some(piece)
                } else {
                    old(self).spec_board().piece_at(id2)
                }),
            old(self).spec_board().consistent() ==> final(self).spec_board().consistent(),
            !old(self).spec_board().in_bounds(pos) ==> r == Err::<PieceID, GameError>(
                GameError::BoardError(BoardError::OutsideOfBoard(pos)),
            ) && final(self).spec_board().same_squares(old(self).spec_board()) && final(self).same_players(*old(self)),
            old(self).spec_board().in_bounds(pos) ==> (old(self).spec_board().square_at(
                pos.col as int,
                pos.row as int,
            ) matches Square::Piece(occ) ==> r == Err::<PieceID, GameError>(
                GameError::BoardError(BoardError::OccupiedSquare(pos, occ)),
            ) && final(self).spec_board().same_squares(old(self).spec_board()) && final(self).same_players(*old(self))),
            old(self).spec_board().in_bounds(pos) && old(self).spec_board().square_at(
                pos.col as int,
                pos.row as int,
            ) == Square::Empty ==> {
                &&& Board::grid_update(
                    old(self).spec_board(),
                    final(self).spec_board(),
                    pos,
                    Square::Piece(old(self).spec_board().fresh_id()),
                )
                &&& (old(self).spec_player(piece.owner.0) matches Some(p) ==> {
                    &&& r == Ok::<PieceID, GameError>(old(self).spec_board().fresh_id())
                    &&& final(self).spec_player(piece.owner.0) matches Some(q) && q.info == p.info
                        && q.lost == p.lost && q.gained == p.gained && q.pieces@
                        == p.pieces@.push(old(self).spec_board().fresh_id())
                    &&& forall|s: PlayerSlot|
                        s != piece.owner.0 ==> #[trigger] final(self).spec_player(s) == old(self).spec_player(s)
                })
                &&& (old(self).spec_player(piece.owner.0) is None ==> r == Err::<
                    PieceID,
                    GameError,
                >(GameError::InvalidPlayerID(piece.owner)) && final(self).same_players(*old(self)))
            },
    {
        let player_id = piece.owner;
        let piece_id = match self.board.add_piece(pos, piece) {
            Ok(id) => id,
            Err(e) => {
                return Err(GameError::BoardError(e));
            },
        };
        match player_id.0 {
            PlayerSlot::White => match self.white.take() {
                Some(mut p) => {
                    p.pieces.push(piece_id);
                    self.white = Some(p);
                    Ok(piece_id)
                },
                None => Err(GameError::InvalidPlayerID(player_id)),
            },
            PlayerSlot::Black => match self.black.take() {
                Some(mut p) => {
                    p.pieces.push(piece_id);
                    self.black = Some(p);
                    Ok(piece_id)
                },
                None => Err(GameError::InvalidPlayerID(player_id)),
            },
        }
    }

    /// Read accessor for the player occupying the slot `id` names.
    pub fn get_player(&self, id: PlayerID) -> (r: Option<&Player>)
        ensures
            r is Some <==> self.spec_player(id.0) is Some,
            r matches Some(p) ==> self.spec_player(id.0) == Some(*p),
    {
        match id.0 {
            PlayerSlot::White => self.white.as_ref(),
            PlayerSlot::Black => self.black.as_ref(),
        }
    }

    /// Read accessor for the board.
    pub fn board(&self) -> (b: &Board)
        ensures
            *b == self.spec_board(),
    {
        &self.board
    }
}

impl<L: Layout, R: RuleSet> Game<L, R> {
    /// Builds the ready-to-play game the layout `L` describes.
    pub fn new(layout_data: L::Input) -> (g: Game<L, R>)
        ensures
            g.wf(),
    {
        L::layout(layout_data)
    }
}

} // verus!
