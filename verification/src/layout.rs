use vstd::prelude::*;

verus! {

use crate::board::{Board, BoardPos, Piece, PieceID, PieceTy, Square};
use crate::game::{Game, PlayerID, PlayerInfo, PlayerSlot};
use crate::ruleset::RuleSet;

/// An initial-setup generation strategy: given an implementation-defined
/// input, it produces a ready-to-play game for a chosen rule set.
pub trait Layout: Sized {
    type Input;

    fn layout<R: RuleSet>(input: Self::Input) -> (g: Game<Self, R>)
        ensures
            g.wf(),
    ;
}

/// The canonical layout: an 8x8 board with the standard starting
/// arrangement.
pub struct Default;

/// Setup input for `Default`: the two players' names and ratings.
pub struct DefaultInput {
    pub white_name: String,
    pub white_rating: u32,
    pub black_name: String,
    pub black_rating: u32,
}

/// A pawn owned by `owner`.
pub open spec fn pawn(owner: PlayerID) -> Piece {
    Piece { owner, ty: PieceTy::Pawn }
}

/// The piece type a back rank holds at column `col`: rook, knight, bishop,
/// queen, king, bishop, knight, rook.
pub open spec fn back_rank_ty(col: int) -> PieceTy {
    if col == 0 || col == 7 {
        PieceTy::Rook
    } else if col == 1 || col == 6 {
        PieceTy::Knight
    } else if col == 2 || col == 5 {
        PieceTy::Bishop
    } else if col == 3 {
        PieceTy::Queen
    } else {
        PieceTy::King
    }
}

/// The back-rank piece at column `col`, owned by `owner`.
pub open spec fn back_rank_piece(owner: PlayerID, col: int) -> Piece {
    Piece { owner, ty: back_rank_ty(col) }
}

/// What the default layout leaves on square `(c, r)`: white's pawns on row
/// 1 and back rank on row 0, black's pawns on row 6 and back rank on row 7,
/// with the piece identities the layout issues in placement order.
pub open spec fn standard_square(c: int, r: int) -> Square {
    if r == 6 {
        Square::Piece(PieceID(c as usize))
    } else if r == 1 {
        Square::Piece(PieceID((8 + c) as usize))
    } else if r == 0 {
        Square::Piece(PieceID((16 + c) as usize))
    } else if r == 7 {
        Square::Piece(PieceID((24 + c) as usize))
    } else {
        Square::Empty
    }
}

/// What the default layout registers under identity value `n`.
pub open spec fn standard_piece(n: int) -> Option<Piece> {
    if 0 <= n < 8 {
        Some(pawn(PlayerID(PlayerSlot::Black)))
    } else if 8 <= n < 16 {
        Some(pawn(PlayerID(PlayerSlot::White)))
    } else if 16 <= n < 24 {
        Some(back_rank_piece(PlayerID(PlayerSlot::White), n - 16))
    } else if 24 <= n < 32 {
        Some(back_rank_piece(PlayerID(PlayerSlot::Black), n - 24))
    } else {
        None
    }
}

/// Places `owner`'s eight pawns across row `row`, one per column; the
/// placements land on empty squares, so they cannot fail.
fn place_pawn_row<L, R>(g: &mut Game<L, R>, row: usize, owner: PlayerID)
    requires
        old(g).wf(),
        old(g).spec_board().consistent(),
        old(g).spec_player(owner.0) is Some,
        old(g).spec_board().spec_width() == 8,
        (row as int) < old(g).spec_board().spec_height(),
        forall|c: int|
            0 <= c < 8 ==> #[trigger] old(g).spec_board().square_at(c, row as int)
                == Square::Empty,
    ensures
        final(g).wf(),
        final(g).spec_board().consistent(),
        final(g).spec_board().same_dims(old(g).spec_board()),
        final(g).spec_board().counter() == old(g).spec_board().counter() + 8,
        forall|c: int, r: int|
            0 <= c < 8 && 0 <= r < old(g).spec_board().spec_height() && r != row
                ==> #[trigger] final(g).spec_board().square_at(c, r) == old(
                g,
            ).spec_board().square_at(c, r),
        forall|c: int|
            0 <= c < 8 ==> #[trigger] final(g).spec_board().square_at(c, row as int)
                == Square::Piece(PieceID((old(g).spec_board().counter() + c) as usize)),
        forall|id2: PieceID| #[trigger]
            final(g).spec_board().piece_at(id2) == (if old(g).spec_board().counter() <= id2.0 < old(
                g,
            ).spec_board().counter() + 8 {
                Some(pawn(owner))
            } else {
                old(g).spec_board().piece_at(id2)
            }),
        old(g).spec_player(owner.0) matches Some(p) && final(g).spec_player(
            owner.0,
        ) matches Some(q) && q.info == p.info && q.lost == p.lost && q.gained == p.gained
            && q.pieces@.len() == p.pieces@.len() + 8 && (forall|i: int|
            0 <= i < p.pieces@.len() ==> q.pieces@[i] == p.pieces@[i]) && (forall|i: int|
            p.pieces@.len() <= i < p.pieces@.len() + 8 ==> q.pieces@[i] == PieceID(
                (old(g).spec_board().counter() + i - p.pieces@.len()) as usize,
            )),
        forall|s: PlayerSlot|
            s != owner.0 ==> #[trigger] final(g).spec_player(s) == old(g).spec_player(s),
{
    for col in 0..8usize
        invariant
            g.wf(),
            forall|c: int|
                0 <= c < 8 ==> #[trigger] old(g).spec_board().square_at(c, row as int)
                    == Square::Empty,
            g.spec_board().consistent(),
            g.spec_board().same_dims(old(g).spec_board()),
            g.spec_board().spec_width() == 8,
            (row as int) < g.spec_board().spec_height(),
            g.spec_board().counter() == old(g).spec_board().counter() + col,
            forall|c: int, r: int|
                0 <= c < 8 && 0 <= r < g.spec_board().spec_height() && !(r == row && c < col)
                    ==> #[trigger] g.spec_board().square_at(c, r) == old(g).spec_board().square_at(
                    c,
                    r,
                ),
            forall|c: int|
                0 <= c < col ==> #[trigger] g.spec_board().square_at(c, row as int)
                    == Square::Piece(PieceID((old(g).spec_board().counter() + c) as usize)),
            forall|id2: PieceID| #[trigger]
                g.spec_board().piece_at(id2) == (if old(g).spec_board().counter() <= id2.0 < old(
                    g,
                ).spec_board().counter() + col {
                    Some(pawn(owner))
                } else {
                    old(g).spec_board().piece_at(id2)
                }),
            old(g).spec_player(owner.0) matches Some(p) && g.spec_player(owner.0) matches Some(q)
                && q.info == p.info && q.lost == p.lost && q.gained == p.gained && q.pieces@.len()
                == p.pieces@.len() + col && (forall|i: int|
                0 <= i < p.pieces@.len() ==> q.pieces@[i] == p.pieces@[i]) && (forall|i: int|
                p.pieces@.len() <= i < p.pieces@.len() + col ==> q.pieces@[i] == PieceID(
                    (old(g).spec_board().counter() + i - p.pieces@.len()) as usize,
                )),
            forall|s: PlayerSlot|
                s != owner.0 ==> #[trigger] g.spec_player(s) == old(g).spec_player(s),
    {
        let pos = BoardPos { col, row };
        g.add_piece(pos, Piece { owner, ty: PieceTy::Pawn }).expect("failure on adding pawn");
    }
}

/// Places `owner`'s back rank across row `row`: rook, knight, bishop,
/// queen, king, bishop, knight, rook at columns 0 through 7; the placements
/// land on empty squares, so they cannot fail.
fn place_back_row<L, R>(g: &mut Game<L, R>, row: usize, owner: PlayerID)
    requires
        old(g).wf(),
        old(g).spec_board().consistent(),
        old(g).spec_player(owner.0) is Some,
        old(g).spec_board().spec_width() == 8,
        (row as int) < old(g).spec_board().spec_height(),
        forall|c: int|
            0 <= c < 8 ==> #[trigger] old(g).spec_board().square_at(c, row as int)
                == Square::Empty,
    ensures
        final(g).wf(),
        final(g).spec_board().consistent(),
        final(g).spec_board().same_dims(old(g).spec_board()),
        final(g).spec_board().counter() == old(g).spec_board().counter() + 8,
        forall|c: int, r: int|
            0 <= c < 8 && 0 <= r < old(g).spec_board().spec_height() && r != row
                ==> #[trigger] final(g).spec_board().square_at(c, r) == old(
                g,
            ).spec_board().square_at(c, r),
        forall|c: int|
            0 <= c < 8 ==> #[trigger] final(g).spec_board().square_at(c, row as int)
                == Square::Piece(PieceID((old(g).spec_board().counter() + c) as usize)),
        forall|id2: PieceID| #[trigger]
            final(g).spec_board().piece_at(id2) == (if old(g).spec_board().counter() <= id2.0 < old(
                g,
            ).spec_board().counter() + 8 {
                Some(back_rank_piece(owner, id2.0 - old(g).spec_board().counter()))
            } else {
                old(g).spec_board().piece_at(id2)
            }),
        old(g).spec_player(owner.0) matches Some(p) && final(g).spec_player(
            owner.0,
        ) matches Some(q) && q.info == p.info && q.lost == p.lost && q.gained == p.gained
            && q.pieces@.len() == p.pieces@.len() + 8 && (forall|i: int|
            0 <= i < p.pieces@.len() ==> q.pieces@[i] == p.pieces@[i]) && (forall|i: int|
            p.pieces@.len() <= i < p.pieces@.len() + 8 ==> q.pieces@[i] == PieceID(
                (old(g).spec_board().counter() + i - p.pieces@.len()) as usize,
            )),
        forall|s: PlayerSlot|
            s != owner.0 ==> #[trigger] final(g).spec_player(s) == old(g).spec_player(s),
{
    g.add_piece(BoardPos { col: 0, row }, Piece { owner, ty: PieceTy::Rook }).expect(
        "failure to add rook",
    );
    g.add_piece(BoardPos { col: 1, row }, Piece { owner, ty: PieceTy::Knight }).expect(
        "failure to add rook",
    );
    g.add_piece(BoardPos { col: 2, row }, Piece { owner, ty: PieceTy::Bishop }).expect(
        "failure to add rook",
    );
    g.add_piece(BoardPos { col: 3, row }, Piece { owner, ty: PieceTy::Queen }).expect(
        "failure to add rook",
    );
    g.add_piece(BoardPos { col: 4, row }, Piece { owner, ty: PieceTy::King }).expect(
        "failure to add rook",
    );
    g.add_piece(BoardPos { col: 5, row }, Piece { owner, ty: PieceTy::Bishop }).expect(
        "failure to add rook",
    );
    g.add_piece(BoardPos { col: 6, row }, Piece { owner, ty: PieceTy::Knight }).expect(
        "failure to add rook",
    );
    g.add_piece(BoardPos { col: 7, row }, Piece { owner, ty: PieceTy::Rook }).expect(
        "failure to add rook",
    );
}

impl Layout for Default {
    type Input = DefaultInput;

    /// Builds the canonical game: an 8x8 board, a white and a black player
    /// from the supplied names and ratings, each side's eight pawns, and the
    /// standard back ranks; every placement is proved to succeed.
    fn layout<R: RuleSet>(input: DefaultInput) -> (g: Game<Default, R>)
        ensures
            g.wf(),
            g.spec_board().consistent(),
            g.spec_board().spec_width() == 8,
            g.spec_board().spec_height() == 8,
            g.spec_board().counter() == 32,
            forall|c: int, r: int|
                0 <= c < 8 && 0 <= r < 8 ==> #[trigger] g.spec_board().square_at(c, r)
                    == standard_square(c, r),
            forall|id: PieceID| #[trigger] g.spec_board().piece_at(id) == standard_piece(
                id.0 as int,
            ),
            g.spec_player(PlayerSlot::White) matches Some(p) && p.info.ty == PlayerSlot::White
                && p.info.name == input.white_name && p.info.rating == input.white_rating
                && p.lost@.len() == 0 && p.gained@.len() == 0 && p.pieces@.len() == 16 && (forall|
                i: int,
            |
                0 <= i < 16 ==> p.pieces@[i] == PieceID((8 + i) as usize)),
            g.spec_player(PlayerSlot::Black) matches Some(p) && p.info.ty == PlayerSlot::Black
                && p.info.name == input.black_name && p.info.rating == input.black_rating
                && p.lost@.len() == 0 && p.gained@.len() == 0 && p.pieces@.len() == 16 && (forall|
                i: int,
            |
                0 <= i < 8 ==> p.pieces@[i] == PieceID(i as usize)) && (forall|i: int|
                8 <= i < 16 ==> p.pieces@[i] == PieceID((16 + i) as usize)),
    {
        let DefaultInput { white_name, white_rating, black_name, black_rating } = input;
        let mut game: Game<Default, R> = Game::with_board(Board::new(8, 8));

        let white_id = game.add_player(
            PlayerInfo { ty: PlayerSlot::White, name: white_name, rating: white_rating },
        ).expect("Unable to add white player");
        let black_id = game.add_player(
            PlayerInfo { ty: PlayerSlot::Black, name: black_name, rating: black_rating },
        ).expect("unable to add black player");

        place_pawn_row(&mut game, 6, black_id);
        place_pawn_row(&mut game, 1, white_id);
        place_back_row(&mut game, 0, white_id);
        place_back_row(&mut game, 7, black_id);

        game
    }
}

} // verus!
