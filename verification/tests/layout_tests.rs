use chess_core::board::{Board, BoardPos, PieceID, PieceTy, Square};
use chess_core::game::{Game, PlayerID, PlayerSlot};
use chess_core::layout::DefaultInput;
use chess_core::ruleset::ClassicRules;

fn default_game() -> Game<chess_core::layout::Default, ClassicRules> {
    Game::new(DefaultInput {
        white_name: "Ada".to_string(),
        white_rating: 2000,
        black_name: "Ben".to_string(),
        black_rating: 1800,
    })
}

fn occupant(board: &Board, col: usize, row: usize) -> Option<PieceID> {
    match board.get_square(BoardPos { col, row }) {
        Some(Square::Piece(id)) => Some(*id),
        Some(Square::Empty) => None,
        None => panic!("position ({col}, {row}) should be on the board"),
    }
}

#[test]
fn default_layout_places_exactly_thirty_two_pieces() {
    let game = default_game();
    let board = game.board();

    let mut occupied = 0;
    let mut white_pieces = 0;
    let mut black_pieces = 0;
    for col in 0..8 {
        for row in 0..8 {
            if let Some(id) = occupant(board, col, row) {
                occupied += 1;
                let piece = board.get_piece(id).expect("occupant must be registered");
                match piece.owner.0 {
                    PlayerSlot::White => white_pieces += 1,
                    PlayerSlot::Black => black_pieces += 1,
                }
            }
        }
    }
    assert_eq!(occupied, 32);
    assert_eq!(white_pieces, 16);
    assert_eq!(black_pieces, 16);
}

#[test]
fn default_layout_pawn_rows() {
    let game = default_game();
    let board = game.board();

    for col in 0..8 {
        let white_pawn = occupant(board, col, 1).expect("white pawn expected");
        let piece = board.get_piece(white_pawn).unwrap();
        assert_eq!(piece.ty, PieceTy::Pawn);
        assert_eq!(piece.owner, PlayerID(PlayerSlot::White));

        let black_pawn = occupant(board, col, 6).expect("black pawn expected");
        let piece = board.get_piece(black_pawn).unwrap();
        assert_eq!(piece.ty, PieceTy::Pawn);
        assert_eq!(piece.owner, PlayerID(PlayerSlot::Black));
    }
}

#[test]
fn default_layout_back_ranks_in_fixed_order() {
    let game = default_game();
    let board = game.board();
    let order = [
        PieceTy::Rook,
        PieceTy::Knight,
        PieceTy::Bishop,
        PieceTy::Queen,
        PieceTy::King,
        PieceTy::Bishop,
        PieceTy::Knight,
        PieceTy::Rook,
    ];

    for (col, expected) in order.iter().enumerate() {
        let white_back = occupant(board, col, 0).expect("white back rank expected");
        let piece = board.get_piece(white_back).unwrap();
        assert_eq!(piece.ty, *expected);
        assert_eq!(piece.owner, PlayerID(PlayerSlot::White));

        let black_back = occupant(board, col, 7).expect("black back rank expected");
        let piece = board.get_piece(black_back).unwrap();
        assert_eq!(piece.ty, *expected);
        assert_eq!(piece.owner, PlayerID(PlayerSlot::Black));
    }
}

#[test]
fn default_layout_middle_rows_empty() {
    let game = default_game();
    let board = game.board();
    for col in 0..8 {
        for row in 2..6 {
            assert_eq!(occupant(board, col, row), None);
        }
    }
}

#[test]
fn default_layout_attributes_sixteen_pieces_per_player() {
    let game = default_game();

    let white = game.get_player(PlayerID(PlayerSlot::White)).unwrap();
    assert_eq!(white.info.name, "Ada");
    assert_eq!(white.info.rating, 2000);
    let expected: Vec<PieceID> = (8..24).map(PieceID).collect();
    assert_eq!(white.pieces, expected);

    let black = game.get_player(PlayerID(PlayerSlot::Black)).unwrap();
    assert_eq!(black.info.name, "Ben");
    assert_eq!(black.info.rating, 1800);
    let mut expected: Vec<PieceID> = (0..8).map(PieceID).collect();
    expected.extend((24..32).map(PieceID));
    assert_eq!(black.pieces, expected);
}
