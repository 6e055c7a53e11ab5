use chess_core::board::{BoardError, BoardPos, Piece, PieceID, PieceTy, Square};
use chess_core::game::{Game, GameError, PlayerID, PlayerInfo, PlayerSlot};
use chess_core::layout::DefaultInput;
use chess_core::ruleset::ClassicRules;

fn default_game() -> Game<chess_core::layout::Default, ClassicRules> {
    Game::new(DefaultInput {
        white_name: "Ada".to_string(),
        white_rating: 2000,
        black_name: "Ben".to_string(),
        black_rating: 1800,
    })
}

fn white() -> PlayerID {
    PlayerID(PlayerSlot::White)
}

fn black() -> PlayerID {
    PlayerID(PlayerSlot::Black)
}

#[test]
fn add_player_to_occupied_slot_fails_and_keeps_first_player() {
    let mut game = default_game();
    let info = PlayerInfo {
        ty: PlayerSlot::White,
        name: "Carl".to_string(),
        rating: 1500,
    };
    assert_eq!(
        game.add_player(info),
        Err(GameError::PlayerSlotOccupied(white()))
    );

    let player = game.get_player(white()).unwrap();
    assert_eq!(player.info.name, "Ada");
    assert_eq!(player.info.rating, 2000);
    assert_eq!(player.pieces.len(), 16);
}

#[test]
fn add_player_succeeds_after_removal() {
    let mut game = default_game();
    game.remove_player(white()).unwrap();
    assert!(game.get_player(white()).is_none());

    let info = PlayerInfo {
        ty: PlayerSlot::White,
        name: "Carl".to_string(),
        rating: 1500,
    };
    assert_eq!(game.add_player(info), Ok(white()));
    let player = game.get_player(white()).unwrap();
    assert_eq!(player.info.name, "Carl");
    assert!(player.pieces.is_empty());
    assert!(player.lost.is_empty());
    assert!(player.gained.is_empty());
}

#[test]
fn remove_player_twice_reports_invalid_id() {
    let mut game = default_game();
    assert!(game.remove_player(black()).is_ok());
    match game.remove_player(black()) {
        Err(GameError::InvalidPlayerID(id)) => assert_eq!(id, black()),
        other => panic!("expected InvalidPlayerID, got {:?}", other.map(|_| ())),
    }
}

#[test]
fn removed_player_record_lists_attributed_pieces_in_order() {
    let mut game = default_game();
    let extra = game
        .add_piece(
            BoardPos { col: 4, row: 4 },
            Piece { owner: white(), ty: PieceTy::Queen },
        )
        .unwrap();
    assert_eq!(extra, PieceID(32));

    let player = match game.remove_player(white()) {
        Ok(p) => p,
        Err(_) => panic!("white player should be present"),
    };
    let mut expected: Vec<PieceID> = (8..24).map(PieceID).collect();
    expected.push(PieceID(32));
    assert_eq!(player.pieces, expected);
    assert!(player.lost.is_empty());
    assert!(player.gained.is_empty());
}

#[test]
fn game_add_piece_onto_occupied_square_wraps_board_error() {
    let mut game = default_game();
    let pos = BoardPos { col: 0, row: 0 };
    assert_eq!(
        game.add_piece(pos, Piece { owner: white(), ty: PieceTy::Rook }),
        Err(GameError::BoardError(BoardError::OccupiedSquare(
            pos,
            PieceID(16)
        )))
    );
}

#[test]
fn game_add_piece_out_of_bounds_wraps_board_error() {
    let mut game = default_game();
    let pos = BoardPos { col: 8, row: 0 };
    assert_eq!(
        game.add_piece(pos, Piece { owner: white(), ty: PieceTy::Rook }),
        Err(GameError::BoardError(BoardError::OutsideOfBoard(pos)))
    );
}

#[test]
fn game_add_piece_for_unknown_owner_fails_after_board_write() {
    let mut game = default_game();
    game.remove_player(black()).unwrap();

    let pos = BoardPos { col: 3, row: 3 };
    assert_eq!(
        game.add_piece(pos, Piece { owner: black(), ty: PieceTy::Knight }),
        Err(GameError::InvalidPlayerID(black()))
    );
    // the board write happens before the owner check, so the piece is
    // placed even though it is attributed to nobody
    assert_eq!(game.board().get_square(pos), Some(&Square::Piece(PieceID(32))));
}

#[test]
fn game_error_wraps_board_error_via_from() {
    let err = BoardError::InvalidPieceID(PieceID(3));
    assert_eq!(GameError::from(err), GameError::BoardError(err));
}

#[test]
fn get_player_reports_registered_players() {
    let game = default_game();
    assert_eq!(game.get_player(white()).unwrap().info.ty, PlayerSlot::White);
    assert_eq!(game.get_player(black()).unwrap().info.name, "Ben");
    assert_eq!(game.get_player(black()).unwrap().info.rating, 1800);
}
