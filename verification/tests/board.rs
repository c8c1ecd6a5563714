use shuttlings_cch24::board::{Board, Piece, PlaceError, PlacePieceParams, Team};

const FRESH: &str = "\
⬜⬛⬛⬛⬛⬜
⬜⬛⬛⬛⬛⬜
⬜⬛⬛⬛⬛⬜
⬜⬛⬛⬛⬛⬜
⬜⬜⬜⬜⬜⬜
";

#[test]
fn fresh_board_cells() {
    let b = Board::new();
    for row in 0..5usize {
        for col in 0..6usize {
            let expected = if col == 0 || col == 5 || row == 4 {
                Piece::Wall
            } else {
                Piece::Empty
            };
            assert_eq!(b.get_piece(row, col), expected);
            assert!(!b.has_piece(row, col));
        }
    }
    assert_eq!(b.winner, None);
    assert!(!b.finished);
}

#[test]
fn get_board() {
    let b = Board::new();
    assert_eq!(b.render(), FRESH);
}

#[test]
fn get_reset() {
    let mut b = Board::new();
    assert!(b.play_piece("cookie", 2).is_ok());
    b.check_winner();
    b.reset();
    assert_eq!(b.render(), FRESH);
    assert_eq!(b.winner, None);
    assert!(!b.finished);
}

#[test]
fn default_is_fresh() {
    let b = Board::default();
    assert_eq!(b.render(), FRESH);
}

#[test]
fn gravity_stacks_upward() {
    let mut b = Board::new();
    assert!(b.play_piece("cookie", 2).is_ok());
    assert_eq!(b.get_piece(3, 2), Piece::Cookie);
    assert!(b.play_piece("milk", 2).is_ok());
    assert_eq!(b.get_piece(2, 2), Piece::Milk);
    assert!(b.play_piece("cookie", 2).is_ok());
    assert_eq!(b.get_piece(1, 2), Piece::Cookie);
    // the stack has no gaps and nothing else changed
    assert_eq!(b.get_piece(0, 2), Piece::Empty);
    for col in [1usize, 3, 4] {
        for row in 0..4usize {
            assert_eq!(b.get_piece(row, col), Piece::Empty);
        }
    }
}

#[test]
fn place_rejects_bad_input() {
    let mut b = Board::new();
    assert_eq!(b.play_piece("cookie", 0), Err(PlaceError::BadInput));
    assert_eq!(b.play_piece("cookie", 5), Err(PlaceError::BadInput));
    assert_eq!(b.play_piece("eggnog", 1), Err(PlaceError::BadInput));
    assert_eq!(b.render(), FRESH);
}

#[test]
fn rejected_place_leaves_board_unchanged() {
    let mut b = Board::new();
    assert!(b.play_piece("milk", 3).is_ok());
    b.check_winner();
    let before = b.render();
    assert_eq!(b.play_piece("milk", 9), Err(PlaceError::BadInput));
    assert_eq!(b.play_piece("grinch", 3), Err(PlaceError::BadInput));
    assert_eq!(b.render(), before);
    assert_eq!(b.get_piece(3, 3), Piece::Milk);
    assert_eq!(b.winner, None);
    assert!(!b.finished);
}

#[test]
fn full_column_rejects_with_board_payload() {
    let mut b = Board::new();
    for team in ["cookie", "milk", "cookie", "milk"] {
        assert!(b.play_piece(team, 1).is_ok());
        b.check_winner();
    }
    assert!(!b.finished);
    let rendered = b.render();
    assert_eq!(
        b.play_piece("cookie", 1),
        Err(PlaceError::BoardFinished(rendered))
    );
}

#[test]
fn draw_fills_board_without_winner() {
    let mut b = Board::new();
    // column by column, bottom up; the pattern completes no line
    let columns: [(usize, [&str; 4]); 4] = [
        (1, ["cookie", "milk", "cookie", "milk"]),
        (2, ["cookie", "milk", "cookie", "milk"]),
        (3, ["milk", "cookie", "milk", "cookie"]),
        (4, ["milk", "cookie", "milk", "cookie"]),
    ];
    for (col, teams) in columns {
        for team in teams {
            assert!(b.play_piece(team, col).is_ok());
            b.check_winner();
        }
    }
    assert_eq!(b.winner, None);
    assert!(b.finished);
    let rendered = b.render();
    assert!(rendered.ends_with("No winner.\n"));
    assert_eq!(
        b.play_piece("cookie", 2),
        Err(PlaceError::BoardFinished(rendered))
    );
}

#[test]
fn set_and_get_piece() {
    let mut b = Board::new();
    b.set_piece(2, 3, Piece::Cookie);
    assert_eq!(b.get_piece(2, 3), Piece::Cookie);
    assert!(b.has_piece(2, 3));
    assert!(!b.finished);
    b.set_piece(2, 3, Piece::Empty);
    assert_eq!(b.get_piece(2, 3), Piece::Empty);
    assert!(!b.has_piece(2, 3));
}

#[test]
fn piece_from_team() {
    assert_eq!(Piece::from(Team::Cookie), Piece::Cookie);
    assert_eq!(Piece::from(Team::Milk), Piece::Milk);
    let params = PlacePieceParams {
        team: Team::Milk,
        column: 3,
    };
    assert_eq!(Piece::from(params.team), Piece::Milk);
    assert_eq!(params.column, 3);
}
