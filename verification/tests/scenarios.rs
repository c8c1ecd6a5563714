use shuttlings_cch24::board::{Board, Piece, PlaceError};

#[test]
fn get_place_piece() {
    let mut b = Board::new();

    assert!(b.play_piece("cookie", 1).is_ok());
    b.check_winner();
    assert_eq!(
        b.render(),
        "\
⬜⬛⬛⬛⬛⬜
⬜⬛⬛⬛⬛⬜
⬜⬛⬛⬛⬛⬜
⬜🍪⬛⬛⬛⬜
⬜⬜⬜⬜⬜⬜
"
    );

    assert!(b.play_piece("cookie", 1).is_ok());
    b.check_winner();
    assert_eq!(
        b.render(),
        "\
⬜⬛⬛⬛⬛⬜
⬜⬛⬛⬛⬛⬜
⬜🍪⬛⬛⬛⬜
⬜🍪⬛⬛⬛⬜
⬜⬜⬜⬜⬜⬜
"
    );

    assert!(b.play_piece("cookie", 1).is_ok());
    b.check_winner();
    assert_eq!(
        b.render(),
        "\
⬜⬛⬛⬛⬛⬜
⬜🍪⬛⬛⬛⬜
⬜🍪⬛⬛⬛⬜
⬜🍪⬛⬛⬛⬜
⬜⬜⬜⬜⬜⬜
"
    );

    assert!(b.play_piece("cookie", 1).is_ok());
    b.check_winner();
    let won = b.render();
    assert_eq!(
        won,
        "\
⬜🍪⬛⬛⬛⬜
⬜🍪⬛⬛⬛⬜
⬜🍪⬛⬛⬛⬜
⬜🍪⬛⬛⬛⬜
⬜⬜⬜⬜⬜⬜
Cookie wins!
"
    );

    // a fifth drop hits a finished board and reports it unchanged
    assert_eq!(
        b.play_piece("cookie", 1),
        Err(PlaceError::BoardFinished(won))
    );
}

#[test]
fn get_place_pieces2() {
    let mut b = Board::new();
    b.reset();

    let moves = [
        ("cookie", 1),
        ("milk", 2),
        ("cookie", 2),
        ("milk", 3),
        ("milk", 3),
        ("cookie", 3),
        ("milk", 4),
        ("milk", 4),
        ("milk", 4),
    ];
    for (team, column) in moves {
        assert!(b.play_piece(team, column).is_ok());
        b.check_winner();
    }

    assert!(b.play_piece("cookie", 4).is_ok());
    b.check_winner();
    assert_eq!(
        b.render(),
        "\
⬜⬛⬛⬛🍪⬜
⬜⬛⬛🍪🥛⬜
⬜⬛🍪🥛🥛⬜
⬜🍪🥛🥛🥛⬜
⬜⬜⬜⬜⬜⬜
Cookie wins!
"
    );
}

#[test]
fn win_check_is_idempotent() {
    let mut b = Board::new();
    for _ in 0..4 {
        assert!(b.play_piece("milk", 3).is_ok());
        b.check_winner();
    }
    assert_eq!(b.winner, Some(Piece::Milk));
    assert!(b.finished);
    let rendered = b.render();
    b.check_winner();
    b.check_winner();
    assert_eq!(b.winner, Some(Piece::Milk));
    assert!(b.finished);
    assert_eq!(b.render(), rendered);
}

#[test]
fn tie_break_reports_earliest_line() {
    let mut b = Board::new();
    // complete two lines at once before checking: the top playable row with
    // milk (the first line in scan order) and the bottom playable row with
    // cookie (a later line)
    for col in 1..5usize {
        b.set_piece(0, col, Piece::Milk);
        b.set_piece(3, col, Piece::Cookie);
    }
    b.check_winner();
    assert_eq!(b.winner, Some(Piece::Milk));
    assert!(b.finished);
    assert!(b.render().ends_with("Milk wins!\n"));
}

#[test]
fn finished_stays_until_reset() {
    let mut b = Board::new();
    for _ in 0..4 {
        assert!(b.play_piece("cookie", 2).is_ok());
        b.check_winner();
    }
    assert!(b.finished);
    b.check_winner();
    assert!(b.finished);
    b.random_board();
    assert!(b.finished);
    assert!(matches!(
        b.play_piece("milk", 1),
        Err(PlaceError::BoardFinished(_))
    ));
    assert!(b.finished);
    b.reset();
    assert!(!b.finished);
}

#[test]
fn win_on_descending_diagonal() {
    let mut b = Board::new();
    // supports first: milk below the future diagonal, no line among them
    for (team, column) in [
        ("milk", 1),
        ("milk", 1),
        ("milk", 1),
        ("milk", 2),
        ("milk", 2),
        ("milk", 3),
    ] {
        assert!(b.play_piece(team, column).is_ok());
        b.check_winner();
        assert_eq!(b.winner, None);
    }
    // cookies complete the diagonal from the top-left playable corner
    for column in [4usize, 3, 2] {
        assert!(b.play_piece("cookie", column).is_ok());
        b.check_winner();
        assert_eq!(b.winner, None);
    }
    assert!(b.play_piece("cookie", 1).is_ok());
    b.check_winner();
    assert_eq!(b.winner, Some(Piece::Cookie));
    assert!(b.finished);
    assert!(b.render().ends_with("Cookie wins!\n"));
}
