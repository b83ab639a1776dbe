use tetris::chess::{Chessboard, Color, Piece};
use tetris::nim::{random_take, take_for_draw, NimBoard, START_STICKS};
use tetris::rps::{get_winner, Move, Player};
use tetris::text::{append_repeated, decimal_string, digit_str};

fn player(name: &str, play: Move) -> Player {
    Player {
        name: String::from(name),
        play,
    }
}

#[test]
fn rock_beats_scissors_and_paper_beats_rock() {
    let first = get_winner(player("Jeff", Move::Rock), player("Maria", Move::Scissors)).unwrap();
    assert_eq!(first.name, "Jeff");
    let champion = get_winner(first, player("Guy", Move::Paper)).unwrap();
    assert_eq!(champion.name, "Guy");
    assert_eq!(champion.describe(), "Guy, who played Paper");
}

#[test]
fn every_pair_of_moves_has_its_winner() {
    let moves = [Move::Rock, Move::Paper, Move::Scissors];
    let wins = [(0, 2), (1, 0), (2, 1)];
    for a in 0..3 {
        for b in 0..3 {
            let winner = get_winner(player("a", moves[a]), player("b", moves[b]));
            if a == b {
                assert!(winner.is_none());
            } else if wins.contains(&(a, b)) {
                assert_eq!(winner.unwrap().name, "a");
            } else {
                assert_eq!(winner.unwrap().name, "b");
            }
        }
    }
}

#[test]
fn moves_have_names() {
    assert_eq!(Move::Rock.name(), "Rock");
    assert_eq!(Move::Paper.name(), "Paper");
    assert_eq!(Move::Scissors.name(), "Scissors");
    assert_eq!(
        player("Jeff", Move::Scissors).describe(),
        "Jeff, who played Scissors"
    );
}

#[test]
fn nim_starts_with_twelve_sticks() {
    let board = NimBoard::new();
    assert_eq!(board.sticks, 12);
    assert_eq!(START_STICKS, 12);
    assert!(!board.is_empty());
    assert_eq!(
        board.as_string(),
        " |  |  |  |  |  |  |  |  |  |  |  |  (12)"
    );
}

#[test]
fn nim_board_text() {
    assert_eq!(NimBoard { sticks: 3 }.as_string(), " |  |  |  (3)");
    assert_eq!(NimBoard { sticks: 1 }.as_string(), " |  (1)");
    assert_eq!(NimBoard { sticks: 0 }.as_string(), " ");
    assert_eq!(NimBoard { sticks: -2 }.as_string(), " ");
}

#[test]
fn nim_takes_what_is_legal_and_the_fallback_otherwise() {
    let mut board = NimBoard::new();
    assert!(board.take_or(3, 1));
    assert_eq!(board.sticks, 9);
    assert!(board.take_or(1, 2));
    assert_eq!(board.sticks, 8);
    assert!(!board.take_or(4, 2));
    assert_eq!(board.sticks, 6);
    assert!(!board.take_or(0, 3));
    assert_eq!(board.sticks, 3);
    assert!(!board.take_or(-5, 3));
    assert_eq!(board.sticks, 0);
    assert!(board.is_empty());
}

#[test]
fn nim_draws_stand_for_one_to_three_sticks() {
    assert_eq!(take_for_draw(0), 1);
    assert_eq!(take_for_draw(1), 2);
    assert_eq!(take_for_draw(2), 3);
    assert_eq!(take_for_draw(3), 1);
    assert_eq!(take_for_draw(u32::MAX), 1);
}

#[test]
fn nim_random_take_is_legal() {
    let mut seen = [false; 4];
    for _ in 0..300 {
        let n = random_take();
        assert!(n >= 1 && n <= 3);
        seen[n as usize] = true;
    }
    assert!(seen[1] && seen[2] && seen[3]);
    for _ in 0..50 {
        let mut board = NimBoard::new();
        let taken = board.take(7);
        assert!(taken >= 1 && taken <= 3);
        assert_eq!(board.sticks, 12 - taken);
        let mut board = NimBoard::new();
        assert_eq!(board.take(2), 2);
        assert_eq!(board.sticks, 10);
    }
}

#[test]
fn nim_best_reply_leaves_a_multiple_of_four() {
    assert_eq!(NimBoard { sticks: 11 }.best_reply(1), 3);
    assert_eq!(NimBoard { sticks: 10 }.best_reply(1), 2);
    assert_eq!(NimBoard { sticks: 9 }.best_reply(3), 1);
    assert_eq!(NimBoard { sticks: 12 }.best_reply(2), 2);
    assert_eq!(NimBoard { sticks: 4 }.best_reply(3), 3);
}

#[test]
fn numbers_in_decimal() {
    assert_eq!(decimal_string(0), "0");
    assert_eq!(decimal_string(7), "7");
    assert_eq!(decimal_string(10), "10");
    assert_eq!(decimal_string(12), "12");
    assert_eq!(decimal_string(4096), "4096");
    assert_eq!(decimal_string(u32::MAX), "4294967295");
    assert_eq!(digit_str(0), "0");
    assert_eq!(digit_str(9), "9");
    let mut s = String::from("a");
    append_repeated(&mut s, "xy", 3);
    assert_eq!(s, "axyxyxy");
    append_repeated(&mut s, "z", 0);
    assert_eq!(s, "axyxyxy");
}

#[test]
fn chessboard_starts_in_the_opening_position() {
    let board = Chessboard::new();
    let back = |c: Color| {
        [
            Piece::Rook(c),
            Piece::Knight(c),
            Piece::Bishop(c),
            Piece::Queen(c),
            Piece::King(c),
            Piece::Bishop(c),
            Piece::Knight(c),
            Piece::Rook(c),
        ]
    };
    for col in 0..8 {
        assert_eq!(board.pieces[col], back(Color::Black)[col]);
        assert_eq!(board.pieces[8 + col], Piece::Pawn(Color::Black));
        for row in 2..6 {
            assert_eq!(board.pieces[8 * row + col], Piece::Empty);
        }
        assert_eq!(board.pieces[48 + col], Piece::Pawn(Color::White));
        assert_eq!(board.pieces[56 + col], back(Color::White)[col]);
    }
    assert!(board.white_graveyard.is_empty());
    assert!(board.black_graveyard.is_empty());
}

#[test]
fn chessboard_square_index() {
    let board = Chessboard::new();
    assert_eq!(board.rowcol_to_idx((0, 0)), 0);
    assert_eq!(board.rowcol_to_idx((1, 3)), 11);
    assert_eq!(board.rowcol_to_idx((7, 7)), 63);
}

#[test]
fn chess_piece_labels() {
    assert_eq!(Piece::Pawn(Color::White).label(), "WP");
    assert_eq!(Piece::Rook(Color::Black).label(), "BR");
    assert_eq!(Piece::Knight(Color::White).label(), "WN");
    assert_eq!(Piece::Bishop(Color::Black).label(), "BB");
    assert_eq!(Piece::Queen(Color::White).label(), "WQ");
    assert_eq!(Piece::King(Color::Black).label(), "BK");
    assert_eq!(Piece::Empty.label(), "  ");
    assert_eq!(Color::White.letter(), "W");
    assert_eq!(Color::Black.letter(), "B");
}

#[test]
fn chess_rules_for_pawn_rook_and_bishop() {
    let board = Chessboard::new();
    // Pawn on (1, 0): only to the next row.
    assert!(board.is_legal_move((1, 0), (2, 0)));
    assert!(board.is_legal_move((1, 0), (2, 5)));
    assert!(!board.is_legal_move((1, 0), (3, 0)));
    assert!(!board.is_legal_move((1, 0), (0, 0)));
    assert!(!board.is_legal_move((1, 0), (1, 0)));
    // Rook on (0, 0): along its column to another row.
    assert!(board.is_legal_move((0, 0), (5, 0)));
    assert!(!board.is_legal_move((0, 0), (0, 5)));
    assert!(!board.is_legal_move((0, 0), (0, 0)));
    assert!(!board.is_legal_move((0, 0), (3, 3)));
    // Bishop on (0, 2): as many rows as columns.
    assert!(board.is_legal_move((0, 2), (2, 4)));
    assert!(board.is_legal_move((0, 2), (2, 0)));
    assert!(board.is_legal_move((0, 2), (0, 2)));
    assert!(!board.is_legal_move((0, 2), (2, 3)));
    // Knight, queen, king and empty squares: anywhere.
    assert!(board.is_legal_move((0, 1), (5, 5)));
    assert!(board.is_legal_move((0, 3), (4, 1)));
    assert!(board.is_legal_move((0, 4), (7, 7)));
    assert!(board.is_legal_move((3, 3), (4, 6)));
}

#[test]
fn chess_move_piece_moves_only_legal_moves() {
    let mut board = Chessboard::new();
    assert!(board.move_piece((1, 4), (2, 4)));
    assert_eq!(board.pieces[12], Piece::Empty);
    assert_eq!(board.pieces[20], Piece::Pawn(Color::Black));
    assert!(!board.move_piece((2, 4), (4, 4)));
    assert_eq!(board.pieces[20], Piece::Pawn(Color::Black));
    assert_eq!(board.pieces[36], Piece::Empty);
    // A move onto an occupied square replaces what stood there.
    assert!(board.move_piece((0, 3), (6, 0)));
    assert_eq!(board.pieces[3], Piece::Empty);
    assert_eq!(board.pieces[48], Piece::Queen(Color::Black));
    let untouched = Chessboard::new();
    for i in 0..64 {
        if i != 12 && i != 20 && i != 3 && i != 48 {
            assert_eq!(board.pieces[i], untouched.pieces[i]);
        }
    }
}

#[test]
fn chessboard_as_text() {
    let rule = "-".repeat(41);
    let mut expected = String::from("\n  0    1    2    3    4    5    6    7\n");
    let rows = [
        "| BR | BN | BB | BQ | BK | BB | BN | BR | 0",
        "| BP | BP | BP | BP | BP | BP | BP | BP | 1",
        "|    |    |    |    |    |    |    |    | 2",
        "|    |    |    |    |    |    |    |    | 3",
        "|    |    |    |    |    |    |    |    | 4",
        "|    |    |    |    |    |    |    |    | 5",
        "| WP | WP | WP | WP | WP | WP | WP | WP | 6",
        "| WR | WN | WB | WQ | WK | WB | WN | WR | 7",
    ];
    for row in rows.iter() {
        expected.push_str(&rule);
        expected.push('\n');
        expected.push_str(row);
        expected.push('\n');
    }
    expected.push_str(&rule);
    expected.push('\n');
    expected.push_str("\nWG: \nBG: ");
    assert_eq!(Chessboard::new().as_string(), expected);
}
