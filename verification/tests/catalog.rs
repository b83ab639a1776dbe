use tetris::colors::TetrominoColor;
use tetris::tetromino::Tetromino;

const SHAPES: [Tetromino; 7] = [
    Tetromino::I,
    Tetromino::O,
    Tetromino::T,
    Tetromino::J,
    Tetromino::L,
    Tetromino::S,
    Tetromino::Z,
];

#[test]
fn xy_to_idx_exact_values() {
    let t = Tetromino::T;
    assert_eq!(t.xy_to_idx(1, 2, 0), 9);
    assert_eq!(t.xy_to_idx(1, 2, 1), 10);
    assert_eq!(t.xy_to_idx(1, 2, 2), 6);
    assert_eq!(t.xy_to_idx(1, 2, 3), 5);
    assert_eq!(t.xy_to_idx(0, 0, 0), 0);
    assert_eq!(t.xy_to_idx(0, 0, 1), 12);
    assert_eq!(t.xy_to_idx(0, 0, 2), 15);
    assert_eq!(t.xy_to_idx(0, 0, 3), 3);
    assert_eq!(t.xy_to_idx(3, 3, 0), 15);
    assert_eq!(t.xy_to_idx(3, 3, 1), 3);
    assert_eq!(t.xy_to_idx(3, 3, 2), 0);
    assert_eq!(t.xy_to_idx(3, 3, 3), 12);
}

#[test]
fn xy_to_idx_unknown_rotation_reads_first_cell() {
    assert_eq!(Tetromino::I.xy_to_idx(3, 2, 4), 0);
    assert_eq!(Tetromino::I.xy_to_idx(1, 1, 99), 0);
}

#[test]
fn xy_to_idx_is_a_bijection_for_every_shape_and_rotation() {
    for shape in SHAPES.iter() {
        for r in 0..4 {
            let mut seen = [false; 16];
            for y in 0..4 {
                for x in 0..4 {
                    let idx = shape.xy_to_idx(x, y, r);
                    assert!(idx < 16);
                    assert!(!seen[idx]);
                    seen[idx] = true;
                }
            }
            assert!(seen.iter().all(|s| *s));
        }
    }
}

#[test]
fn rotation_one_is_a_quarter_turn_of_the_box() {
    let expected = [[12, 8, 4, 0], [13, 9, 5, 1], [14, 10, 6, 2], [15, 11, 7, 3]];
    for y in 0..4 {
        for x in 0..4 {
            assert_eq!(Tetromino::L.xy_to_idx(x, y, 1), expected[y][x]);
        }
    }
}

#[test]
fn layouts_are_the_catalog() {
    assert_eq!(Tetromino::I.as_string(), "XX.XXX.XXX.XXX.X");
    assert_eq!(Tetromino::O.as_string(), "XXXXX..XX..XXXXX");
    assert_eq!(Tetromino::T.as_string(), "XXXXX.XX...XXXXX");
    assert_eq!(Tetromino::J.as_string(), "XX.XXX.XX..XXXXX");
    assert_eq!(Tetromino::L.as_string(), "X.XXX.XXX..XXXXX");
    assert_eq!(Tetromino::S.as_string(), "XXXXX..X..XXXXXX");
    assert_eq!(Tetromino::Z.as_string(), "XXXXX..XXX..XXXX");
}

#[test]
fn every_shape_has_four_blocks() {
    for shape in SHAPES.iter() {
        let pattern = shape.shape_pattern();
        assert_eq!(pattern.len(), 16);
        assert_eq!(pattern.iter().filter(|b| **b).count(), 4);
        let text = shape.as_string();
        for (i, c) in text.chars().enumerate() {
            assert_eq!(pattern[i], c == '.');
        }
    }
}

#[test]
fn cell_occupied_reads_the_layout_through_the_rotation() {
    // I, unrotated: column 2 of every row.
    for y in 0..4 {
        for x in 0..4 {
            assert_eq!(Tetromino::I.cell_occupied(x, y, 0), x == 2);
        }
    }
    // I after a quarter turn: one row of the box.
    for y in 0..4 {
        for x in 0..4 {
            assert_eq!(Tetromino::I.cell_occupied(x, y, 1), y == 2);
        }
    }
    // T, unrotated.
    assert!(Tetromino::T.cell_occupied(1, 1, 0));
    assert!(Tetromino::T.cell_occupied(0, 2, 0));
    assert!(Tetromino::T.cell_occupied(1, 2, 0));
    assert!(Tetromino::T.cell_occupied(2, 2, 0));
    assert!(!Tetromino::T.cell_occupied(0, 1, 0));
    assert!(!Tetromino::T.cell_occupied(3, 2, 0));
}

#[test]
fn four_rotations_restore_the_occupancy() {
    for shape in SHAPES.iter() {
        for start in 0..4 {
            let mut r = start;
            for _ in 0..4 {
                r = (r + 1) % 4;
            }
            for y in 0..4 {
                for x in 0..4 {
                    assert_eq!(
                        shape.cell_occupied(x, y, r),
                        shape.cell_occupied(x, y, start)
                    );
                }
            }
        }
    }
}

#[test]
fn every_rotation_keeps_four_blocks() {
    for shape in SHAPES.iter() {
        for r in 0..4 {
            let mut blocks = 0;
            for y in 0..4 {
                for x in 0..4 {
                    if shape.cell_occupied(x, y, r) {
                        blocks += 1;
                    }
                }
            }
            assert_eq!(blocks, 4);
        }
    }
}

#[test]
fn shapes_from_draws() {
    assert_eq!(Tetromino::from_draw(0), Tetromino::I);
    assert_eq!(Tetromino::from_draw(1), Tetromino::O);
    assert_eq!(Tetromino::from_draw(2), Tetromino::T);
    assert_eq!(Tetromino::from_draw(3), Tetromino::J);
    assert_eq!(Tetromino::from_draw(4), Tetromino::L);
    assert_eq!(Tetromino::from_draw(5), Tetromino::S);
    assert_eq!(Tetromino::from_draw(6), Tetromino::Z);
    assert_eq!(Tetromino::from_draw(1000), Tetromino::Z);
}

#[test]
fn colors_from_draws() {
    assert_eq!(TetrominoColor::from_draw(0), TetrominoColor::Red);
    assert_eq!(TetrominoColor::from_draw(1), TetrominoColor::Magenta);
    assert_eq!(TetrominoColor::from_draw(2), TetrominoColor::Blue);
    assert_eq!(TetrominoColor::from_draw(3), TetrominoColor::Yellow);
    assert_eq!(TetrominoColor::from_draw(4), TetrominoColor::Green);
    assert_eq!(TetrominoColor::from_draw(5), TetrominoColor::Cyan);
    assert_eq!(TetrominoColor::from_draw(77), TetrominoColor::Cyan);
}

#[test]
fn terminal_colors_are_the_escape_sequences() {
    assert_eq!(TetrominoColor::Red.as_terminal_color(), "\x1B[38;5;1m");
    assert_eq!(TetrominoColor::Magenta.as_terminal_color(), "\x1B[38;5;5m");
    assert_eq!(TetrominoColor::Blue.as_terminal_color(), "\x1B[38;5;12m");
    assert_eq!(TetrominoColor::Yellow.as_terminal_color(), "\x1B[38;5;3m");
    assert_eq!(TetrominoColor::Green.as_terminal_color(), "\x1B[38;5;2m");
    assert_eq!(TetrominoColor::Cyan.as_terminal_color(), "\x1B[38;5;6m");
}
