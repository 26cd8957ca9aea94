use tetris_core::field::PLAY_FIELD_WIDTH;
use tetris_core::game::Game;
use tetris_core::shape::{Cell, TetrominoNames};
use tetris_core::tetromino::Tetromino;

#[test]
fn move_right_shifts_all_cells() {
    let current = Tetromino::new(TetrominoNames::T);
    let next = Tetromino::new(TetrominoNames::O);
    let mut game = Game::with_pieces(current, next);
    let before = game.current_tetromino.cells();
    assert!(game.can_move_right());
    game.move_right();
    let after = game.current_tetromino.cells();
    for i in 0..4 {
        assert_eq!(after[i].0, before[i].0);
        assert_eq!(after[i].1, before[i].1 + 1);
    }
}

#[test]
fn move_left_shifts_all_cells() {
    let current = Tetromino::new(TetrominoNames::T);
    let next = Tetromino::new(TetrominoNames::O);
    let mut game = Game::with_pieces(current, next);
    let before = game.current_tetromino.cells();
    assert!(game.can_move_left());
    game.move_left();
    let after = game.current_tetromino.cells();
    for i in 0..4 {
        assert_eq!(after[i].0, before[i].0);
        assert_eq!(after[i].1, before[i].1 - 1);
    }
}

#[test]
fn moves_stop_at_the_edges() {
    let current = Tetromino::new(TetrominoNames::O);
    let next = Tetromino::new(TetrominoNames::O);
    let mut game = Game::with_pieces(current, next);
    while game.can_move_right() {
        game.move_right();
    }
    let cells = game.current_tetromino.cells();
    assert!(cells.iter().any(|&(_r, c)| c == PLAY_FIELD_WIDTH - 1));
    let before = cells;
    game.move_right();
    assert_eq!(game.current_tetromino.cells(), before);
    while game.can_move_left() {
        game.move_left();
    }
    assert!(game.current_tetromino.cells().iter().any(|&(_r, c)| c == 0));
}

#[test]
fn move_down_blocked_by_locked_cells() {
    let current = Tetromino::new(TetrominoNames::I);
    let next = Tetromino::new(TetrominoNames::O);
    let mut game = Game::with_pieces(current, next);
    for col in 2..=5 {
        game.playfield.set_cell(3, col, Cell::Filled(TetrominoNames::Z));
    }
    assert!(!game.can_move_down());
    let before = game.current_tetromino.cells();
    game.move_down();
    assert_eq!(game.current_tetromino.cells(), before);
}

#[test]
fn rotation_of_t_piece_matches_geometry() {
    let current = Tetromino::new(TetrominoNames::T);
    let next = Tetromino::new(TetrominoNames::O);
    let mut game = Game::with_pieces(current, next);
    assert!(game.can_rotate());
    game.rotate();
    assert_eq!(game.current_tetromino.cells(), [(3, 4), (2, 4), (1, 4), (2, 3)]);
}

#[test]
fn rotation_blocked_by_locked_cell() {
    let current = Tetromino::new(TetrominoNames::T);
    let next = Tetromino::new(TetrominoNames::O);
    let mut game = Game::with_pieces(current, next);
    game.playfield.set_cell(1, 4, Cell::Filled(TetrominoNames::Z));
    assert!(!game.can_rotate());
    let before = game.current_tetromino.cells();
    game.rotate();
    assert_eq!(game.current_tetromino.cells(), before);
}

#[test]
fn random_pieces_vary_and_stay_in_bounds() {
    let mut seen = [false; 7];
    for _ in 0..200 {
        let t = Tetromino::random();
        for &(row, col) in t.cells().iter() {
            assert!(row < 24);
            assert!(col < 10);
        }
        let idx = match t.name {
            TetrominoNames::T => 0,
            TetrominoNames::L => 1,
            TetrominoNames::J => 2,
            TetrominoNames::O => 3,
            TetrominoNames::I => 4,
            TetrominoNames::S => 5,
            TetrominoNames::Z => 6,
        };
        seen[idx] = true;
    }
    let distinct = seen.iter().filter(|&&b| b).count();
    assert!(distinct >= 2);
}

#[test]
fn preview_field_shows_on_deck_piece() {
    let current = Tetromino::new(TetrominoNames::T);
    let next = Tetromino::new(TetrominoNames::O);
    let game = Game::with_pieces(current, next);
    let s = game.get_nextfield_str();
    let expected = "⬛⬛⬛⬛⬛\n⬛⬛⬛⬛⬛\n⬛⬛🟩🟩⬛\n⬛⬛🟩🟩⬛\n⬛⬛⬛⬛⬛\n";
    assert_eq!(s, expected);
}

#[test]
fn playfield_string_overlays_active_piece() {
    let current = Tetromino::new(TetrominoNames::I);
    let next = Tetromino::new(TetrominoNames::O);
    let game = Game::with_pieces(current, next);
    let s = game.get_playfield_str();
    let lines: Vec<&str> = s.lines().collect();
    assert_eq!(lines.len(), 24);
    assert_eq!(lines[0], "⬜⬜⬜⬜⬜⬜⬜⬜⬜⬜");
    assert_eq!(lines[2], "⬜⬜🟦🟦🟦🟦⬜⬜⬜⬜");
    assert_eq!(lines[23], "⬛⬛⬛⬛⬛⬛⬛⬛⬛⬛");
}
