use tetris_core::field::PLAY_FIELD_WIDTH;
use tetris_core::game::Game;
use tetris_core::shape::{Cell, TetrominoNames};
use tetris_core::tetromino::Tetromino;

#[test]
fn crushing_filled_row() {
    let mut game = Game::new();
    for col in 0..PLAY_FIELD_WIDTH {
        game.playfield.set_cell(20, col, Cell::Filled(TetrominoNames::T));
        game.playfield.set_cell(21, col, Cell::Filled(TetrominoNames::T));
        game.playfield.set_cell(22, col, Cell::Filled(TetrominoNames::L));
        game.playfield.set_cell(23, col, Cell::Filled(TetrominoNames::O));
    }
    let filled = game.playfield.get_filled_row();
    for (nth, &row) in filled.iter().enumerate() {
        game.crush_row(row, nth);
    }
    for col in 0..PLAY_FIELD_WIDTH {
        assert_eq!(game.playfield.get_cell(20, col), Cell::Empty);
        assert_eq!(game.playfield.get_cell(21, col), Cell::Empty);
        assert_eq!(game.playfield.get_cell(22, col), Cell::Empty);
        assert_eq!(game.playfield.get_cell(23, col), Cell::Empty);
    }
    assert_eq!(game.get_score(), 80);
}

#[test]
fn occupies_exactly_four_cells() {
    let t = Tetromino::new(TetrominoNames::T);
    for &cell in t.cells().iter() {
        assert!(t.occupies_cell(cell));
    }
    let mut count = 0;
    for row in 0..24 {
        for col in 0..10 {
            if t.occupies_cell((row, col)) {
                count += 1;
            }
        }
    }
    assert_eq!(count, 4);
    assert!(!t.occupies_cell((0, 0)));
    assert!(!t.occupies_cell((23, 9)));
}

#[test]
fn four_rotations_return_to_start() {
    let kinds = [
        TetrominoNames::T,
        TetrominoNames::L,
        TetrominoNames::J,
        TetrominoNames::O,
        TetrominoNames::I,
        TetrominoNames::S,
        TetrominoNames::Z,
    ];
    for &kind in kinds.iter() {
        let mut t = Tetromino::new(kind);
        let before = t.cells();
        for _ in 0..4 {
            let turned = t.rotate(true);
            assert!(turned.is_some());
        }
        assert_eq!(t.cells(), before);
    }
}

#[test]
fn filled_rows_skip_buffer_and_partial_rows() {
    let mut game = Game::new();
    for col in 0..PLAY_FIELD_WIDTH {
        game.playfield.set_cell(10, col, Cell::Filled(TetrominoNames::I));
    }
    for col in 0..PLAY_FIELD_WIDTH - 1 {
        game.playfield.set_cell(12, col, Cell::Filled(TetrominoNames::I));
    }
    let filled = game.playfield.get_filled_row();
    assert_eq!(filled, vec![10]);
}

#[test]
fn compaction_shifts_rows_down() {
    let mut game = Game::new();
    game.playfield.set_cell(10, 3, Cell::Filled(TetrominoNames::S));
    for col in 0..PLAY_FIELD_WIDTH {
        game.playfield.set_cell(15, col, Cell::Filled(TetrominoNames::Z));
    }
    game.playfield.crush_row(15);
    assert_eq!(game.playfield.get_cell(11, 3), Cell::Filled(TetrominoNames::S));
    assert_eq!(game.playfield.get_cell(10, 3), Cell::Empty);
    for col in 0..PLAY_FIELD_WIDTH {
        assert_eq!(game.playfield.get_cell(4, col), Cell::Empty);
        assert_eq!(game.playfield.get_cell(15, col), Cell::Empty);
        assert_eq!(game.playfield.get_cell(16, col), Cell::Empty);
    }
    for row in 0..4 {
        for col in 0..PLAY_FIELD_WIDTH {
            assert_eq!(game.playfield.get_cell(row, col), Cell::BufferEmpty);
        }
    }
}

#[test]
fn scoring_per_batch_size() {
    for k in 1..=3usize {
        let mut game = Game::new();
        for r in 0..k {
            for col in 0..PLAY_FIELD_WIDTH {
                game.playfield.set_cell(23 - r, col, Cell::Filled(TetrominoNames::T));
            }
        }
        let filled = game.playfield.get_filled_row();
        assert_eq!(filled.len(), k);
        for (nth, &row) in filled.iter().enumerate() {
            game.crush_row(row, nth);
        }
        let expected = match k {
            1 => 10,
            2 => 30,
            _ => 50,
        };
        assert_eq!(game.get_score(), expected);
    }
}

#[test]
fn piece_on_bottom_row_cannot_descend() {
    let current = Tetromino::new(TetrominoNames::I);
    let next = Tetromino::new(TetrominoNames::O);
    let mut game = Game::with_pieces(current, next);
    for _ in 0..21 {
        assert!(game.can_move_down());
        game.move_down();
    }
    for &(row, _col) in game.current_tetromino.cells().iter() {
        assert_eq!(row, 23);
    }
    assert!(!game.can_move_down());
}

#[test]
fn tick_on_over_game_changes_nothing() {
    let current = Tetromino::new(TetrominoNames::I);
    let next = Tetromino::new(TetrominoNames::O);
    let mut game = Game::with_pieces(current, next);
    game.playfield.set_cell(23, 0, Cell::Filled(TetrominoNames::T));
    game.over = true;
    let score_before = game.get_score();
    let current_before = game.current_tetromino.cells();
    let next_before = game.next_tetromino.cells();
    let mut cells_before = Vec::new();
    for row in 0..24 {
        for col in 0..PLAY_FIELD_WIDTH {
            cells_before.push(game.playfield.get_cell(row, col));
        }
    }
    game.tick();
    assert!(game.over);
    assert_eq!(game.get_score(), score_before);
    assert_eq!(game.current_tetromino.cells(), current_before);
    assert_eq!(game.next_tetromino.cells(), next_before);
    let mut idx = 0;
    for row in 0..24 {
        for col in 0..PLAY_FIELD_WIDTH {
            assert_eq!(game.playfield.get_cell(row, col), cells_before[idx]);
            idx += 1;
        }
    }
}

#[test]
fn lock_reaching_top_row_ends_game_on_next_tick() {
    let current = Tetromino::new(TetrominoNames::I);
    let next = Tetromino::new(TetrominoNames::O);
    let mut game = Game::with_pieces(current, next);
    for col in 2..=5 {
        game.playfield.set_cell(5, col, Cell::Filled(TetrominoNames::T));
    }
    game.tick();
    game.tick();
    for &(row, _col) in game.current_tetromino.cells().iter() {
        assert_eq!(row, 4);
    }
    game.tick();
    assert!(!game.over);
    for col in 2..=5 {
        assert_eq!(game.playfield.get_cell(4, col), Cell::Filled(TetrominoNames::I));
    }
    game.tick();
    assert!(game.over);
    assert_eq!(game.get_score(), 0);
}

#[test]
fn tick_moves_active_piece_down() {
    let current = Tetromino::new(TetrominoNames::T);
    let next = Tetromino::new(TetrominoNames::O);
    let mut game = Game::with_pieces(current, next);
    let before = game.current_tetromino.cells();
    game.tick();
    let after = game.current_tetromino.cells();
    for i in 0..4 {
        assert_eq!(after[i].0, before[i].0 + 1);
        assert_eq!(after[i].1, before[i].1);
    }
    assert!(!game.over);
    assert_eq!(game.get_score(), 0);
}
