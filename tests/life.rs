use game_of_life::{Life, LifeError};

fn alive(life: &Life) -> Vec<Vec<bool>> {
    life.board
        .iter()
        .map(|row| row.iter().map(|p| p.is_on()).collect())
        .collect()
}

fn grid_with(width: usize, height: usize, cells: &[(usize, usize)]) -> Vec<Vec<bool>> {
    let mut g = vec![vec![false; width]; height];
    for &(x, y) in cells {
        g[y][x] = true;
    }
    g
}

const GLIDER: [(usize, usize); 5] = [(0, 1), (2, 1), (2, 0), (2, 2), (1, 2)];

#[test]
fn create_life() {
    let life = Life::build(100, 60, 10).unwrap();
    // rows
    assert_eq!(6, life.board.len());
    // cells per row
    assert_eq!(10, life.board[0].len());
    assert_eq!(10, life.scale);
}

#[test]
fn fail_to_create_life() {
    let life = Life::build(100, 60, 11);
    assert!(life.is_err());

    let err = life.unwrap_err();
    assert_eq!(
        LifeError::ConfigurationError(
            "scale is not compatible with window width or window height".to_string()
        ),
        err
    );
}

#[test]
fn build_fails_when_only_height_is_not_divisible() {
    let err = Life::build(100, 65, 10).unwrap_err();
    assert!(matches!(err, LifeError::ConfigurationError(_)));
}

#[test]
fn build_gives_dead_cells_at_their_places() {
    let life = Life::build(100, 60, 10).unwrap();
    assert_eq!(grid_with(10, 6, &[]), alive(&life));
    for (y, row) in life.board.iter().enumerate() {
        for (x, p) in row.iter().enumerate() {
            assert_eq!((x, y), p.get_coords());
            assert!(!p.is_alive_next_generation());
        }
    }
}

#[test]
fn build_one_cell_board() {
    let life = Life::build(7, 7, 7).unwrap();
    assert_eq!(1, life.board.len());
    assert_eq!(1, life.board[0].len());
}

#[test]
fn toggle_on_turns_a_cell_on() {
    let mut life = Life::build(100, 60, 10).unwrap();
    assert_eq!(Ok(()), life.toggle_on(3, 2));
    assert_eq!(grid_with(10, 6, &[(3, 2)]), alive(&life));
}

#[test]
fn toggle_on_twice_leaves_the_cell_on() {
    let mut life = Life::build(100, 60, 10).unwrap();
    life.toggle_on(4, 5).unwrap();
    let once = alive(&life);
    life.toggle_on(4, 5).unwrap();
    assert_eq!(once, alive(&life));
    assert!(life.board[5][4].is_on());
}

#[test]
fn toggle_on_out_of_bounds_fails_and_changes_nothing() {
    let mut life = Life::build(100, 60, 10).unwrap();
    life.toggle_on(1, 1).unwrap();
    assert_eq!(Err(LifeError::OutOfBounds), life.toggle_on(10, 0));
    assert_eq!(Err(LifeError::OutOfBounds), life.toggle_on(0, 6));
    assert_eq!(grid_with(10, 6, &[(1, 1)]), alive(&life));
}

#[test]
fn clear_board_kills_every_cell() {
    let mut life = Life::build(100, 60, 10).unwrap();
    life.toggle_on(0, 0).unwrap();
    life.toggle_on(9, 5).unwrap();
    life.clear_board();
    assert_eq!(grid_with(10, 6, &[]), alive(&life));
}

#[test]
fn clear_board_twice_is_clear_board_once() {
    let mut life = Life::build(100, 60, 10).unwrap();
    life.glider().unwrap();
    life.clear_board();
    let once = alive(&life);
    life.clear_board();
    assert_eq!(once, alive(&life));
}

#[test]
fn glider_places_its_cells() {
    let mut life = Life::build(100, 60, 10).unwrap();
    life.toggle_on(8, 4).unwrap();
    life.glider().unwrap();
    assert_eq!(grid_with(10, 6, &GLIDER), alive(&life));
}

#[test]
fn glider_on_a_too_small_board_fails() {
    let mut life = Life::build(20, 20, 10).unwrap();
    life.toggle_on(1, 1).unwrap();
    assert_eq!(Err(LifeError::OutOfBounds), life.glider());
    assert_eq!(grid_with(2, 2, &[(1, 1)]), alive(&life));
}

#[test]
fn pulsar_on_a_too_small_board_fails() {
    let mut life = Life::build(100, 60, 10).unwrap();
    assert_eq!(Err(LifeError::OutOfBounds), life.pulsar());
    assert_eq!(grid_with(10, 6, &[]), alive(&life));
}

#[test]
fn last_preset_loaded_wins() {
    let mut life = Life::build(800, 600, 10).unwrap();
    life.pulsar().unwrap();
    life.glider().unwrap();
    assert_eq!(grid_with(80, 60, &GLIDER), alive(&life));
}

#[test]
fn load_preset_by_name() {
    let mut life = Life::build(800, 600, 10).unwrap();
    life.load_preset("glider").unwrap();
    assert_eq!(grid_with(80, 60, &GLIDER), alive(&life));
    let mut other = Life::build(800, 600, 10).unwrap();
    other.pulsar().unwrap();
    life.load_preset("pulsar").unwrap();
    assert_eq!(alive(&other), alive(&life));
}

#[test]
fn load_unknown_preset_fails() {
    let mut life = Life::build(100, 60, 10).unwrap();
    life.toggle_on(2, 2).unwrap();
    assert_eq!(Err(LifeError::UnknownPreset), life.load_preset("spaceship"));
    assert_eq!(grid_with(10, 6, &[(2, 2)]), alive(&life));
}

#[test]
fn two_runs_from_the_same_board_agree() {
    let mut a = Life::build(100, 60, 10).unwrap();
    let mut b = Life::build(100, 60, 10).unwrap();
    a.glider().unwrap();
    b.glider().unwrap();
    a.apply_rules();
    b.apply_rules();
    assert_eq!(alive(&a), alive(&b));
    a.apply_rules();
    b.apply_rules();
    assert_eq!(alive(&a), alive(&b));
}

#[test]
fn dead_board_stays_dead() {
    let mut life = Life::build(100, 60, 10).unwrap();
    for _ in 0..10 {
        life.apply_rules();
        assert_eq!(grid_with(10, 6, &[]), alive(&life));
    }
}

#[test]
fn glider_moves_one_cell_diagonally_every_four_generations() {
    let mut life = Life::build(100, 60, 10).unwrap();
    life.glider().unwrap();
    for _ in 0..4 {
        life.apply_rules();
    }
    let moved: Vec<(usize, usize)> = GLIDER.iter().map(|&(x, y)| (x + 1, y + 1)).collect();
    assert_eq!(grid_with(10, 6, &moved), alive(&life));
}

#[test]
fn pulsar_returns_after_three_generations() {
    let mut life = Life::build(800, 600, 10).unwrap();
    life.pulsar().unwrap();
    let start = alive(&life);
    life.apply_rules();
    assert_ne!(start, alive(&life));
    life.apply_rules();
    life.apply_rules();
    assert_eq!(start, alive(&life));
}

#[test]
fn corners_are_neighbours_of_the_origin() {
    let mut life = Life::build(100, 60, 10).unwrap();
    life.toggle_on(9, 5).unwrap();
    life.toggle_on(9, 0).unwrap();
    life.toggle_on(0, 5).unwrap();
    assert!(!life.board[0][0].is_on());
    life.apply_rules();
    assert!(life.board[0][0].is_on());
}

#[test]
fn blinker_flips_and_commit_copies_scratch_flags() {
    let mut life = Life::build(100, 60, 10).unwrap();
    life.toggle_on(3, 2).unwrap();
    life.toggle_on(4, 2).unwrap();
    life.toggle_on(5, 2).unwrap();
    life.apply_rules();
    assert_eq!(grid_with(10, 6, &[(4, 1), (4, 2), (4, 3)]), alive(&life));
    for row in &life.board {
        for p in row {
            assert_eq!(p.is_on(), p.is_alive_next_generation());
        }
    }
    life.apply_rules();
    assert_eq!(grid_with(10, 6, &[(3, 2), (4, 2), (5, 2)]), alive(&life));
}

#[test]
fn lonely_and_crowded_cells_die() {
    let mut life = Life::build(100, 60, 10).unwrap();
    // a lone cell, and a plus sign whose centre has four neighbours
    life.toggle_on(0, 0).unwrap();
    for &(x, y) in &[(6, 2), (5, 2), (7, 2), (6, 1), (6, 3)] {
        life.toggle_on(x, y).unwrap();
    }
    life.apply_rules();
    assert!(!life.board[0][0].is_on());
    assert!(!life.board[2][6].is_on());
}

#[test]
fn cleared_cell_marked_alive_does_not_come_back() {
    let mut life = Life::build(100, 60, 10).unwrap();
    // a block is stable: after one generation its cells carry a set scratch flag
    for &(x, y) in &[(2, 2), (3, 2), (2, 3), (3, 3)] {
        life.toggle_on(x, y).unwrap();
    }
    life.apply_rules();
    life.clear_board();
    life.apply_rules();
    assert_eq!(grid_with(10, 6, &[]), alive(&life));
}

#[test]
fn get_board_hands_out_the_board() {
    let mut life = Life::build(100, 60, 10).unwrap();
    life.toggle_on(1, 2).unwrap();
    let board = life.get_board();
    assert_eq!(6, board.len());
    assert!(board[2][1].is_on());
}
