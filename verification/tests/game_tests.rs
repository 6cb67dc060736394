use game_of_life::game::Game;

/// The pattern the host program boots with: an R-pentomino-like shape.
fn boot_pattern() -> [[u8; 5]; 5] {
    [
        [0, 0, 0, 0, 0],
        [0, 0, 1, 1, 0],
        [0, 1, 1, 0, 0],
        [0, 0, 1, 0, 0],
        [0, 0, 0, 0, 0],
    ]
}

#[test]
fn new_game_displays_all_zeros() {
    let game = Game::new();
    assert_eq!(game.display(), [[0u8; 5]; 5]);
}

#[test]
fn seed_display_round_trip() {
    let pattern = boot_pattern();
    let game = Game::from_grid(pattern);
    assert_eq!(game.display(), pattern);
}

#[test]
fn seed_maps_any_nonzero_to_one() {
    let pattern = [
        [9, 0, 0, 0, 0],
        [0, 2, 0, 0, 0],
        [0, 0, 0, 0, 0],
        [0, 0, 0, 255, 0],
        [0, 0, 0, 0, 0],
    ];
    let game = Game::from_grid(pattern);
    let expected = [
        [1, 0, 0, 0, 0],
        [0, 1, 0, 0, 0],
        [0, 0, 0, 0, 0],
        [0, 0, 0, 1, 0],
        [0, 0, 0, 0, 0],
    ];
    assert_eq!(game.display(), expected);
}

#[test]
fn empty_game_stays_empty() {
    let mut game = Game::new();
    for _ in 0..10 {
        game.evolve();
        assert_eq!(game.display(), [[0u8; 5]; 5]);
    }
}

#[test]
fn isolated_cell_dies() {
    let pattern = [
        [0, 0, 0, 0, 0],
        [0, 0, 0, 0, 0],
        [0, 0, 1, 0, 0],
        [0, 0, 0, 0, 0],
        [0, 0, 0, 0, 0],
    ];
    let mut game = Game::from_grid(pattern);
    game.evolve();
    assert_eq!(game.display(), [[0u8; 5]; 5]);
}

#[test]
fn lone_window_corner_cell_dies() {
    let pattern = [
        [1, 0, 0, 0, 0],
        [0, 0, 0, 0, 0],
        [0, 0, 0, 0, 0],
        [0, 0, 0, 0, 0],
        [0, 0, 0, 0, 0],
    ];
    let mut game = Game::from_grid(pattern);
    game.evolve();
    assert_eq!(game.display(), [[0u8; 5]; 5]);
}

#[test]
fn block_is_a_still_life() {
    let pattern = [
        [0, 0, 0, 0, 0],
        [0, 1, 1, 0, 0],
        [0, 1, 1, 0, 0],
        [0, 0, 0, 0, 0],
        [0, 0, 0, 0, 0],
    ];
    let mut game = Game::from_grid(pattern);
    for _ in 0..5 {
        game.evolve();
        assert_eq!(game.display(), pattern);
    }
}

#[test]
fn blinker_oscillates_with_period_two() {
    let horizontal = [
        [0, 0, 0, 0, 0],
        [0, 0, 0, 0, 0],
        [0, 1, 1, 1, 0],
        [0, 0, 0, 0, 0],
        [0, 0, 0, 0, 0],
    ];
    let vertical = [
        [0, 0, 0, 0, 0],
        [0, 0, 1, 0, 0],
        [0, 0, 1, 0, 0],
        [0, 0, 1, 0, 0],
        [0, 0, 0, 0, 0],
    ];
    let mut game = Game::from_grid(horizontal);

    game.evolve();
    assert_eq!(game.display(), vertical);

    game.evolve();
    assert_eq!(game.display(), horizontal);
}

#[test]
fn evolution_is_deterministic_across_instances() {
    let pattern = boot_pattern();
    let mut first = Game::from_grid(pattern);
    let mut second = Game::from_grid(pattern);

    for _ in 0..8 {
        first.evolve();
        second.evolve();
        assert_eq!(first.display(), second.display());
    }
}
