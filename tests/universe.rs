use game_of_life::{into_cells, Cell, GridError, Universe};

fn grid(rows: Vec<Vec<u8>>) -> Universe {
    let h = rows.len();
    let w = rows[0].len();
    Universe::with_cells(into_cells(rows), h, w)
}

#[test]
fn test_neighbors() {
    let board = Universe::with_cells(
        into_cells(vec![
            vec![0, 1, 0, 1],
            vec![0, 0, 1, 1],
            vec![0, 0, 0, 0],
            vec![0, 0, 0, 0],
        ]),
        4,
        4,
    );
    assert_eq!(board.neighbors(2, 1), 3);
    assert_eq!(board.neighbors(1, 2), 1);
    assert_eq!(board.neighbors(2, 0), 4);
    assert_eq!(board.neighbors(0, 0), 1);
    assert_eq!(board.neighbors(3, 3), 0);
}

#[test]
fn test_tick() {
    let mut board = Universe::with_cells(
        into_cells(vec![
            vec![0, 1, 0, 1],
            vec![0, 0, 1, 1],
            vec![0, 0, 0, 0],
            vec![0, 0, 0, 0],
        ]),
        4,
        4,
    );

    let tick_1 = into_cells(vec![
        vec![0, 0, 0, 1],
        vec![0, 0, 1, 1],
        vec![0, 0, 0, 0],
        vec![0, 0, 0, 0],
    ]);

    let tick_2 = into_cells(vec![
        vec![0, 0, 1, 1],
        vec![0, 0, 1, 1],
        vec![0, 0, 0, 0],
        vec![0, 0, 0, 0],
    ]);

    board.tick();
    assert_eq!(board.cells(), &tick_1[..]);

    board.tick();
    assert_eq!(board.cells(), &tick_2[..]);

    // tick_2 is the final state of this sim, so it should stay the same

    board.tick();
    assert_eq!(board.cells(), &tick_2[..]);

    board.tick();
    assert_eq!(board.cells(), &tick_2[..]);

    let mut board = Universe::with_cells(
        into_cells(vec![
            vec![0, 1, 1, 0],
            vec![0, 0, 0, 1],
            vec![0, 1, 1, 0],
            vec![0, 0, 0, 0],
        ]),
        4,
        4,
    );

    let tick_1 = into_cells(vec![
        vec![0, 0, 1, 0],
        vec![0, 0, 0, 1],
        vec![0, 0, 1, 0],
        vec![0, 0, 0, 0],
    ]);

    let tick_2 = into_cells(vec![
        vec![0, 0, 0, 0],
        vec![0, 0, 1, 1],
        vec![0, 0, 0, 0],
        vec![0, 0, 0, 0],
    ]);

    let tick_final = into_cells(vec![
        vec![0, 0, 0, 0],
        vec![0, 0, 0, 0],
        vec![0, 0, 0, 0],
        vec![0, 0, 0, 0],
    ]);

    board.tick();

    assert_eq!(board.cells(), &tick_1[..]);

    board.tick();
    assert_eq!(board.cells(), &tick_2[..]);

    board.tick();
    assert_eq!(board.cells(), &tick_final[..]);

    // end state

    board.tick();
    assert_eq!(board.cells(), &tick_final[..]);
}

#[test]
fn into_cells_flattens_rows() {
    let cells = into_cells(vec![vec![0, 2], vec![1, 0], vec![255, 7]]);
    assert_eq!(
        cells,
        vec![Cell::Dead, Cell::Alive, Cell::Alive, Cell::Dead, Cell::Alive, Cell::Alive]
    );
    assert_eq!(into_cells(vec![]), vec![]);
}

#[test]
fn neighbors_at_corners_and_edges() {
    let board = grid(vec![vec![1, 1, 1], vec![1, 1, 1], vec![1, 1, 1]]);
    assert_eq!(board.neighbors(0, 0), 3);
    assert_eq!(board.neighbors(2, 0), 3);
    assert_eq!(board.neighbors(2, 2), 3);
    assert_eq!(board.neighbors(1, 0), 5);
    assert_eq!(board.neighbors(2, 1), 5);
    assert_eq!(board.neighbors(1, 1), 8);
    // the right-hand column does not see the left-hand column of the next row
    let board = grid(vec![vec![0, 0, 0], vec![1, 0, 0], vec![0, 0, 0]]);
    assert_eq!(board.neighbors(2, 0), 0);
    assert_eq!(board.neighbors(2, 1), 0);
    assert_eq!(board.neighbors(2, 2), 0);
    // positions off the grid count only the cells on it
    assert_eq!(board.neighbors(usize::MAX, usize::MAX), 0);
    assert_eq!(board.neighbors(3, 1), 0);
    assert_eq!(board.neighbors(1, 3), 0);
}

#[test]
fn tick_reads_only_the_previous_generation() {
    // a blinker: with updates in place it would not oscillate
    let mut board = grid(vec![vec![0, 0, 0], vec![1, 1, 1], vec![0, 0, 0]]);
    board.tick();
    assert_eq!(board.cells(), &into_cells(vec![vec![0, 1, 0], vec![0, 1, 0], vec![0, 1, 0]])[..]);
    board.tick();
    assert_eq!(board.cells(), &into_cells(vec![vec![0, 0, 0], vec![1, 1, 1], vec![0, 0, 0]])[..]);
}

#[test]
fn alive_cell_rules() {
    // isolation, survival with two and three, overcrowding with four
    let mut board = grid(vec![vec![1, 0, 0], vec![0, 0, 0], vec![0, 0, 0]]);
    board.tick();
    assert_eq!(board.cells()[0], Cell::Dead);

    let mut board = grid(vec![vec![1, 1, 0], vec![1, 1, 0], vec![0, 0, 0]]);
    board.tick();
    assert_eq!(board.cells()[0], Cell::Alive);
    assert_eq!(board.cells()[4], Cell::Alive);

    let mut board = grid(vec![vec![1, 1, 1], vec![1, 1, 0], vec![0, 0, 0]]);
    board.tick();
    // the centre had four live neighbours
    assert_eq!(board.cells()[4], Cell::Dead);
}

#[test]
fn dead_cell_turns_idle_after_staying_dead() {
    let mut board = grid(vec![vec![0]]);
    for _ in 0..9 {
        board.tick();
        assert_eq!(board.cells(), &[Cell::Dead][..]);
    }
    // counter now 9: one more dead generation
    board.tick();
    assert_eq!(board.cells(), &[Cell::Dead][..]);
    // counter now 10: the cell settles
    board.tick();
    assert_eq!(board.cells(), &[Cell::Idle][..]);
    board.tick();
    assert_eq!(board.cells(), &[Cell::Idle][..]);
}

#[test]
fn idle_cell_comes_back_with_three_neighbours() {
    let mut board = Universe::with_cells(
        vec![
            Cell::Alive, Cell::Alive, Cell::Alive,
            Cell::Dead, Cell::Idle, Cell::Dead,
            Cell::Dead, Cell::Dead, Cell::Idle,
        ],
        3,
        3,
    );
    board.tick();
    assert_eq!(board.cells()[4], Cell::Alive);
    // an idle cell without three live neighbours stays idle
    assert_eq!(board.cells()[8], Cell::Idle);
}

#[test]
fn clear_then_tick_keeps_everything_dead() {
    let mut board = Universe::new();
    board.clear();
    assert!(board.cells().iter().all(|c| *c == Cell::Dead));
    board.tick();
    assert_eq!(board.cells().len(), 64 * 64);
    assert!(board.cells().iter().all(|c| *c == Cell::Dead));
    // the counters were reset by the clear: the cells settle only after
    // the full idle time again
    let mut board = grid(vec![vec![0, 0], vec![0, 0]]);
    for _ in 0..10 {
        board.tick();
    }
    board.clear();
    for _ in 0..10 {
        board.tick();
        assert!(board.cells().iter().all(|c| *c == Cell::Dead));
    }
    board.tick();
    assert!(board.cells().iter().all(|c| *c == Cell::Idle));
}

#[test]
fn resizing_discards_the_pattern() {
    let mut board = grid(vec![vec![1, 1], vec![1, 1]]);
    board.set_width(3);
    assert_eq!(board.width(), 3);
    assert_eq!(board.height(), 2);
    assert_eq!(board.cells(), &[Cell::Dead; 6][..]);
    board.push_cell(2, 1);
    board.set_height(4);
    assert_eq!(board.width(), 3);
    assert_eq!(board.height(), 4);
    assert_eq!(board.cells(), &[Cell::Dead; 12][..]);
}

#[test]
fn new_is_the_seeded_square() {
    let board = Universe::new();
    assert_eq!(board.width(), 64);
    assert_eq!(board.height(), 64);
    let cells = board.cells();
    assert_eq!(cells.len(), 4096);
    assert_eq!(cells[0], Cell::Alive);
    assert_eq!(cells[1], Cell::Idle);
    assert_eq!(cells[2], Cell::Alive);
    assert_eq!(cells[7], Cell::Alive);
    assert_eq!(cells[9], Cell::Idle);
    assert_eq!(cells[21], Cell::Alive);
    assert_eq!(cells[4095], Cell::Alive);
    assert_eq!(cells[4093], Cell::Idle);
}

#[test]
fn push_cell_sets_one_cell() {
    let mut board = grid(vec![vec![0, 0, 0], vec![0, 0, 0]]);
    board.push_cell(1, 1);
    assert_eq!(board.cells(), &into_cells(vec![vec![0, 0, 0], vec![0, 1, 0]])[..]);
}

#[test]
fn try_push_cell_checks_bounds() {
    let mut board = grid(vec![vec![0, 0, 0], vec![0, 0, 0]]);
    assert_eq!(board.try_push_cell(3, 0), Err(GridError::OutOfBounds));
    assert_eq!(board.try_push_cell(0, 2), Err(GridError::OutOfBounds));
    assert_eq!(board.cells(), &[Cell::Dead; 6][..]);
    assert_eq!(board.try_push_cell(2, 0), Ok(()));
    assert_eq!(board.cells(), &into_cells(vec![vec![0, 0, 1], vec![0, 0, 0]])[..]);
}

#[test]
fn try_with_cells_checks_the_length() {
    let r = Universe::try_with_cells(vec![Cell::Dead; 5], 2, 3);
    assert!(matches!(r, Err(GridError::DimensionMismatch)));
    let r = Universe::try_with_cells(vec![], usize::MAX, 2);
    assert!(matches!(r, Err(GridError::DimensionMismatch)));
    let u = Universe::try_with_cells(vec![Cell::Alive; 6], 2, 3).unwrap();
    assert_eq!(u.width(), 3);
    assert_eq!(u.height(), 2);
    assert_eq!(u.cells(), &[Cell::Alive; 6][..]);
}

#[test]
fn render_draws_rows() {
    let board = Universe::with_cells(
        vec![Cell::Dead, Cell::Alive, Cell::Idle, Cell::Dead, Cell::Dead, Cell::Alive],
        2,
        3,
    );
    assert_eq!(board.render(), "\u{25fb}\u{25fc}\u{25fc}\n\u{25fb}\u{25fb}\u{25fc}\n");
    let empty = Universe::with_cells(vec![], 0, 5);
    assert_eq!(empty.render(), "");
}
