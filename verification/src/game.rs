//! The simulation engine: grid storage, seeding, evolution, and the viewport.
//!
//! The grid is a `SIM_WIDTH` x `SIM_WIDTH` matrix of two-state cells with hard
//! boundaries: a neighbor offset that lands outside the grid is excluded from
//! the neighbor count, never wrapped around. The externally visible state is
//! the `DISPLAY_WIDTH` x `DISPLAY_WIDTH` window centered in the grid; the same
//! window is where a seed pattern is placed.

use vstd::prelude::*;

verus! {

/// Width (and height) of the simulated square grid.
pub const SIM_WIDTH: usize = 100;

/// Width (and height) of the square viewport seen by the outside world.
pub const DISPLAY_WIDTH: usize = 5;

/// Offset, on both axes, of the viewport's top-left corner inside the grid;
/// it centers the viewport in the grid.
pub const DISPLAY_OFFSET: usize = (SIM_WIDTH - DISPLAY_WIDTH) / 2;

/// A cell in a game of life, which is either dead or alive.
#[derive(Clone, Copy)]
enum Cell {
    Dead,
    Alive,
}

/// A simulated game of life.
///
/// The simulation is finite, and the "viewable window" is even smaller.
/// The mathematical model (the view) is a sequence of `SIM_WIDTH` rows, each a
/// sequence of `SIM_WIDTH` booleans, `true` meaning the cell is alive.
pub struct Game {
    grid: [[Cell; SIM_WIDTH]; SIM_WIDTH],
}

/// A grid model has exactly `SIM_WIDTH` rows of `SIM_WIDTH` cells each.
pub open spec fn grid_wf(s: Seq<Seq<bool>>) -> bool {
    &&& s.len() == SIM_WIDTH
    &&& forall|i: int| 0 <= i < SIM_WIDTH as int ==> (#[trigger] s[i]).len() == SIM_WIDTH
}

/// The cell at `(i, j)` is inside the grid and alive. Out-of-range
/// coordinates count as dead, which is exactly the hard-boundary policy.
pub open spec fn live(s: Seq<Seq<bool>>, i: int, j: int) -> bool {
    &&& 0 <= i < SIM_WIDTH as int
    &&& 0 <= j < SIM_WIDTH as int
    &&& s[i][j]
}

/// 1 if the cell at `(i, j)` is inside the grid and alive, else 0.
pub open spec fn live_1(s: Seq<Seq<bool>>, i: int, j: int) -> int {
    if live(s, i, j) { 1 } else { 0 }
}

/// Number of live neighbors of `(i, j)` among the up-to-8 in-bounds
/// candidates at offsets `{-1,0,1}^2` minus `(0,0)`.
pub open spec fn live_neighbor_count(s: Seq<Seq<bool>>, i: int, j: int) -> int {
    live_1(s, i - 1, j - 1) + live_1(s, i - 1, j) + live_1(s, i - 1, j + 1)
        + live_1(s, i, j - 1) + live_1(s, i, j + 1)
        + live_1(s, i + 1, j - 1) + live_1(s, i + 1, j) + live_1(s, i + 1, j + 1)
}

/// The standard rule, evaluated against the pre-step state `s`:
/// a live cell survives with 2 or 3 live neighbors, a dead cell is born
/// with exactly 3, and every other combination is dead.
pub open spec fn next_live(s: Seq<Seq<bool>>, i: int, j: int) -> bool {
    let n = live_neighbor_count(s, i, j);
    if live(s, i, j) {
        n == 2 || n == 3
    } else {
        n == 3
    }
}

/// The full next generation of `s`: every cell is computed from the previous
/// generation only.
pub open spec fn next_grid(s: Seq<Seq<bool>>) -> Seq<Seq<bool>> {
    Seq::new(
        SIM_WIDTH as nat,
        |i: int| Seq::new(SIM_WIDTH as nat, |j: int| next_live(s, i, j)),
    )
}

/// The grid in which every cell is dead.
pub open spec fn empty_grid() -> Seq<Seq<bool>> {
    Seq::new(SIM_WIDTH as nat, |i: int| Seq::new(SIM_WIDTH as nat, |j: int| false))
}

/// `(i, j)` lies inside the centered viewport window.
pub open spec fn in_window(i: int, j: int) -> bool {
    &&& DISPLAY_OFFSET as int <= i < DISPLAY_OFFSET as int + DISPLAY_WIDTH as int
    &&& DISPLAY_OFFSET as int <= j < DISPLAY_OFFSET as int + DISPLAY_WIDTH as int
}

/// The grid cell `(i, j)` is made alive when seeding from pattern `p`: it
/// lies in the window and its pattern entry is nonzero.
pub open spec fn seed_live(p: Seq<Seq<u8>>, i: int, j: int) -> bool {
    in_window(i, j) && p[i - DISPLAY_OFFSET as int][j - DISPLAY_OFFSET as int] != 0
}

/// The grid seeded from pattern `p`: alive exactly at the window cells whose
/// pattern entry is nonzero, dead everywhere else.
pub open spec fn seeded(p: Seq<Seq<u8>>) -> Seq<Seq<bool>> {
    Seq::new(
        SIM_WIDTH as nat,
        |i: int| Seq::new(SIM_WIDTH as nat, |j: int| seed_live(p, i, j)),
    )
}

/// The viewport of `s` as a 0/1 matrix: 1 exactly where the corresponding
/// window cell is alive.
pub open spec fn window(s: Seq<Seq<bool>>) -> Seq<Seq<u8>> {
    Seq::new(
        DISPLAY_WIDTH as nat,
        |i: int| Seq::new(
            DISPLAY_WIDTH as nat,
            |j: int| if live(s, i + DISPLAY_OFFSET as int, j + DISPLAY_OFFSET as int) {
                1u8
            } else {
                0u8
            },
        ),
    )
}

/// The model of a pattern matrix: its entries, row by row.
pub open spec fn pattern_view(p: [[u8; DISPLAY_WIDTH]; DISPLAY_WIDTH]) -> Seq<Seq<u8>> {
    Seq::new(DISPLAY_WIDTH as nat, |i: int| Seq::new(DISPLAY_WIDTH as nat, |j: int| p@[i]@[j]))
}

/// Grid cell `(a, b)` comes before window cell `(r, c)` in row-major order.
/// Used only to describe how far seeding has progressed.
spec fn window_cell_before(a: int, b: int, r: int, c: int) -> bool {
    ||| (a - DISPLAY_OFFSET as int) < r
    ||| (a - DISPLAY_OFFSET as int == r && (b - DISPLAY_OFFSET as int) < c)
}

/// The grid seeded from `p` only at the window cells that come before window
/// cell `(r, c)` in row-major order; every other cell is dead. Describes the
/// intermediate states of seeding.
spec fn seed_prefix(p: Seq<Seq<u8>>, r: int, c: int) -> Seq<Seq<bool>> {
    Seq::new(
        SIM_WIDTH as nat,
        |a: int| Seq::new(
            SIM_WIDTH as nat,
            |b: int| seed_live(p, a, b) && window_cell_before(a, b, r, c),
        ),
    )
}

/// Cell `(a, b)` comes before cell `(r, c)` in row-major order.
spec fn cell_before(a: int, b: int, r: int, c: int) -> bool {
    a < r || (a == r && b < c)
}

/// The viewport of `s`, but only at the cells that come before `(r, c)` in
/// row-major order; every other entry is 0. Describes the intermediate
/// states of reading the viewport.
spec fn window_prefix(s: Seq<Seq<bool>>, r: int, c: int) -> Seq<Seq<u8>> {
    Seq::new(
        DISPLAY_WIDTH as nat,
        |a: int| Seq::new(
            DISPLAY_WIDTH as nat,
            |b: int| if cell_before(a, b, r, c) && live(
                s,
                a + DISPLAY_OFFSET as int,
                b + DISPLAY_OFFSET as int,
            ) {
                1u8
            } else {
                0u8
            },
        ),
    )
}

/// The next generation of `s`, but only at the cells that come before
/// `(r, c)` in row-major order; every other cell is dead. Describes the
/// intermediate states of the evolution scan.
spec fn next_prefix(s: Seq<Seq<bool>>, r: int, c: int) -> Seq<Seq<bool>> {
    Seq::new(
        SIM_WIDTH as nat,
        |a: int| Seq::new(
            SIM_WIDTH as nat,
            |b: int| next_live(s, a, b) && cell_before(a, b, r, c),
        ),
    )
}

impl View for Game {
    type V = Seq<Seq<bool>>;

    closed spec fn view(&self) -> Seq<Seq<bool>> {
        Seq::new(
            SIM_WIDTH as nat,
            |i: int| Seq::new(SIM_WIDTH as nat, |j: int| self.grid@[i]@[j] is Alive),
        )
    }
}

impl Game {
    /// Create a new game, where all cells are initially dead.
    pub fn new() -> (g: Game)
        ensures
            g@ == empty_grid(),
    {
        let g = Game { grid: [[Cell::Dead; SIM_WIDTH]; SIM_WIDTH] };
        proof {
            assert(g@ =~~= empty_grid());
        }
        g
    }

    /// Whether the cell at grid coordinates `(i, j)` is alive.
    fn cell_live(&self, i: usize, j: usize) -> (b: bool)
        requires
            i < SIM_WIDTH,
            j < SIM_WIDTH,
        ensures
            b == live(self@, i as int, j as int),
    {
        match self.grid[i][j] {
            Cell::Alive => true,
            Cell::Dead => false,
        }
    }

    /// Overwrite the cell at grid coordinates `(i, j)`.
    fn set_cell(&mut self, i: usize, j: usize, cell: Cell)
        requires
            i < SIM_WIDTH,
            j < SIM_WIDTH,
        ensures
            final(self)@ == old(self)@.update(
                i as int,
                old(self)@[i as int].update(j as int, cell is Alive),
            ),
    {
        let mut row = self.grid[i];
        row[j] = cell;
        self.grid[i] = row;
        proof {
            assert(self@ =~~= old(self)@.update(
                i as int,
                old(self)@[i as int].update(j as int, cell is Alive),
            ));
        }
    }

    /// NOTE: the displayed region is in the middle of the simulated region.
    fn get_display_coords(&self, display_row: usize, display_col: usize) -> (cell: Cell)
        requires
            display_row < DISPLAY_WIDTH,
            display_col < DISPLAY_WIDTH,
        ensures
            (cell is Alive) == live(
                self@,
                display_row + DISPLAY_OFFSET as int,
                display_col + DISPLAY_OFFSET as int,
            ),
    {
        let i = display_row + DISPLAY_OFFSET;
        let j = display_col + DISPLAY_OFFSET;
        self.grid[i][j]
    }

    /// Create a new game that starts in the given state.
    ///
    /// The pattern lands in the centered viewport window: a nonzero entry
    /// makes the corresponding window cell alive, a zero entry leaves it
    /// dead, and every cell outside the window is dead.
    pub fn from_grid(grid: [[u8; DISPLAY_WIDTH]; DISPLAY_WIDTH]) -> (g: Game)
        ensures
            g@ == seeded(pattern_view(grid)),
    {
        let mut game = Game::new();
        proof {
            assert(game@ =~~= seed_prefix(pattern_view(grid), 0, 0));
        }

        let mut i: usize = 0;
        while i < DISPLAY_WIDTH
            invariant
                i <= DISPLAY_WIDTH,
                game@ == seed_prefix(pattern_view(grid), i as int, 0),
            decreases DISPLAY_WIDTH - i,
        {
            let mut j: usize = 0;
            while j < DISPLAY_WIDTH
                invariant
                    i < DISPLAY_WIDTH,
                    j <= DISPLAY_WIDTH,
                    game@ == seed_prefix(pattern_view(grid), i as int, j as int),
                decreases DISPLAY_WIDTH - j,
            {
                let cell = if grid[i][j] != 0 {
                    Cell::Alive
                } else {
                    Cell::Dead
                };

                game.set_display_coords(i, j, cell);
                proof {
                    assert((cell is Alive) == (pattern_view(grid)[i as int][j as int] != 0));
                    assert(game@ =~~= seed_prefix(pattern_view(grid), i as int, j as int + 1));
                }
                j = j + 1;
            }
            proof {
                assert(seed_prefix(pattern_view(grid), i as int, DISPLAY_WIDTH as int)
                    =~~= seed_prefix(pattern_view(grid), i as int + 1, 0));
            }
            i = i + 1;
        }

        proof {
            assert(seed_prefix(pattern_view(grid), DISPLAY_WIDTH as int, 0)
                =~~= seeded(pattern_view(grid)));
        }
        game
    }

    /// Return the "viewable window" of the game's current state.
    ///
    /// Each output entry is 1 exactly when the corresponding window cell is
    /// alive, and the output is a fresh snapshot: later evolution of the game
    /// cannot change it.
    pub fn display(&self) -> (output: [[u8; DISPLAY_WIDTH]; DISPLAY_WIDTH])
        ensures
            pattern_view(output) == window(self@),
    {
        let mut output = [[0u8; DISPLAY_WIDTH]; DISPLAY_WIDTH];
        proof {
            assert(pattern_view(output) =~~= window_prefix(self@, 0, 0));
        }

        let mut i: usize = 0;
        while i < DISPLAY_WIDTH
            invariant
                i <= DISPLAY_WIDTH,
                pattern_view(output) == window_prefix(self@, i as int, 0),
            decreases DISPLAY_WIDTH - i,
        {
            let mut j: usize = 0;
            while j < DISPLAY_WIDTH
                invariant
                    i < DISPLAY_WIDTH,
                    j <= DISPLAY_WIDTH,
                    pattern_view(output) == window_prefix(self@, i as int, j as int),
                decreases DISPLAY_WIDTH - j,
            {
                let ghost p0 = pattern_view(output);
                let cell = self.get_display_coords(i, j);
                let byte: u8 = match cell {
                    Cell::Dead => 0,
                    Cell::Alive => 1,
                };

                let mut row = output[i];
                row[j] = byte;
                output[i] = row;
                proof {
                    assert(pattern_view(output) =~~= p0.update(
                        i as int,
                        p0[i as int].update(j as int, byte),
                    ));
                    assert(pattern_view(output) =~~= window_prefix(self@, i as int, j as int + 1));
                }
                j = j + 1;
            }
            proof {
                assert(window_prefix(self@, i as int, DISPLAY_WIDTH as int) =~~= window_prefix(
                    self@,
                    i as int + 1,
                    0,
                ));
            }
            i = i + 1;
        }

        proof {
            assert(window_prefix(self@, DISPLAY_WIDTH as int, 0) =~~= window(self@));
        }
        output
    }

    /// Transition the game to the next state.
    ///
    /// Every cell of the new generation is computed from the previous
    /// generation exclusively, with clipped neighbor counting at the grid
    /// boundary.
    pub fn evolve(&mut self)
        ensures
            final(self)@ == next_grid(old(self)@),
    {
        *self = self.transform();
    }

    /// Compute the next generation into a fresh grid, reading only `self`.
    fn transform(&self) -> (g: Game)
        ensures
            g@ == next_grid(self@),
    {
        let mut output = Game::new();
        proof {
            assert(output@ =~~= next_prefix(self@, 0, 0));
        }

        let mut i: usize = 0;
        while i < SIM_WIDTH
            invariant
                i <= SIM_WIDTH,
                output@ == next_prefix(self@, i as int, 0),
            decreases SIM_WIDTH - i,
        {
            let mut j: usize = 0;
            while j < SIM_WIDTH
                invariant
                    i < SIM_WIDTH,
                    j <= SIM_WIDTH,
                    output@ == next_prefix(self@, i as int, j as int),
                decreases SIM_WIDTH - j,
            {
                let n = neighbors(self, i, j);
                let new_cell = match (self.cell_live(i, j), n) {
                    (true, 2 | 3) => Cell::Alive,
                    (false, 3) => Cell::Alive,
                    _ => Cell::Dead,
                };

                output.set_cell(i, j, new_cell);
                proof {
                    assert(output@ =~~= next_prefix(self@, i as int, j as int + 1));
                }
                j = j + 1;
            }
            proof {
                assert(next_prefix(self@, i as int, SIM_WIDTH as int) =~~= next_prefix(
                    self@,
                    i as int + 1,
                    0,
                ));
            }
            i = i + 1;
        }

        proof {
            assert(next_prefix(self@, SIM_WIDTH as int, 0) =~~= next_grid(self@));
        }
        output
    }

    /// NOTE: the displayed region is in the middle of the simulated region.
    fn set_display_coords(&mut self, display_row: usize, display_col: usize, cell: Cell)
        requires
            display_row < DISPLAY_WIDTH,
            display_col < DISPLAY_WIDTH,
        ensures
            final(self)@ == old(self)@.update(
                display_row + DISPLAY_OFFSET as int,
                old(self)@[display_row + DISPLAY_OFFSET as int].update(
                    display_col + DISPLAY_OFFSET as int,
                    cell is Alive,
                ),
            ),
    {
        let i = display_row + DISPLAY_OFFSET;
        let j = display_col + DISPLAY_OFFSET;
        self.set_cell(i, j, cell);
    }
}

/// Count the live neighbors of `(i, j)`.
///
/// Checks bounds against the range `0..SIM_WIDTH`, and counts fewer than 8
/// candidates if any of them would be out-of-bounds.
fn neighbors(game: &Game, i: usize, j: usize) -> (n: u8)
    requires
        i < SIM_WIDTH,
        j < SIM_WIDTH,
    ensures
        n as int == live_neighbor_count(game@, i as int, j as int),
{
    let mut n: u8 = 0;
    if i > 0 && j > 0 && game.cell_live(i - 1, j - 1) {
        n = n + 1;
    }
    if i > 0 && game.cell_live(i - 1, j) {
        n = n + 1;
    }
    if i > 0 && j + 1 < SIM_WIDTH && game.cell_live(i - 1, j + 1) {
        n = n + 1;
    }
    if j > 0 && game.cell_live(i, j - 1) {
        n = n + 1;
    }
    if j + 1 < SIM_WIDTH && game.cell_live(i, j + 1) {
        n = n + 1;
    }
    if i + 1 < SIM_WIDTH && j > 0 && game.cell_live(i + 1, j - 1) {
        n = n + 1;
    }
    if i + 1 < SIM_WIDTH && game.cell_live(i + 1, j) {
        n = n + 1;
    }
    if i + 1 < SIM_WIDTH && j + 1 < SIM_WIDTH && game.cell_live(i + 1, j + 1) {
        n = n + 1;
    }
    n
}

} // verus!
