//! Laws of the engine, proved once and for all over the grid model.
//!
//! Each law is stated over the spec functions that the engine's contracts
//! use (`seeded`, `window`, `next_grid`, ...), so together with those
//! contracts it applies to every run of the executable engine.

use vstd::prelude::*;

verus! {

use crate::game::DISPLAY_WIDTH;
use crate::game::SIM_WIDTH;
use crate::game::empty_grid;
use crate::game::grid_wf;
use crate::game::live;
use crate::game::live_neighbor_count;
use crate::game::next_grid;
use crate::game::next_live;
use crate::game::seeded;
use crate::game::window;

/// Round trip: seeding the grid from any 0/1 pattern and then reading the
/// viewport gives the pattern back, before any evolution step runs.
pub proof fn lemma_seed_window_round_trip(p: Seq<Seq<u8>>)
    requires
        p.len() == DISPLAY_WIDTH,
        forall|i: int| 0 <= i < DISPLAY_WIDTH as int ==> (#[trigger] p[i]).len() == DISPLAY_WIDTH,
        forall|i: int, j: int|
            0 <= i < DISPLAY_WIDTH as int && 0 <= j < DISPLAY_WIDTH as int ==> (#[trigger] p[i][j])
                == 0 || p[i][j] == 1,
    ensures
        window(seeded(p)) == p,
{
    assert(window(seeded(p)) =~~= p);
}

/// Empty stability: a grid with no live cell is unchanged by a step, and its
/// viewport is all zeros. Applied repeatedly, any number of steps from the
/// empty grid leaves the viewport all zeros.
pub proof fn lemma_dead_grid_stable(s: Seq<Seq<bool>>)
    requires
        grid_wf(s),
        forall|i: int, j: int| !(#[trigger] live(s, i, j)),
    ensures
        next_grid(s) == s,
        forall|i: int, j: int|
            0 <= i < DISPLAY_WIDTH as int && 0 <= j < DISPLAY_WIDTH as int ==> (#[trigger] window(
                s,
            )[i][j]) == 0,
{
    assert(next_grid(s) =~~= s);
}

/// The grid of `Game::new` is all dead, stable, and displays as all zeros.
pub proof fn lemma_empty_grid_stable()
    ensures
        grid_wf(empty_grid()),
        forall|i: int, j: int| !(#[trigger] live(empty_grid(), i, j)),
        next_grid(empty_grid()) == empty_grid(),
        forall|i: int, j: int|
            0 <= i < DISPLAY_WIDTH as int && 0 <= j < DISPLAY_WIDTH as int ==> (#[trigger] window(
                empty_grid(),
            )[i][j]) == 0,
{
    lemma_dead_grid_stable(empty_grid());
}

/// Isolated death: a live cell with no live neighbors is dead after one step.
pub proof fn lemma_isolated_cell_dies(s: Seq<Seq<bool>>, i: int, j: int)
    requires
        live(s, i, j),
        live_neighbor_count(s, i, j) == 0,
    ensures
        !live(next_grid(s), i, j),
{
}

/// Boundary clipping: the corner cell `(0, 0)` has only 3 candidate
/// neighbors, so its count never exceeds 3.
pub proof fn lemma_corner_neighbor_bound(s: Seq<Seq<bool>>)
    ensures
        live_neighbor_count(s, 0, 0) <= 3,
{
}

/// A live corner cell whose 3 in-bounds neighbors are dead has neighbor
/// count 0, and dies after one step.
pub proof fn lemma_lone_corner_dies(s: Seq<Seq<bool>>)
    requires
        live(s, 0, 0),
        !live(s, 0, 1),
        !live(s, 1, 0),
        !live(s, 1, 1),
    ensures
        live_neighbor_count(s, 0, 0) == 0,
        !live(next_grid(s), 0, 0),
{
}

/// Determinism: two engines in equal states evolve to equal states, with
/// equal viewports; the step is a pure function of the previous generation.
pub proof fn lemma_evolve_deterministic(s: Seq<Seq<bool>>, t: Seq<Seq<bool>>)
    requires
        s == t,
    ensures
        next_grid(s) == next_grid(t),
        window(next_grid(s)) == window(next_grid(t)),
{
}

/// Membership in the 2x2 block whose top-left cell is `(r, c)`.
pub open spec fn block_cell(r: int, c: int, i: int, j: int) -> bool {
    (i == r || i == r + 1) && (j == c || j == c + 1)
}

/// Still life: a grid holding exactly a 2x2 block of live cells, away from
/// the grid edge, is unchanged by a step: each block cell has exactly 3 live
/// neighbors, and no dead cell has 3.
pub proof fn lemma_block_still_life(s: Seq<Seq<bool>>, r: int, c: int)
    requires
        grid_wf(s),
        1 <= r && r + 2 < SIM_WIDTH as int,
        1 <= c && c + 2 < SIM_WIDTH as int,
        forall|i: int, j: int| #[trigger] live(s, i, j) <==> block_cell(r, c, i, j),
    ensures
        next_grid(s) == s,
{
    assert forall|i: int, j: int|
        0 <= i < SIM_WIDTH as int && 0 <= j < SIM_WIDTH as int implies next_live(s, i, j) == s[i][j] by {
        assert(live(s, i, j) <==> block_cell(r, c, i, j));
    }
    assert(next_grid(s) =~~= s);
}

/// Membership in the horizontal blinker: row `r`, columns `c..=c+2`.
pub open spec fn blinker_h_cell(r: int, c: int, i: int, j: int) -> bool {
    i == r && c <= j <= c + 2
}

/// Membership in the vertical blinker: column `c+1`, rows `r-1..=r+1`.
pub open spec fn blinker_v_cell(r: int, c: int, i: int, j: int) -> bool {
    j == c + 1 && r - 1 <= i <= r + 1
}

/// Oscillator, first half: one step turns the horizontal blinker (row `r`,
/// columns `c..=c+2`, away from the grid edge) into the vertical blinker
/// (column `c+1`, rows `r-1..=r+1`).
pub proof fn lemma_blinker_horizontal_step(s: Seq<Seq<bool>>, r: int, c: int)
    requires
        grid_wf(s),
        1 <= r && r + 1 < SIM_WIDTH as int,
        1 <= c && c + 3 < SIM_WIDTH as int,
        forall|i: int, j: int| #[trigger] live(s, i, j) <==> blinker_h_cell(r, c, i, j),
    ensures
        forall|i: int, j: int| #[trigger] live(next_grid(s), i, j) <==> blinker_v_cell(r, c, i, j),
{
    assert forall|i: int, j: int| #[trigger] live(next_grid(s), i, j) <==> blinker_v_cell(
        r,
        c,
        i,
        j,
    ) by {
        if 0 <= i < SIM_WIDTH as int && 0 <= j < SIM_WIDTH as int {
            assert(next_grid(s)[i][j] == next_live(s, i, j));
        }
    }
}

/// Oscillator, second half: one step turns the vertical blinker back into
/// the horizontal blinker.
pub proof fn lemma_blinker_vertical_step(s: Seq<Seq<bool>>, r: int, c: int)
    requires
        grid_wf(s),
        1 <= r && r + 1 < SIM_WIDTH as int,
        1 <= c && c + 3 < SIM_WIDTH as int,
        forall|i: int, j: int| #[trigger] live(s, i, j) <==> blinker_v_cell(r, c, i, j),
    ensures
        forall|i: int, j: int| #[trigger] live(next_grid(s), i, j) <==> blinker_h_cell(r, c, i, j),
{
    assert forall|i: int, j: int| #[trigger] live(next_grid(s), i, j) <==> blinker_h_cell(
        r,
        c,
        i,
        j,
    ) by {
        if 0 <= i < SIM_WIDTH as int && 0 <= j < SIM_WIDTH as int {
            assert(next_grid(s)[i][j] == next_live(s, i, j));
        }
    }
}

/// Oscillator, period two: a grid holding exactly a horizontal blinker, away
/// from the grid edge, returns to its original state after two steps.
pub proof fn lemma_blinker_period_two(s: Seq<Seq<bool>>, r: int, c: int)
    requires
        grid_wf(s),
        1 <= r && r + 1 < SIM_WIDTH as int,
        1 <= c && c + 3 < SIM_WIDTH as int,
        forall|i: int, j: int| #[trigger] live(s, i, j) <==> blinker_h_cell(r, c, i, j),
    ensures
        next_grid(next_grid(s)) == s,
{
    lemma_blinker_horizontal_step(s, r, c);
    lemma_blinker_vertical_step(next_grid(s), r, c);
    assert forall|i: int, j: int|
        0 <= i < SIM_WIDTH as int && 0 <= j < SIM_WIDTH as int implies next_grid(next_grid(s))[i][j]
        == s[i][j] by {
        assert(live(next_grid(next_grid(s)), i, j) <==> blinker_h_cell(r, c, i, j));
        assert(live(s, i, j) <==> blinker_h_cell(r, c, i, j));
    }
    assert(next_grid(next_grid(s)) =~~= s);
}

} // verus!
