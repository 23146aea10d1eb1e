use vstd::prelude::*;
use vstd::arithmetic::div_mod::{lemma_mod_add_multiples_vanish, lemma_mod_self_0, lemma_small_mod};

use crate::automaton::CellularAutomatonWorldSizeError;
use crate::dim2::{
    cell_from_2d, grid_view, is_rectangular, next_cell_2d, next_world_2d, world_fits, CellularAutomaton2d,
    Neighbors2d, Rule2d,
};

verus! {

/// The value seen at row `i`, column `j` of `world`, where the coordinates
/// may lie one step outside the grid: on a torus they are taken modulo the
/// grid's dimensions, otherwise a cell outside the grid is dead.
pub open spec fn seen_cell(world: Seq<Seq<bool>>, i: int, j: int, wrapping: bool) -> bool {
    let h = world.len() as int;
    let w = world[0].len() as int;
    if wrapping {
        world[i % h][j % w]
    } else if 0 <= i < h && 0 <= j < w {
        world[i][j]
    } else {
        false
    }
}

/// The 3x3 block centred on row `i`, column `j`.
pub open spec fn conway_window(world: Seq<Seq<bool>>, i: int, j: int, wrapping: bool) -> [[bool; 3]; 3] {
    [
        [
            seen_cell(world, i - 1, j - 1, wrapping),
            seen_cell(world, i - 1, j, wrapping),
            seen_cell(world, i - 1, j + 1, wrapping),
        ],
        [
            seen_cell(world, i, j - 1, wrapping),
            seen_cell(world, i, j, wrapping),
            seen_cell(world, i, j + 1, wrapping),
        ],
        [
            seen_cell(world, i + 1, j - 1, wrapping),
            seen_cell(world, i + 1, j, wrapping),
            seen_cell(world, i + 1, j + 1, wrapping),
        ],
    ]
}

/// One for a live cell, zero for a dead one.
pub open spec fn alive(b: bool) -> int {
    if b {
        1
    } else {
        0
    }
}

/// Number of live cells among the eight that surround the centre of a block.
pub open spec fn live_neighbors(w: [[bool; 3]; 3]) -> int {
    alive(w@[0]@[0]) + alive(w@[0]@[1]) + alive(w@[0]@[2]) + alive(w@[1]@[0]) + alive(w@[1]@[2])
        + alive(w@[2]@[0]) + alive(w@[2]@[1]) + alive(w@[2]@[2])
}

/// A live centre survives with two or three live neighbours; a dead centre
/// comes alive with exactly three.
pub open spec fn life(center: bool, live: int) -> bool {
    if center {
        live == 2 || live == 3
    } else {
        live == 3
    }
}

/// The next value of the centre of a block.
pub open spec fn conway_evolve_spec(w: [[bool; 3]; 3]) -> bool {
    life(w@[1]@[1], live_neighbors(w))
}

/// One generation of the Game of Life on a rectangular grid.
pub open spec fn conway_next(world: Seq<Seq<bool>>, wrapping: bool) -> Seq<Seq<bool>> {
    Seq::new(
        world.len(),
        |i: int|
            Seq::new(world[0].len(), |j: int| conway_evolve_spec(conway_window(world, i, j, wrapping))),
    )
}

/// The Game of Life, on a torus when `wrapping` holds and with dead cells
/// beyond the edges otherwise.
#[derive(Clone, Copy, Debug, PartialEq, Eq, Structural)]
pub struct ConwayRule {
    pub wrapping: bool,
}

/// The coordinate `i + d - 1` in a dimension of length `n`, wrapped or, when
/// it falls outside, absent.
fn shifted(i: usize, d: usize, n: usize, wrapping: bool) -> (r: Option<usize>)
    requires
        i < n,
        d < 3,
    ensures
        wrapping ==> r == Some(((i + d - 1) % (n as int)) as usize),
        !wrapping && 0 <= i + d - 1 < n ==> r == Some((i + d - 1) as usize),
        !wrapping && !(0 <= i + d - 1 < n) ==> r is None,
{
    proof {
        let k = i + d - 1;
        if 0 <= k < n {
            lemma_small_mod(k as nat, n as nat);
        } else if k < 0 {
            lemma_mod_add_multiples_vanish(-1, n as int);
            lemma_small_mod((n - 1) as nat, n as nat);
        } else {
            lemma_mod_self_0(n as int);
        }
    }
    if d == 0 {
        if i > 0 {
            Some(i - 1)
        } else if wrapping {
            Some(n - 1)
        } else {
            None
        }
    } else if d == 1 {
        Some(i)
    } else if i + 1 < n {
        Some(i + 1)
    } else if wrapping {
        Some(0)
    } else {
        None
    }
}

/// The cell seen from row `i`, column `j` at offset `(di - 1, dj - 1)`.
fn seen(world: &Vec<Vec<bool>>, i: usize, j: usize, di: usize, dj: usize, wrapping: bool) -> (r: bool)
    requires
        world_fits(grid_view(world@), 1, 1),
        i < world@.len(),
        j < world@[0]@.len(),
        di < 3,
        dj < 3,
    ensures
        r == seen_cell(grid_view(world@), i + di - 1, j + dj - 1, wrapping),
{
    let g = Ghost(grid_view(world@));
    assert(g@[0].len() == world@[0]@.len());
    match (shifted(i, di, world.len(), wrapping), shifted(j, dj, world[0].len(), wrapping)) {
        (Some(a), Some(b)) => {
            assert(g@[a as int].len() == g@[0].len());
            world[a][b]
        },
        _ => false,
    }
}

impl Rule2d<bool, 3, 3> for ConwayRule {
    open spec fn reads(&self, world: Seq<Seq<bool>>, i: int, j: int, r: Neighbors2d<bool, 3, 3>) -> bool {
        r == Neighbors2d::Neighborhood(conway_window(world, i, j, self.wrapping))
    }

    open spec fn evolves_to(&self, window: [[bool; 3]; 3], cell: bool) -> bool {
        cell == conway_evolve_spec(window)
    }

    /// Cells beyond the edges are wrapped or dead, so any non-empty grid will do.
    open spec fn min_shape(&self) -> (nat, nat) {
        (1, 1)
    }

    fn min_size(&self) -> (r: (usize, usize)) {
        (1, 1)
    }

    fn neighbors(&self, world: &Vec<Vec<bool>>, i: usize, j: usize) -> (r: Neighbors2d<bool, 3, 3>) {
        let w = self.wrapping;
        Neighbors2d::Neighborhood(
            [
                [seen(world, i, j, 0, 0, w), seen(world, i, j, 0, 1, w), seen(world, i, j, 0, 2, w)],
                [seen(world, i, j, 1, 0, w), seen(world, i, j, 1, 1, w), seen(world, i, j, 1, 2, w)],
                [seen(world, i, j, 2, 0, w), seen(world, i, j, 2, 1, w), seen(world, i, j, 2, 2, w)],
            ],
        )
    }

    fn evolve(&self, window: [[bool; 3]; 3]) -> (r: bool) {
        let mut live: u8 = 0;
        if window[0][0] {
            live = live + 1;
        }
        if window[0][1] {
            live = live + 1;
        }
        if window[0][2] {
            live = live + 1;
        }
        if window[1][0] {
            live = live + 1;
        }
        if window[1][2] {
            live = live + 1;
        }
        if window[2][0] {
            live = live + 1;
        }
        if window[2][1] {
            live = live + 1;
        }
        if window[2][2] {
            live = live + 1;
        }
        let center = window[1][1];
        (center && (live == 2 || live == 3)) || (!center && live == 3)
    }
}

/// One step of an engine under the Game of Life yields exactly `conway_next`
/// of the previous grid.
pub proof fn lemma_conway_step(wrapping: bool, prev: Seq<Seq<bool>>, next: Seq<Seq<bool>>)
    requires
        prev.len() > 0,
        is_rectangular(prev),
        next_world_2d(ConwayRule { wrapping }, prev, next),
    ensures
        next == conway_next(prev, wrapping),
{
    let rule = ConwayRule { wrapping };
    let expected = conway_next(prev, wrapping);
    assert forall|i: int| 0 <= i < prev.len() implies next[i] == expected[i] by {
        assert(prev[i].len() == prev[0].len());
        assert forall|j: int| 0 <= j < next[i].len() implies next[i][j] == expected[i][j] by {
            assert(next_cell_2d(rule, prev, i, j, next[i][j]));
            let read = choose|read: Neighbors2d<bool, 3, 3>|
                #[trigger] rule.reads(prev, i, j, read) && cell_from_2d(rule, prev, i, j, read, next[i][j]);
        }
        assert(next[i] =~= expected[i]);
    }
    assert(next =~= expected);
}

/// Builds a Game of Life automaton; fails exactly when the world is empty or
/// its rows differ in length.
#[allow(non_snake_case)]
pub fn ConwayCellularAutomaton(world: Vec<Vec<bool>>, wrapping: bool) -> (r: Result<
    CellularAutomaton2d<bool, 3, 3, ConwayRule>,
    CellularAutomatonWorldSizeError,
>)
    ensures
        !world_fits(grid_view(world@), 1, 1) <==> r is Err,
        r matches Ok(ca) ==> {
            &&& ca.cells() == grid_view(world@)
            &&& ca.spec_rule() == (ConwayRule { wrapping })
            &&& ca.spec_generation() == 0
        },
{
    CellularAutomaton2d::new(world, ConwayRule { wrapping })
}

} // verus!
