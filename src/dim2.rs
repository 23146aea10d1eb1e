use vstd::prelude::*;

use crate::automaton::{CellularAutomaton, CellularAutomatonWorldSizeError};

verus! {

/// What a two-dimensional rule reads around a position: a block of cells, or
/// the marker that the position has no block and keeps its value.
pub enum Neighbors2d<T, const HEIGHT: usize, const WIDTH: usize> {
    Neighborhood([[T; WIDTH]; HEIGHT]),
    Edge,
}

/// The rows of a grid, each as a sequence of cells.
pub open spec fn grid_view<T>(g: Seq<Vec<T>>) -> Seq<Seq<T>> {
    Seq::new(g.len(), |i: int| g[i]@)
}

/// Every row has the length of the first.
pub open spec fn is_rectangular<T>(g: Seq<Seq<T>>) -> bool {
    forall|i: int| 0 <= i < g.len() ==> (#[trigger] g[i]).len() == g[0].len()
}

/// `g` is a non-empty rectangular grid that holds a block of `h` rows and `w`
/// columns.
pub open spec fn world_fits<T>(g: Seq<Seq<T>>, h: nat, w: nat) -> bool {
    &&& g.len() > 0
    &&& is_rectangular(g)
    &&& h <= g.len()
    &&& w <= g[0].len()
}

/// `g` is a non-empty rectangular grid at least as large as `rule` asks.
pub open spec fn fits_rule<T, const HEIGHT: usize, const WIDTH: usize, R: Rule2d<T, HEIGHT, WIDTH>>(
    rule: R,
    g: Seq<Seq<T>>,
) -> bool {
    world_fits(g, rule.min_shape().0, rule.min_shape().1)
}

/// A local rule over a grid: how to read the block around a position, and
/// how a block gives the next value of that position.
///
/// `reads` and `evolves_to` state what the two methods return. A rule that
/// does not define them promises nothing about its results.
pub trait Rule2d<T, const HEIGHT: usize, const WIDTH: usize> {
    /// `r` is what `neighbors` returns for row `i`, column `j` of `world`.
    open spec fn reads(&self, world: Seq<Seq<T>>, i: int, j: int, r: Neighbors2d<T, HEIGHT, WIDTH>) -> bool {
        true
    }

    /// `cell` is what `evolve` returns for `window`.
    open spec fn evolves_to(&self, window: [[T; WIDTH]; HEIGHT], cell: T) -> bool {
        true
    }

    /// Rows and columns that a grid needs at least for the rule to read it:
    /// the block's own dimensions unless the rule says otherwise.
    open spec fn min_shape(&self) -> (nat, nat) {
        (HEIGHT as nat, WIDTH as nat)
    }

    fn min_size(&self) -> (r: (usize, usize))
        ensures
            r.0 as nat == self.min_shape().0,
            r.1 as nat == self.min_shape().1,
    ;

    fn neighbors(&self, world: &Vec<Vec<T>>, i: usize, j: usize) -> (r: Neighbors2d<T, HEIGHT, WIDTH>)
        requires
            world_fits(grid_view(world@), self.min_shape().0, self.min_shape().1),
            i < world@.len(),
            j < world@[0]@.len(),
        ensures
            self.reads(grid_view(world@), i as int, j as int, r),
    ;

    fn evolve(&self, window: [[T; WIDTH]; HEIGHT]) -> (r: T)
        ensures
            self.evolves_to(window, r),
    ;
}

/// `cell` follows from what the rule read at `(i, j)`: the rule's verdict on
/// a block, or a clone of the old value at an edge.
pub open spec fn cell_from_2d<T: Clone, const HEIGHT: usize, const WIDTH: usize, R: Rule2d<T, HEIGHT, WIDTH>>(
    rule: R,
    prev: Seq<Seq<T>>,
    i: int,
    j: int,
    read: Neighbors2d<T, HEIGHT, WIDTH>,
    cell: T,
) -> bool {
    match read {
        Neighbors2d::Neighborhood(window) => rule.evolves_to(window, cell),
        Neighbors2d::Edge => cloned(prev[i][j], cell),
    }
}

/// `cell` is a value that position `(i, j)` may take after one step from
/// `prev`.
pub open spec fn next_cell_2d<T: Clone, const HEIGHT: usize, const WIDTH: usize, R: Rule2d<T, HEIGHT, WIDTH>>(
    rule: R,
    prev: Seq<Seq<T>>,
    i: int,
    j: int,
    cell: T,
) -> bool {
    exists|read: Neighbors2d<T, HEIGHT, WIDTH>|
        #[trigger] rule.reads(prev, i, j, read) && cell_from_2d(rule, prev, i, j, read, cell)
}

/// `next` is one synchronous update of `prev` under `rule`.
pub open spec fn next_world_2d<T: Clone, const HEIGHT: usize, const WIDTH: usize, R: Rule2d<T, HEIGHT, WIDTH>>(
    rule: R,
    prev: Seq<Seq<T>>,
    next: Seq<Seq<T>>,
) -> bool {
    &&& next.len() == prev.len()
    &&& forall|i: int| 0 <= i < prev.len() ==> (#[trigger] next[i]).len() == prev[i].len()
    &&& forall|i: int, j: int|
        0 <= i < prev.len() && 0 <= j < prev[i].len() ==> next_cell_2d(rule, prev, i, j, #[trigger] next[i][j])
}

/// An engine over a rectangular grid, driven by a rule that reads blocks of
/// `HEIGHT` rows and `WIDTH` columns.
pub struct CellularAutomaton2d<T: Clone, const HEIGHT: usize, const WIDTH: usize, R: Rule2d<T, HEIGHT, WIDTH>> {
    world: Vec<Vec<T>>,
    generation: usize,
    rule: R,
}

impl<T: Clone, const HEIGHT: usize, const WIDTH: usize, R: Rule2d<T, HEIGHT, WIDTH>> CellularAutomaton2d<T, HEIGHT, WIDTH, R> {
    pub closed spec fn cells(&self) -> Seq<Seq<T>> {
        grid_view(self.world@)
    }

    pub closed spec fn spec_rule(&self) -> R {
        self.rule
    }

    pub closed spec fn spec_generation(&self) -> nat {
        self.generation as nat
    }

    /// Fails exactly when the world is empty, has rows of different lengths,
    /// or has fewer rows or columns than the rule's minimum.
    pub fn new(world: Vec<Vec<T>>, rule: R) -> (r: Result<Self, CellularAutomatonWorldSizeError>)
        ensures
            !fits_rule(rule, grid_view(world@)) <==> r is Err,
            r matches Ok(ca) ==> {
                &&& ca.cells() == grid_view(world@)
                &&& ca.spec_rule() == rule
                &&& ca.spec_generation() == 0
                &&& ca.well_formed()
            },
    {
        let (min_rows, min_cols) = rule.min_size();
        let height = world.len();
        if height == 0 || height < min_rows {
            return Err(CellularAutomatonWorldSizeError);
        }
        let width = world[0].len();
        if width < min_cols {
            return Err(CellularAutomatonWorldSizeError);
        }
        let mut i: usize = 0;
        while i < height
            invariant
                height == world@.len(),
                height > 0,
                min_rows as nat == rule.min_shape().0,
                min_cols as nat == rule.min_shape().1,
                min_rows <= height,
                min_cols <= width,
                width == world@[0]@.len(),
                i <= height,
                forall|k: int| 0 <= k < i ==> (#[trigger] world@[k])@.len() == width,
            decreases height - i,
        {
            if world[i].len() != width {
                assert(grid_view(world@)[i as int].len() != grid_view(world@)[0].len());
                return Err(CellularAutomatonWorldSizeError);
            }
            i += 1;
        }
        assert(is_rectangular(grid_view(world@)));
        Ok(Self { world, generation: 0, rule })
    }
}

impl<T: Clone, const HEIGHT: usize, const WIDTH: usize, R: Rule2d<T, HEIGHT, WIDTH>> CellularAutomaton for CellularAutomaton2d<
    T,
    HEIGHT,
    WIDTH,
    R,
> {
    type WorldType = Vec<Vec<T>>;

    open spec fn well_formed(&self) -> bool {
        fits_rule(self.spec_rule(), self.cells())
    }

    open spec fn generation(&self) -> nat {
        self.spec_generation()
    }

    open spec fn shape(&self) -> Seq<usize> {
        seq![self.cells().len() as usize, self.cells()[0].len() as usize]
    }

    open spec fn advances_to(&self, next: &Self) -> bool {
        &&& next.spec_rule() == self.spec_rule()
        &&& next_world_2d(self.spec_rule(), self.cells(), next.cells())
    }

    open spec fn is_snapshot(&self, w: Vec<Vec<T>>) -> bool {
        &&& w@.len() == self.cells().len()
        &&& forall|i: int| 0 <= i < w@.len() ==> (#[trigger] w@[i])@.len() == self.cells()[i].len()
        &&& forall|i: int, j: int|
            0 <= i < w@.len() && 0 <= j < self.cells()[i].len() ==> cloned(self.cells()[i][j], #[trigger] w@[i]@[j])
    }

    fn step(&mut self) -> (r: usize) {
        let height = self.world.len();
        let width = self.world[0].len();
        let ghost prev = grid_view(self.world@);
        let mut next: Vec<Vec<T>> = Vec::with_capacity(height);
        let mut i: usize = 0;
        while i < height
            invariant
                self.world@ == old(self).world@,
                self.rule == old(self).rule,
                self.generation == old(self).generation,
                prev == grid_view(self.world@),
                fits_rule(self.rule, prev),
                height == prev.len(),
                width == prev[0].len(),
                i <= height,
                next@.len() == i,
                forall|k: int| 0 <= k < i ==> (#[trigger] next@[k])@.len() == width,
                forall|k: int, j: int|
                    0 <= k < i && 0 <= j < width ==> next_cell_2d(self.rule, prev, k, j, #[trigger] next@[k]@[j]),
            decreases height - i,
        {
            let mut row: Vec<T> = Vec::with_capacity(width);
            let mut j: usize = 0;
            assert(prev[i as int].len() == width);
            while j < width
                invariant
                    self.world@ == old(self).world@,
                    prev == grid_view(self.world@),
                    fits_rule(self.rule, prev),
                    height == prev.len(),
                    width == prev[0].len(),
                    i < height,
                    prev[i as int].len() == width,
                    j <= width,
                    row@.len() == j,
                    forall|l: int| 0 <= l < j ==> next_cell_2d(self.rule, prev, i as int, l, #[trigger] row@[l]),
                decreases width - j,
            {
                let read = self.rule.neighbors(&self.world, i, j);
                let cell = match read {
                    Neighbors2d::Neighborhood(window) => self.rule.evolve(window),
                    Neighbors2d::Edge => self.world[i][j].clone(),
                };
                assert(cell_from_2d(self.rule, prev, i as int, j as int, read, cell));
                row.push(cell);
                j += 1;
            }
            next.push(row);
            i += 1;
        }
        self.world = next;
        self.generation = self.generation + 1;
        assert(forall|k: int| 0 <= k < height ==> (#[trigger] self.cells()[k]).len() == prev[k].len());
        self.generation
    }

    fn size(&self) -> (r: Vec<usize>) {
        vec![self.world.len(), self.world[0].len()]
    }

    fn age(&self) -> (r: usize) {
        self.generation
    }

    fn world(&self) -> (r: Vec<Vec<T>>) {
        let height = self.world.len();
        let mut out: Vec<Vec<T>> = Vec::with_capacity(height);
        let mut i: usize = 0;
        while i < height
            invariant
                height == self.world@.len(),
                i <= height,
                out@.len() == i,
                forall|k: int| 0 <= k < i ==> (#[trigger] out@[k])@.len() == self.world@[k]@.len(),
                forall|k: int, j: int|
                    0 <= k < i && 0 <= j < self.world@[k]@.len() ==> cloned(self.world@[k]@[j], #[trigger] out@[k]@[j]),
            decreases height - i,
        {
            out.push(self.world[i].clone());
            i += 1;
        }
        out
    }
}

} // verus!
