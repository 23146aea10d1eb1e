use vstd::prelude::*;

use crate::automaton::{CellularAutomaton, CellularAutomatonWorldSizeError};

verus! {

/// What a one-dimensional rule reads around a position: a window of cells, or
/// the marker that the position has no window and keeps its value.
pub enum Neighbors1d<T, const WIDTH: usize> {
    Neighborhood([T; WIDTH]),
    Edge,
}

/// A local rule over a line of cells: how to read the window around a
/// position, and how a window gives the next value of that position.
///
/// `reads` and `evolves_to` state what the two methods return. A rule that
/// does not define them promises nothing about its results.
pub trait Rule1d<T, const WIDTH: usize> {
    /// `r` is what `neighbors` returns for position `i` of `world`.
    open spec fn reads(&self, world: Seq<T>, i: int, r: Neighbors1d<T, WIDTH>) -> bool {
        true
    }

    /// `cell` is what `evolve` returns for `window`.
    open spec fn evolves_to(&self, window: [T; WIDTH], cell: T) -> bool {
        true
    }

    fn neighbors(&self, world: &[T], i: usize) -> (r: Neighbors1d<T, WIDTH>)
        requires
            i < world@.len(),
            WIDTH <= world@.len(),
        ensures
            self.reads(world@, i as int, r),
    ;

    fn evolve(&self, window: [T; WIDTH]) -> (r: T)
        ensures
            self.evolves_to(window, r),
    ;
}

/// `cell` follows from what the rule read at position `i`: the rule's
/// verdict on a window, or a clone of the old value at an edge.
pub open spec fn cell_from_1d<T: Clone, const WIDTH: usize, R: Rule1d<T, WIDTH>>(
    rule: R,
    prev: Seq<T>,
    i: int,
    read: Neighbors1d<T, WIDTH>,
    cell: T,
) -> bool {
    match read {
        Neighbors1d::Neighborhood(window) => rule.evolves_to(window, cell),
        Neighbors1d::Edge => cloned(prev[i], cell),
    }
}

/// `cell` is a value that position `i` may take after one step from `prev`.
pub open spec fn next_cell_1d<T: Clone, const WIDTH: usize, R: Rule1d<T, WIDTH>>(
    rule: R,
    prev: Seq<T>,
    i: int,
    cell: T,
) -> bool {
    exists|read: Neighbors1d<T, WIDTH>|
        #[trigger] rule.reads(prev, i, read) && cell_from_1d(rule, prev, i, read, cell)
}

/// `next` is one synchronous update of `prev` under `rule`.
pub open spec fn next_world_1d<T: Clone, const WIDTH: usize, R: Rule1d<T, WIDTH>>(
    rule: R,
    prev: Seq<T>,
    next: Seq<T>,
) -> bool {
    &&& next.len() == prev.len()
    &&& forall|i: int| 0 <= i < prev.len() ==> next_cell_1d(rule, prev, i, #[trigger] next[i])
}

/// An engine over a line of cells, driven by a rule that reads windows of
/// `WIDTH` cells.
pub struct CellularAutomaton1d<T: Clone, const WIDTH: usize, R: Rule1d<T, WIDTH>> {
    world: Vec<T>,
    generation: usize,
    rule: R,
}

impl<T: Clone, const WIDTH: usize, R: Rule1d<T, WIDTH>> CellularAutomaton1d<T, WIDTH, R> {
    pub closed spec fn cells(&self) -> Seq<T> {
        self.world@
    }

    pub closed spec fn spec_rule(&self) -> R {
        self.rule
    }

    pub closed spec fn spec_generation(&self) -> nat {
        self.generation as nat
    }

    /// Fails exactly when the world is shorter than the window.
    pub fn new(world: Vec<T>, rule: R) -> (r: Result<Self, CellularAutomatonWorldSizeError>)
        ensures
            world@.len() < WIDTH <==> r is Err,
            r matches Ok(ca) ==> {
                &&& ca.cells() == world@
                &&& ca.spec_rule() == rule
                &&& ca.spec_generation() == 0
                &&& ca.well_formed()
            },
    {
        if world.len() < WIDTH {
            return Err(CellularAutomatonWorldSizeError);
        }
        Ok(Self { world, generation: 0, rule })
    }

    /// Number of cells in the line.
    pub fn width(&self) -> (r: usize)
        ensures
            r == self.cells().len(),
    {
        self.world.len()
    }
}

impl<T: Clone, const WIDTH: usize, R: Rule1d<T, WIDTH>> CellularAutomaton for CellularAutomaton1d<
    T,
    WIDTH,
    R,
> {
    type WorldType = Vec<T>;

    open spec fn well_formed(&self) -> bool {
        WIDTH <= self.cells().len()
    }

    open spec fn generation(&self) -> nat {
        self.spec_generation()
    }

    open spec fn shape(&self) -> Seq<usize> {
        seq![self.cells().len() as usize]
    }

    open spec fn advances_to(&self, next: &Self) -> bool {
        &&& next.spec_rule() == self.spec_rule()
        &&& next_world_1d(self.spec_rule(), self.cells(), next.cells())
    }

    open spec fn is_snapshot(&self, w: Vec<T>) -> bool {
        &&& w@.len() == self.cells().len()
        &&& forall|i: int| 0 <= i < w@.len() ==> cloned(self.cells()[i], #[trigger] w@[i])
    }

    fn step(&mut self) -> (r: usize) {
        let n = self.world.len();
        let mut next: Vec<T> = Vec::with_capacity(n);
        let mut i: usize = 0;
        while i < n
            invariant
                n == self.world@.len(),
                self.world@ == old(self).world@,
                self.rule == old(self).rule,
                self.generation == old(self).generation,
                WIDTH <= n,
                i <= n,
                next@.len() == i,
                forall|k: int| 0 <= k < i ==> next_cell_1d(self.rule, self.world@, k, #[trigger] next@[k]),
            decreases n - i,
        {
            let read = self.rule.neighbors(self.world.as_slice(), i);
            let cell = match read {
                Neighbors1d::Neighborhood(window) => self.rule.evolve(window),
                Neighbors1d::Edge => self.world[i].clone(),
            };
            assert(cell_from_1d(self.rule, self.world@, i as int, read, cell));
            next.push(cell);
            i += 1;
        }
        self.world = next;
        self.generation = self.generation + 1;
        self.generation
    }

    fn size(&self) -> (r: Vec<usize>) {
        vec![self.world.len()]
    }

    fn age(&self) -> (r: usize) {
        self.generation
    }

    fn world(&self) -> (r: Vec<T>) {
        self.world.clone()
    }
}

} // verus!
