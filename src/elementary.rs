use vstd::prelude::*;

use crate::automaton::CellularAutomatonWorldSizeError;
use crate::dim1::{cell_from_1d, next_cell_1d, next_world_1d, CellularAutomaton1d, Neighbors1d, Rule1d};

verus! {

/// Position of a three-cell window in a Wolfram rule code: the left cell is
/// the most significant bit.
pub open spec fn window_index(left: bool, center: bool, right: bool) -> u8 {
    ((if left { 4u8 } else { 0u8 }) + (if center { 2u8 } else { 0u8 }) + (if right { 1u8 } else { 0u8 })) as u8
}

/// Bit `index` of `pattern`, bit 0 being the least significant.
pub open spec fn rule_bit(pattern: u8, index: u8) -> bool {
    (pattern >> index) & 1u8 == 1u8
}

/// One generation of the elementary automaton with rule code `pattern`: the
/// first and last cells keep their values, every other cell takes the rule's
/// bit for the window centred on it.
pub open spec fn elementary_next(pattern: u8, w: Seq<bool>) -> Seq<bool> {
    Seq::new(
        w.len(),
        |i: int|
            if 1 <= i && i + 1 < w.len() {
                rule_bit(pattern, window_index(w[i - 1], w[i], w[i + 1]))
            } else {
                w[i]
            },
    )
}

/// The three cells centred on `i`, or the edge marker at the first and last
/// position.
pub open spec fn elementary_window(world: Seq<bool>, i: int) -> Neighbors1d<bool, 3> {
    if 1 <= i && i + 1 < world.len() {
        Neighbors1d::Neighborhood([world[i - 1], world[i], world[i + 1]])
    } else {
        Neighbors1d::Edge
    }
}

/// The elementary rule with a given Wolfram code: windows of three
/// consecutive cells, and no window at the first and last position.
#[derive(Clone, Copy, Debug, PartialEq, Eq, Structural)]
pub struct ElementaryRule {
    pub pattern: u8,
}

impl Rule1d<bool, 3> for ElementaryRule {
    open spec fn reads(&self, world: Seq<bool>, i: int, r: Neighbors1d<bool, 3>) -> bool {
        r == elementary_window(world, i)
    }

    open spec fn evolves_to(&self, window: [bool; 3], cell: bool) -> bool {
        cell == rule_bit(self.pattern, window_index(window@[0], window@[1], window@[2]))
    }

    fn neighbors(&self, world: &[bool], i: usize) -> (r: Neighbors1d<bool, 3>) {
        if i < 1 || i >= world.len() - 1 {
            return Neighbors1d::Edge;
        }
        Neighbors1d::Neighborhood([world[i - 1], world[i], world[i + 1]])
    }

    fn evolve(&self, window: [bool; 3]) -> (r: bool) {
        let mut index: u8 = 0;
        if window[0] {
            index = index + 4;
        }
        if window[1] {
            index = index + 2;
        }
        if window[2] {
            index = index + 1;
        }
        let bits = self.pattern >> index;
        assert(bits & 1u8 != 0u8 <==> bits & 1u8 == 1u8) by (bit_vector);
        bits & 1 != 0
    }
}

/// One step of an engine under an elementary rule yields exactly
/// `elementary_next` of the previous world.
pub proof fn lemma_elementary_step(pattern: u8, prev: Seq<bool>, next: Seq<bool>)
    requires
        next_world_1d(ElementaryRule { pattern }, prev, next),
    ensures
        next == elementary_next(pattern, prev),
{
    let rule = ElementaryRule { pattern };
    assert forall|i: int| 0 <= i < prev.len() implies next[i] == elementary_next(pattern, prev)[i] by {
        assert(next_cell_1d(rule, prev, i, next[i]));
        let read = choose|read: Neighbors1d<bool, 3>|
            #[trigger] rule.reads(prev, i, read) && cell_from_1d(rule, prev, i, read, next[i]);
    }
    assert(next =~= elementary_next(pattern, prev));
}

/// A step under an elementary rule leaves the first and last cells as they
/// were.
pub proof fn lemma_step_keeps_boundary(pattern: u8, prev: Seq<bool>, next: Seq<bool>)
    requires
        prev.len() > 0,
        next_world_1d(ElementaryRule { pattern }, prev, next),
    ensures
        next[0] == prev[0],
        next[prev.len() - 1] == prev[prev.len() - 1],
{
    lemma_elementary_step(pattern, prev, next);
}

/// Without wrap-around the first and last cells never change: along any
/// run of engine steps under an elementary rule, every world has the length
/// of the first and the same first and last cells.
pub proof fn lemma_boundary_cells_fixed(pattern: u8, worlds: Seq<Seq<bool>>)
    requires
        worlds.len() > 0,
        worlds[0].len() > 0,
        forall|m: int|
            0 <= m < worlds.len() - 1 ==> next_world_1d(ElementaryRule { pattern }, #[trigger] worlds[m], worlds[m + 1]),
    ensures
        forall|m: int|
            0 <= m < worlds.len() ==> {
                &&& (#[trigger] worlds[m]).len() == worlds[0].len()
                &&& worlds[m][0] == worlds[0][0]
                &&& worlds[m][worlds[0].len() - 1] == worlds[0][worlds[0].len() - 1]
            },
    decreases worlds.len(),
{
    if worlds.len() > 1 {
        let front = worlds.drop_last();
        assert forall|m: int| 0 <= m < front.len() - 1 implies next_world_1d(
            ElementaryRule { pattern },
            #[trigger] front[m],
            front[m + 1],
        ) by {
            assert(front[m] == worlds[m] && front[m + 1] == worlds[m + 1]);
        }
        lemma_boundary_cells_fixed(pattern, front);
        let last = worlds.len() - 1;
        assert(front[last - 1] == worlds[last - 1]);
        lemma_step_keeps_boundary(pattern, worlds[last - 1], worlds[last]);
        assert forall|m: int| 0 <= m < worlds.len() implies {
            &&& (#[trigger] worlds[m]).len() == worlds[0].len()
            &&& worlds[m][0] == worlds[0][0]
            &&& worlds[m][worlds[0].len() - 1] == worlds[0][worlds[0].len() - 1]
        } by {
            if m < last {
                assert(front[m] == worlds[m]);
            }
        }
    }
}

/// Builds an elementary automaton with Wolfram rule code `pattern`; fails
/// exactly when the world has fewer than three cells.
#[allow(non_snake_case)]
pub fn ElementaryCellularAutomaton(world: Vec<bool>, pattern: u8) -> (r: Result<
    CellularAutomaton1d<bool, 3, ElementaryRule>,
    CellularAutomatonWorldSizeError,
>)
    ensures
        world@.len() < 3 <==> r is Err,
        r matches Ok(ca) ==> {
            &&& ca.cells() == world@
            &&& ca.spec_rule() == (ElementaryRule { pattern })
            &&& ca.spec_generation() == 0
        },
{
    CellularAutomaton1d::new(world, ElementaryRule { pattern })
}

} // verus!
