use vstd::prelude::*;

verus! {

/// The capabilities shared by every automaton engine.
///
/// `well_formed` is what construction establishes and every step keeps;
/// `advances_to` is the exact relation between one generation and the next.
pub trait CellularAutomaton: Sized {
    type WorldType;

    spec fn well_formed(&self) -> bool;

    /// Number of generations computed so far.
    spec fn generation(&self) -> nat;

    /// Dimension lengths of the world, outermost first.
    spec fn shape(&self) -> Seq<usize>;

    /// `next` is what one synchronous update of `self` produces.
    spec fn advances_to(&self, next: &Self) -> bool;

    /// `w` is an independent copy of the current world.
    spec fn is_snapshot(&self, w: Self::WorldType) -> bool;

    /// Advances exactly one generation and returns the new generation count.
    fn step(&mut self) -> (r: usize)
        requires
            old(self).well_formed(),
            old(self).generation() < usize::MAX,
        ensures
            final(self).well_formed(),
            old(self).advances_to(&*final(self)),
            final(self).generation() == old(self).generation() + 1,
            r == final(self).generation(),
            final(self).shape() == old(self).shape(),
    ;

    fn size(&self) -> (r: Vec<usize>)
        requires
            self.well_formed(),
        ensures
            r@ == self.shape(),
    ;

    fn age(&self) -> (r: usize)
        ensures
            r == self.generation(),
    ;

    fn world(&self) -> (r: Self::WorldType)
        requires
            self.well_formed(),
        ensures
            self.is_snapshot(r),
    ;
}

/// The age counts steps: along any run of engine states that starts at
/// construction and moves by `step`, the state reached after `m` steps has
/// age `m`.
pub proof fn lemma_age_counts_steps<A: CellularAutomaton>(states: Seq<A>)
    requires
        states.len() > 0,
        states[0].generation() == 0,
        forall|m: int|
            0 <= m < states.len() - 1 ==> (#[trigger] states[m + 1]).generation() == states[m].generation() + 1,
    ensures
        forall|m: int| 0 <= m < states.len() ==> (#[trigger] states[m]).generation() == m,
    decreases states.len(),
{
    if states.len() > 1 {
        let front = states.drop_last();
        assert forall|m: int| 0 <= m < front.len() - 1 implies (#[trigger] front[m + 1]).generation()
            == front[m].generation() + 1 by {
            assert(front[m + 1] == states[m + 1] && front[m] == states[m]);
        }
        lemma_age_counts_steps(front);
        assert forall|m: int| 0 <= m < states.len() implies (#[trigger] states[m]).generation() == m by {
            if m < states.len() - 1 {
                assert(front[m] == states[m]);
            } else {
                let k = m - 1;
                assert(front[k] == states[k]);
                assert(front[k].generation() == k);
                assert(states[k + 1].generation() == states[k].generation() + 1);
            }
        }
    }
}

/// Raised when a world cannot hold the window its rule reads, or is not a
/// rectangular grid.
#[derive(Debug, Clone, Copy, PartialEq, Eq, Structural)]
pub struct CellularAutomatonWorldSizeError;

} // verus!
