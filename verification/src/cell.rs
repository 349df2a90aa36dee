use vstd::prelude::*;

verus! {

/// Represents the state of a Cell.
#[derive(Debug, Clone, PartialEq, Eq, Structural)]
enum State {
    Alive,
    Dead,
}

/// Represents a cell: a two-state unit that is always either alive or dead.
#[derive(Debug, Clone, PartialEq, Eq, Structural)]
pub struct Cell {
    state: State,
}

impl Cell {
    /// True iff the cell is alive. This is the cell's whole observable state.
    pub closed spec fn spec_alive(&self) -> bool {
        self.state == State::Alive
    }

    /// Returns if the Cell is alive.
    pub fn is_alive(&self) -> (alive: bool)
        ensures
            alive == self.spec_alive(),
    {
        self.state == State::Alive
    }

    /// Sets the cell alive. The new state does not depend on the old one, so
    /// a second call in a row changes nothing.
    pub fn spawn(&mut self)
        ensures
            final(self).spec_alive(),
    {
        self.state = State::Alive;
    }

    /// Sets the cell dead. The new state does not depend on the old one, so
    /// a second call in a row changes nothing.
    pub fn kill(&mut self)
        ensures
            !final(self).spec_alive(),
    {
        self.state = State::Dead;
    }
}

impl Default for Cell {
    /// A cell is created dead.
    fn default() -> (cell: Self)
        ensures
            !cell.spec_alive(),
    {
        Cell { state: State::Dead }
    }
}

} // verus!
