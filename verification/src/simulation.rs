use vstd::prelude::*;

use crate::generation::Generation;
use crate::generation::lemma_grid_size_bound;
use crate::generation::lemma_position_in_range;
use crate::ruleset::Ruleset;
use crate::ruleset::spec_should_live;

verus! {

/// Relies on rand::random::<bool>: draws one boolean from the thread-local
/// generator. Nothing is promised of the outcome.
#[verifier::external_body]
fn random_bool() -> bool {
    rand::random()
}

/// The double-buffered simulation driver: it owns the committed generation
/// (`current`) and a scratch buffer (`next`) of the same dimensions. Each
/// tick fills `next` from `current` under the ruleset, then the two buffers
/// exchange roles in place of any copy.
pub struct Simulation {
    /// The latest committed generation.
    pub current: Generation,

    /// The buffer the next tick writes into.
    pub next: Generation,
}

impl Simulation {
    /// Well-formed: both buffers are well-formed grids of identical
    /// dimensions. Construction establishes this and every tick keeps it.
    pub open spec fn wf(&self) -> bool {
        &&& self.current.wf()
        &&& self.next.wf()
        &&& self.next.width == self.current.width
        &&& self.next.height == self.current.height
    }

    /// Creates a simulation whose two buffers hold `width * height` dead
    /// cells each. Building both buffers from one pair of dimensions is what
    /// rules mismatched buffer sizes out from the start.
    pub fn new(width: u16, height: u16) -> (sim: Self)
        ensures
            sim.wf(),
            sim.current.width == width,
            sim.current.height == height,
            forall|x: int, y: int| sim.current.in_bounds(x, y) ==> !sim.current.alive_at(x, y),
            forall|x: int, y: int| sim.next.in_bounds(x, y) ==> !sim.next.alive_at(x, y),
    {
        Simulation { current: Generation::new(width, height), next: Generation::new(width, height) }
    }

    /// One tick: decides every coordinate of `current` under the ruleset,
    /// writes the outcomes into `next`, then swaps the two buffers' roles.
    /// All reads of `current` are complete before the swap, so neighbor
    /// counts never mix the two generations. Afterwards `current` holds the
    /// freshly computed generation, and `next` is exactly the generation that
    /// was `current` before the call: the roles exchanged, nothing was copied.
    pub fn advance(&mut self)
        requires
            old(self).wf(),
        ensures
            final(self).wf(),
            final(self).current.width == old(self).current.width,
            final(self).current.height == old(self).current.height,
            final(self).next == old(self).current,
            forall|x: int, y: int|
                old(self).current.in_bounds(x, y) ==> (final(self).current.alive_at(x, y)
                    <==> spec_should_live(old(self).current, x, y)),
    {
        let width: u16 = self.current.width;
        let height: u16 = self.current.height;
        let mut y: u16 = 0;
        while y < height
            invariant
                self.current == old(self).current,
                self.current.wf(),
                width == self.current.width,
                height == self.current.height,
                self.next.wf(),
                self.next.width == width,
                self.next.height == height,
                y <= height,
                forall|i: int, j: int|
                    0 <= i < width && 0 <= j < y ==> (self.next.alive_at(i, j)
                        <==> spec_should_live(self.current, i, j)),
            decreases height - y,
        {
            let mut x: u16 = 0;
            while x < width
                invariant
                    self.current == old(self).current,
                    self.current.wf(),
                    width == self.current.width,
                    height == self.current.height,
                    self.next.wf(),
                    self.next.width == width,
                    self.next.height == height,
                    x <= width,
                    y < height,
                    forall|i: int, j: int|
                        0 <= i < width && 0 <= j < y ==> (self.next.alive_at(i, j)
                            <==> spec_should_live(self.current, i, j)),
                    forall|i: int|
                        0 <= i < x ==> (self.next.alive_at(i, y as int)
                            <==> spec_should_live(self.current, i, y as int)),
                decreases width - x,
            {
                let live: bool = Ruleset::should_live(x, y, &self.current);
                self.next.set_alive(x, y, live);
                x = x + 1;
            }
            y = y + 1;
        }
        core::mem::swap(&mut self.current, &mut self.next);
    }

    /// Seeds `current` from an injected sequence of booleans laid out
    /// row-major like the grid itself: the cell at `(x, y)` is set alive
    /// exactly when `bits[y * width + x]` holds. Deterministic, so a fixed
    /// source gives a reproducible first generation; `next` is untouched.
    pub fn seed(&mut self, bits: &Vec<bool>)
        requires
            old(self).wf(),
            bits@.len() == old(self).current.width * old(self).current.height,
        ensures
            final(self).wf(),
            final(self).current.width == old(self).current.width,
            final(self).current.height == old(self).current.height,
            final(self).next == old(self).next,
            forall|x: int, y: int|
                old(self).current.in_bounds(x, y) ==> (final(self).current.alive_at(x, y)
                    <==> bits@[y * old(self).current.width + x]),
    {
        let width: u16 = self.current.width;
        let height: u16 = self.current.height;
        let mut y: u16 = 0;
        while y < height
            invariant
                self.current.wf(),
                width == self.current.width,
                height == self.current.height,
                self.next == old(self).next,
                self.next.wf(),
                self.next.width == width,
                self.next.height == height,
                y <= height,
                bits@.len() == width * height,
                forall|i: int, j: int|
                    0 <= i < width && 0 <= j < y ==> (self.current.alive_at(i, j)
                        <==> bits@[j * width + i]),
            decreases height - y,
        {
            let mut x: u16 = 0;
            while x < width
                invariant
                    self.current.wf(),
                    width == self.current.width,
                    height == self.current.height,
                    self.next == old(self).next,
                    self.next.wf(),
                    self.next.width == width,
                    self.next.height == height,
                    x <= width,
                    y < height,
                    bits@.len() == width * height,
                    forall|i: int, j: int|
                        0 <= i < width && 0 <= j < y ==> (self.current.alive_at(i, j)
                            <==> bits@[j * width + i]),
                    forall|i: int|
                        0 <= i < x ==> (self.current.alive_at(i, y as int)
                            <==> bits@[y * width + i]),
                decreases width - x,
            {
                proof {
                    lemma_grid_size_bound(width as int, height as int);
                    lemma_position_in_range(width as int, height as int, x as int, y as int);
                }
                let position: usize = (y as usize) * (width as usize) + (x as usize);
                let live: bool = bits[position];
                self.current.set_alive(x, y, live);
                x = x + 1;
            }
            y = y + 1;
        }
    }

    /// Seeds `current` at random: one boolean is drawn per cell, in the same
    /// row-major order the grid is laid out in, and handed to [`Self::seed`].
    /// A one-time setup step; `next` is left untouched, and the dimensions of
    /// both buffers stay as they were, whatever the draws give.
    pub fn randomize(&mut self)
        requires
            old(self).wf(),
        ensures
            final(self).wf(),
            final(self).current.width == old(self).current.width,
            final(self).current.height == old(self).current.height,
            final(self).next == old(self).next,
    {
        proof {
            lemma_grid_size_bound(self.current.width as int, self.current.height as int);
        }
        let size: usize = (self.current.width as usize) * (self.current.height as usize);
        let mut bits: Vec<bool> = Vec::new();
        let mut i: usize = 0;
        while i < size
            invariant
                i <= size,
                bits@.len() == i,
            decreases size - i,
        {
            bits.push(random_bool());
            i = i + 1;
        }
        self.seed(&bits);
    }
}

} // verus!

