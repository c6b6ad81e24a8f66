//! Wall creation outside the tick pipeline: the one-shot boundary generator
//! and the periodic rejection-sampling wall spawner.

use vstd::prelude::*;

use crate::grid::{ARENA_WIDTH, ARENA_HEIGHT, Position, in_bounds};
use crate::world::{World, wall_cells, lemma_wall_cells_push, lemma_distinct_push};

verus! {

/// How many random cells one spawner invocation may try before giving up.
/// The cap makes the spawner total on a saturated board, where it degrades
/// to a no-op instead of looping forever.
pub const SPAWN_ATTEMPT_CAP: u32 = 128;

/// A coordinate pair lies on the outer ring of the arena.
pub open spec fn on_boundary(c: (int, int)) -> bool {
    in_bounds(c) && (c.0 == 0 || c.0 == ARENA_WIDTH - 1 || c.1 == 0 || c.1 == ARENA_HEIGHT - 1)
}

/// Relies on rand::random: draws a value of any type that rand's `Standard`
/// distribution covers. Nothing is promised of the result.
pub assume_specification<T>[ rand::random::<T> ]() -> (r: T)
    where
        rand::distributions::Standard: rand::distributions::Distribution<T>,
;

impl World {
    /// The boundary generator: run once on an empty board, it walls exactly
    /// the outer ring of the arena — `2*WIDTH + 2*(HEIGHT-2)` walls, no
    /// duplicates, no interior cells. The player is untouched.
    pub fn spawn_boundaries(&mut self)
        requires
            old(self).walls@.len() == 0,
        ensures
            final(self).wf(),
            final(self).player == old(self).player,
            forall|c: (int, int)| final(self)@.walls.contains(c) <==> on_boundary(c),
            final(self).walls@.len() == 2 * ARENA_WIDTH + 2 * (ARENA_HEIGHT - 2),
    {
        let mut x: u32 = 0;
        while x < ARENA_WIDTH
            invariant
                x <= ARENA_WIDTH,
                self.player == old(self).player,
                self.wf(),
                self.walls@.len() == 2 * x,
                forall|c: (int, int)| self@.walls.contains(c)
                    <==> 0 <= c.0 < x && (c.1 == 0 || c.1 == ARENA_HEIGHT - 1),
            decreases ARENA_WIDTH - x,
        {
            let low = Position { x: x as i32, y: 0 };
            let high = Position { x: x as i32, y: ARENA_HEIGHT as i32 - 1 };
            proof {
                assert(!self@.walls.contains((low.x as int, low.y as int)));
                lemma_distinct_push(self.walls@, low);
                lemma_wall_cells_push(self.walls@, low);
                assert(!wall_cells(self.walls@.push(low)).contains((
                    high.x as int,
                    high.y as int,
                )));
                lemma_distinct_push(self.walls@.push(low), high);
                lemma_wall_cells_push(self.walls@.push(low), high);
            }
            self.walls.push(low);
            self.walls.push(high);
            x += 1;
            proof {
                assert forall|c: (int, int)| self@.walls.contains(c)
                    implies 0 <= c.0 < x && (c.1 == 0 || c.1 == ARENA_HEIGHT - 1) by {}
            }
        }
        let mut y: u32 = 1;
        while y < ARENA_HEIGHT - 1
            invariant
                1 <= y <= ARENA_HEIGHT - 1,
                self.player == old(self).player,
                self.wf(),
                self.walls@.len() == 2 * ARENA_WIDTH + 2 * (y - 1),
                forall|c: (int, int)| self@.walls.contains(c)
                    <==> (0 <= c.0 < ARENA_WIDTH && (c.1 == 0 || c.1 == ARENA_HEIGHT - 1))
                        || ((c.0 == 0 || c.0 == ARENA_WIDTH - 1) && 1 <= c.1 < y),
            decreases ARENA_HEIGHT - y,
        {
            let west = Position { x: 0, y: y as i32 };
            let east = Position { x: ARENA_WIDTH as i32 - 1, y: y as i32 };
            proof {
                assert(!self@.walls.contains((west.x as int, west.y as int)));
                lemma_distinct_push(self.walls@, west);
                lemma_wall_cells_push(self.walls@, west);
                assert(!wall_cells(self.walls@.push(west)).contains((
                    east.x as int,
                    east.y as int,
                )));
                lemma_distinct_push(self.walls@.push(west), east);
                lemma_wall_cells_push(self.walls@.push(west), east);
            }
            self.walls.push(west);
            self.walls.push(east);
            y += 1;
        }
    }

    /// Place a wall on the cell `pos` if doing so is legal: the cell must
    /// lie inside the arena and be free of the player and of every existing
    /// wall. Returns whether a wall was placed; on refusal the world is
    /// unchanged. Deterministic, so tests can drive the spawner's placement
    /// rule with chosen cells.
    pub fn try_spawn_wall_at(&mut self, pos: Position) -> (placed: bool)
        requires
            old(self).wf(),
        ensures
            final(self).wf(),
            final(self).player == old(self).player,
            placed <==> (in_bounds((pos.x as int, pos.y as int))
                && pos != old(self).player.position
                && !old(self)@.walls.contains((pos.x as int, pos.y as int))),
            placed ==> final(self).walls@ == old(self).walls@.push(pos)
                && final(self)@.walls == old(self)@.walls.insert((pos.x as int, pos.y as int)),
            !placed ==> *final(self) == *old(self),
    {
        if pos.x < 0 || pos.x >= ARENA_WIDTH as i32 || pos.y < 0 || pos.y >= ARENA_HEIGHT as i32 {
            return false;
        }
        if pos.x == self.player.position.x && pos.y == self.player.position.y {
            return false;
        }
        if self.has_wall_at(pos) {
            return false;
        }
        proof {
            lemma_distinct_push(self.walls@, pos);
            lemma_wall_cells_push(self.walls@, pos);
        }
        self.walls.push(pos);
        true
    }

    /// The wall spawner: draw uniformly random cells of the arena and place
    /// one wall on the first that is free of the player and of every
    /// existing wall. Whatever the randomness yields, the new wall (if any)
    /// sits on a cell that was free and inside the arena; after
    /// [`SPAWN_ATTEMPT_CAP`] occupied draws the invocation is a no-op.
    pub fn spawn_walls(&mut self)
        requires
            old(self).wf(),
        ensures
            final(self).wf(),
            final(self).player == old(self).player,
            *final(self) == *old(self) || (exists|p: Position|
                #![auto]
                in_bounds((p.x as int, p.y as int))
                && p != old(self).player.position
                && !old(self)@.walls.contains((p.x as int, p.y as int))
                && final(self).walls@ == old(self).walls@.push(p)),
    {
        let mut attempts: u32 = 0;
        while attempts < SPAWN_ATTEMPT_CAP
            invariant
                self.wf(),
                *self == *old(self),
            decreases SPAWN_ATTEMPT_CAP - attempts,
        {
            let rx: u32 = rand::random();
            let ry: u32 = rand::random();
            let candidate = Position {
                x: (rx % ARENA_WIDTH) as i32,
                y: (ry % ARENA_HEIGHT) as i32,
            };
            if self.try_spawn_wall_at(candidate) {
                return;
            }
            attempts += 1;
        }
    }
}

} // verus!
