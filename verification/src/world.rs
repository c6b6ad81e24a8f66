//! The game state: the player record, the wall store, and the mathematical
//! view that all contracts are stated over.

use vstd::prelude::*;

use crate::grid::{Position, Direction};

verus! {

/// The player's committed intent for the current tick.
#[derive(PartialEq, Eq, Structural, Clone, Copy, Debug)]
pub enum Action {
    Idle,
    Move,
    Dig,
    Build,
}

/// The single controllable actor.
#[derive(PartialEq, Eq, Structural, Clone, Copy, Debug)]
pub struct Player {
    /// Cell the player stands on.
    pub position: Position,
    /// Last non-idle direction pressed; persists across ticks.
    pub facing: Direction,
    /// Intent for the current tick; reset to `Idle` once executed or rejected.
    pub action: Action,
    /// Whether the player holds one extracted wall unit.
    pub carrying: bool,
}

/// The whole mutable game state: the player and the wall store.
///
/// The wall store is an explicit record of wall cells; its well-formedness
/// invariant [`World::wf`] says that no two walls share a position.
pub struct World {
    pub player: Player,
    pub walls: Vec<Position>,
}

/// The set of coordinates covered by a sequence of wall records.
pub open spec fn wall_cells(s: Seq<Position>) -> Set<(int, int)> {
    Set::new(|c: (int, int)| exists|i: int| 0 <= i < s.len() && s[i].x == c.0 && s[i].y == c.1)
}

/// No two wall records in `s` share a position.
pub open spec fn distinct_walls(s: Seq<Position>) -> bool {
    forall|i: int, j: int| 0 <= i < j < s.len() ==> s[i] != s[j]
}

/// Mathematical view of a [`World`]: the player's fields over unbounded
/// integers, and the walls as a set of coordinates.
#[verifier::ext_equal]
pub ghost struct GameView {
    pub position: (int, int),
    pub facing: Direction,
    pub action: Action,
    pub carrying: bool,
    pub walls: Set<(int, int)>,
}

impl View for World {
    type V = GameView;

    open spec fn view(&self) -> GameView {
        GameView {
            position: (self.player.position.x as int, self.player.position.y as int),
            facing: self.player.facing,
            action: self.player.action,
            carrying: self.player.carrying,
            walls: wall_cells(self.walls@),
        }
    }
}

impl World {
    /// Well-formedness: no two wall records share a position.
    pub open spec fn wf(self) -> bool {
        distinct_walls(self.walls@)
    }

    /// A fresh world: player at (1, 1) facing up, idle, empty-handed, and no
    /// walls.
    pub fn new() -> (w: World)
        ensures
            w.wf(),
            w.player.position == (Position { x: 1, y: 1 }),
            w.player.facing == Direction::Up,
            w.player.action == Action::Idle,
            w.player.carrying == false,
            w.walls@ =~= Seq::<Position>::empty(),
            w@.walls =~= Set::<(int, int)>::empty(),
    {
        World {
            player: Player {
                position: Position { x: 1, y: 1 },
                facing: Direction::Up,
                action: Action::Idle,
                carrying: false,
            },
            walls: Vec::new(),
        }
    }

    /// Index of the wall record at `p`, if one exists.
    pub fn wall_index_at(&self, p: Position) -> (r: Option<usize>)
        ensures
            match r {
                Some(i) => i < self.walls@.len() && self.walls@[i as int] == p,
                None => !self@.walls.contains((p.x as int, p.y as int)),
            },
    {
        let mut i: usize = 0;
        while i < self.walls.len()
            invariant
                i <= self.walls@.len(),
                forall|j: int| 0 <= j < i ==> self.walls@[j] != p,
            decreases self.walls@.len() - i,
        {
            if self.walls[i] == p {
                return Some(i);
            }
            i += 1;
        }
        None
    }

    /// Whether any wall occupies the cell `p`.
    pub fn has_wall_at(&self, p: Position) -> (r: bool)
        ensures
            r == self@.walls.contains((p.x as int, p.y as int)),
    {
        match self.wall_index_at(p) {
            Some(_) => true,
            None => false,
        }
    }
}

/// Appending a wall record extends the covered cells by its coordinates.
pub proof fn lemma_wall_cells_push(s: Seq<Position>, p: Position)
    ensures
        wall_cells(s.push(p)) =~= wall_cells(s).insert((p.x as int, p.y as int)),
{
    assert forall|c: (int, int)| wall_cells(s.push(p)).contains(c)
        implies wall_cells(s).insert((p.x as int, p.y as int)).contains(c) by {
        let i = choose|i: int| 0 <= i < s.push(p).len() && s.push(p)[i].x == c.0
            && s.push(p)[i].y == c.1;
        if i < s.len() {
            assert(s[i].x == c.0 && s[i].y == c.1);
        }
    }
    assert forall|c: (int, int)| wall_cells(s).insert((p.x as int, p.y as int)).contains(c)
        implies wall_cells(s.push(p)).contains(c) by {
        if wall_cells(s).contains(c) {
            let i = choose|i: int| 0 <= i < s.len() && s[i].x == c.0 && s[i].y == c.1;
            assert(s.push(p)[i].x == c.0 && s.push(p)[i].y == c.1);
        } else {
            assert(s.push(p)[s.len() as int].x == c.0 && s.push(p)[s.len() as int].y == c.1);
        }
    }
}

/// Removing the one wall record at index `i` of a duplicate-free store
/// removes exactly its coordinates from the covered cells.
pub proof fn lemma_wall_cells_remove(s: Seq<Position>, i: int)
    requires
        distinct_walls(s),
        0 <= i < s.len(),
    ensures
        wall_cells(s.remove(i)) =~= wall_cells(s).remove((s[i].x as int, s[i].y as int)),
        distinct_walls(s.remove(i)),
{
    let t = s.remove(i);
    assert forall|c: (int, int)| wall_cells(t).contains(c)
        implies wall_cells(s).remove((s[i].x as int, s[i].y as int)).contains(c) by {
        let j = choose|j: int| 0 <= j < t.len() && t[j].x == c.0 && t[j].y == c.1;
        let k: int = if j < i { j } else { j + 1 };
        assert(s[k] == t[j]);
        assert(s[k] != s[i]);
    }
    assert forall|c: (int, int)| wall_cells(s).remove((s[i].x as int, s[i].y as int)).contains(c)
        implies wall_cells(t).contains(c) by {
        let j = choose|j: int| 0 <= j < s.len() && s[j].x == c.0 && s[j].y == c.1;
        assert(s[j] != s[i]);
        assert(j != i);
        let k: int = if j < i { j } else { j - 1 };
        assert(t[k] == s[j]);
    }
    assert forall|j: int, k: int| 0 <= j < k < t.len() implies t[j] != t[k] by {
        let j2: int = if j < i { j } else { j + 1 };
        let k2: int = if k < i { k } else { k + 1 };
        assert(t[j] == s[j2] && t[k] == s[k2]);
    }
}

/// A duplicate-free store stays duplicate-free when a wall on a cell it does
/// not cover is appended.
pub proof fn lemma_distinct_push(s: Seq<Position>, p: Position)
    requires
        distinct_walls(s),
        !wall_cells(s).contains((p.x as int, p.y as int)),
    ensures
        distinct_walls(s.push(p)),
{
    assert forall|i: int, j: int| 0 <= i < j < s.push(p).len()
        implies s.push(p)[i] != s.push(p)[j] by {
        if j == s.len() {
            assert(s[i].x == p.x && s[i].y == p.y ==> wall_cells(s).contains((
                p.x as int,
                p.y as int,
            )));
        }
    }
}

} // verus!
