//! The per-tick action-resolution pipeline: input capture, the action
//! validator, and the move / dig / build executors, composed by [`tick`].
//!
//! Each stage's contract equates the world's view after the call with a spec
//! transition function on [`GameView`], so the whole tick is pinned down by
//! the composition [`tick_step`].

use vstd::prelude::*;

use crate::grid::{Position, Direction, delta, pos_in_range, target_cell};
use crate::world::{Action, GameView, World, lemma_wall_cells_push, lemma_wall_cells_remove,
    lemma_distinct_push};

verus! {

/// One tick's worth of edge-triggered key presses: the four directional keys
/// and the single dig/build action key.
#[derive(PartialEq, Eq, Structural, Clone, Copy, Debug)]
pub struct InputSample {
    pub down: bool,
    pub up: bool,
    pub right: bool,
    pub left: bool,
    pub act: bool,
}

/// The cell one step from the player in the direction it faces.
pub open spec fn target_of(v: GameView) -> (int, int) {
    (v.position.0 + delta(v.facing).0, v.position.1 + delta(v.facing).1)
}

/// Facing after input capture: directional presses are applied in the fixed
/// order Down, Up, Right, Left, so the last one processed wins; with no
/// directional press the facing persists.
pub open spec fn input_facing(v: GameView, i: InputSample) -> Direction {
    if i.left {
        Direction::Left
    } else if i.right {
        Direction::Right
    } else if i.up {
        Direction::Up
    } else if i.down {
        Direction::Down
    } else {
        v.facing
    }
}

/// Action after input capture: the action key (checked after the directional
/// keys, so it overrides them) requests Dig when empty-handed and Build when
/// carrying; otherwise any directional press requests Move.
pub open spec fn input_action(v: GameView, i: InputSample) -> Action {
    if i.act {
        if v.carrying {
            Action::Build
        } else {
            Action::Dig
        }
    } else if i.down || i.up || i.right || i.left {
        Action::Move
    } else {
        v.action
    }
}

/// Input capture as a view transition: only facing and action change.
pub open spec fn input_step(v: GameView, i: InputSample) -> GameView {
    GameView { facing: input_facing(v, i), action: input_action(v, i), ..v }
}

/// The validator's verdict on the current intent:
/// Move and Build survive exactly when no wall occupies the target cell,
/// Dig survives exactly when a wall does, and Idle stays Idle.
pub open spec fn validated_action(v: GameView) -> Action {
    match v.action {
        Action::Idle => Action::Idle,
        Action::Move => if v.walls.contains(target_of(v)) {
            Action::Idle
        } else {
            Action::Move
        },
        Action::Dig => if v.walls.contains(target_of(v)) {
            Action::Dig
        } else {
            Action::Idle
        },
        Action::Build => if v.walls.contains(target_of(v)) {
            Action::Idle
        } else {
            Action::Build
        },
    }
}

/// Validation as a view transition: only the action changes.
pub open spec fn validate_step(v: GameView) -> GameView {
    GameView { action: validated_action(v), ..v }
}

/// The move executor as a view transition: on Move, step onto the target
/// cell and rest; otherwise do nothing.
pub open spec fn move_step(v: GameView) -> GameView {
    if v.action == Action::Move {
        GameView { position: target_of(v), action: Action::Idle, ..v }
    } else {
        v
    }
}

/// The dig executor as a view transition: on Dig, remove the wall at the
/// target cell (if one is there, picking up its material) and rest;
/// otherwise do nothing.
pub open spec fn dig_step(v: GameView) -> GameView {
    if v.action == Action::Dig {
        GameView {
            walls: v.walls.remove(target_of(v)),
            carrying: if v.walls.contains(target_of(v)) {
                true
            } else {
                v.carrying
            },
            action: Action::Idle,
            ..v
        }
    } else {
        v
    }
}

/// The build executor as a view transition: on Build, place a wall at the
/// target cell, drop the carried material and rest; otherwise do nothing.
pub open spec fn build_step(v: GameView) -> GameView {
    if v.action == Action::Build {
        GameView {
            walls: v.walls.insert(target_of(v)),
            carrying: false,
            action: Action::Idle,
            ..v
        }
    } else {
        v
    }
}

/// One full tick: input capture, validation, then the three executors in
/// their fixed order.
pub open spec fn tick_step(v: GameView, i: InputSample) -> GameView {
    build_step(dig_step(move_step(validate_step(input_step(v, i)))))
}

/// Input capture: fold one tick's key presses into the player's facing and
/// intent. Position, carried material and the walls are untouched.
pub fn player_input(world: &mut World, input: InputSample)
    ensures
        final(world)@ == input_step(old(world)@, input),
        final(world).walls@ == old(world).walls@,
        final(world).player.position == old(world).player.position,
        final(world).player.carrying == old(world).player.carrying,
        old(world).wf() ==> final(world).wf(),
{
    if input.down {
        world.player.facing = Direction::Down;
        world.player.action = Action::Move;
    }
    if input.up {
        world.player.facing = Direction::Up;
        world.player.action = Action::Move;
    }
    if input.right {
        world.player.facing = Direction::Right;
        world.player.action = Action::Move;
    }
    if input.left {
        world.player.facing = Direction::Left;
        world.player.action = Action::Move;
    }
    if input.act {
        if !world.player.carrying {
            world.player.action = Action::Dig;
        }
        if world.player.carrying {
            world.player.action = Action::Build;
        }
    }
    proof {
        assert(world@ =~= input_step(old(world)@, input));
    }
}

/// The action validator: demote the current intent to Idle when its
/// precondition fails (a wall blocks Move or Build; no wall feeds Dig), and
/// confirm it otherwise. Never upgrades Idle, touches nothing else.
pub fn validate_player_action(world: &mut World)
    requires
        old(world).player.action != Action::Idle ==> pos_in_range(old(world).player.position),
    ensures
        final(world)@ == validate_step(old(world)@),
        final(world).walls@ == old(world).walls@,
        final(world).player.position == old(world).player.position,
        final(world).player.facing == old(world).player.facing,
        final(world).player.carrying == old(world).player.carrying,
        old(world).wf() ==> final(world).wf(),
{
    match world.player.action {
        Action::Idle => {},
        Action::Move => {
            let target = target_cell(world.player.position, world.player.facing);
            if world.has_wall_at(target) {
                world.player.action = Action::Idle;
            }
        },
        Action::Dig => {
            let target = target_cell(world.player.position, world.player.facing);
            if world.has_wall_at(target) {
                world.player.action = Action::Dig;
            } else {
                world.player.action = Action::Idle;
            }
        },
        Action::Build => {
            let target = target_cell(world.player.position, world.player.facing);
            if world.has_wall_at(target) {
                world.player.action = Action::Idle;
            }
        },
    }
    proof {
        assert(world@ =~= validate_step(old(world)@));
    }
}

/// The move executor: on a validated Move, step onto the target cell and
/// reset the intent to Idle; otherwise leave the world untouched.
pub fn player_move_action(world: &mut World)
    requires
        old(world).player.action == Action::Move ==> pos_in_range(old(world).player.position),
    ensures
        final(world)@ == move_step(old(world)@),
        final(world).walls@ == old(world).walls@,
        final(world).player.facing == old(world).player.facing,
        final(world).player.carrying == old(world).player.carrying,
        old(world).player.action != Action::Move ==> *final(world) == *old(world),
        old(world).wf() ==> final(world).wf(),
{
    if world.player.action == Action::Move {
        world.player.position = target_cell(world.player.position, world.player.facing);
        world.player.action = Action::Idle;
    }
    proof {
        assert(world@ =~= move_step(old(world)@));
    }
}

/// The dig executor: on a validated Dig, destroy the wall at the target cell
/// and pick up its material (a no-op if no wall is there), then reset the
/// intent to Idle; otherwise leave the world untouched.
pub fn player_dig_action(world: &mut World)
    requires
        old(world).wf(),
        old(world).player.action == Action::Dig ==> pos_in_range(old(world).player.position),
    ensures
        final(world).wf(),
        final(world)@ == dig_step(old(world)@),
        final(world).player.position == old(world).player.position,
        final(world).player.facing == old(world).player.facing,
        old(world).player.action != Action::Dig ==> *final(world) == *old(world),
        old(world).player.action == Action::Dig
            && old(world)@.walls.contains(target_of(old(world)@))
            ==> final(world).walls@.len() == old(world).walls@.len() - 1,
{
    if world.player.action == Action::Dig {
        let target = target_cell(world.player.position, world.player.facing);
        match world.wall_index_at(target) {
            Some(i) => {
                proof {
                    lemma_wall_cells_remove(world.walls@, i as int);
                }
                world.walls.remove(i);
                world.player.carrying = true;
            },
            None => {},
        }
        world.player.action = Action::Idle;
        proof {
            assert(world@.walls =~= dig_step(old(world)@).walls);
        }
    }
    proof {
        assert(world@ =~= dig_step(old(world)@));
    }
}

/// The build executor: on a validated Build, place a wall at the target cell
/// and drop the carried material, then reset the intent to Idle; otherwise
/// leave the world untouched. Validation guarantees the target cell is free,
/// which keeps the wall store duplicate-free.
pub fn player_build_action(world: &mut World)
    requires
        old(world).wf(),
        old(world).player.action == Action::Build ==> pos_in_range(old(world).player.position),
        old(world).player.action == Action::Build
            ==> !old(world)@.walls.contains(target_of(old(world)@)),
    ensures
        final(world).wf(),
        final(world)@ == build_step(old(world)@),
        final(world).player.position == old(world).player.position,
        final(world).player.facing == old(world).player.facing,
        old(world).player.action != Action::Build ==> *final(world) == *old(world),
        old(world).player.action == Action::Build
            ==> final(world).walls@ == old(world).walls@.push(
            Position {
                x: (old(world).player.position.x + delta(old(world).player.facing).0) as i32,
                y: (old(world).player.position.y + delta(old(world).player.facing).1) as i32,
            },
        ),
{
    if world.player.action == Action::Build {
        let target = target_cell(world.player.position, world.player.facing);
        proof {
            lemma_distinct_push(world.walls@, target);
            lemma_wall_cells_push(world.walls@, target);
        }
        world.walls.push(target);
        world.player.carrying = false;
        world.player.action = Action::Idle;
    }
    proof {
        assert(world@ =~= build_step(old(world)@));
    }
}

/// One full tick of the action-resolution pipeline, in the fixed stage order
/// input capture, validation, Move, Dig, Build. Exactly one validated effect
/// is applied, and the intent always comes to rest at Idle.
pub fn tick(world: &mut World, input: InputSample)
    requires
        old(world).wf(),
        input_action(old(world)@, input) != Action::Idle
            ==> pos_in_range(old(world).player.position),
    ensures
        final(world).wf(),
        final(world)@ == tick_step(old(world)@, input),
        final(world).player.action == Action::Idle,
{
    player_input(world, input);
    validate_player_action(world);
    player_move_action(world);
    player_dig_action(world);
    player_build_action(world);
}

/// The validator never invents work: its verdict is the requested action or
/// Idle.
pub proof fn lemma_validator_demotes_only(v: GameView)
    ensures
        validated_action(v) == v.action || validated_action(v) == Action::Idle,
{
}

/// The validator is idempotent: validating an already-validated intent
/// changes nothing.
pub proof fn lemma_validator_idempotent(v: GameView)
    ensures
        validate_step(validate_step(v)) == validate_step(v),
{
    assert(validate_step(validate_step(v)) =~= validate_step(v));
}

/// A requested Move is rejected exactly when a wall occupies the target
/// cell; when it survives, executing it puts the player on that cell and
/// touches nothing else.
pub proof fn lemma_move_resolution(v: GameView)
    requires
        v.action == Action::Move,
    ensures
        validated_action(v) == Action::Idle <==> v.walls.contains(target_of(v)),
        v.walls.contains(target_of(v)) ==> move_step(validate_step(v)) == (GameView {
            action: Action::Idle,
            ..v
        }),
        !v.walls.contains(target_of(v)) ==> move_step(validate_step(v)) == (GameView {
            position: target_of(v),
            action: Action::Idle,
            ..v
        }),
{
    assert(move_step(validate_step(v)) =~= if v.walls.contains(target_of(v)) {
        GameView { action: Action::Idle, ..v }
    } else {
        GameView { position: target_of(v), action: Action::Idle, ..v }
    });
}

/// A requested Dig survives exactly when a wall exists at the target cell;
/// executing it then removes that wall and loads the player, while a Dig
/// with no wall ahead changes nothing but the intent.
pub proof fn lemma_dig_resolution(v: GameView)
    requires
        v.action == Action::Dig,
    ensures
        validated_action(v) == Action::Dig <==> v.walls.contains(target_of(v)),
        v.walls.contains(target_of(v)) ==> dig_step(validate_step(v)) == (GameView {
            walls: v.walls.remove(target_of(v)),
            carrying: true,
            action: Action::Idle,
            ..v
        }),
        !v.walls.contains(target_of(v)) ==> dig_step(validate_step(v)) == (GameView {
            action: Action::Idle,
            ..v
        }),
{
    assert(dig_step(validate_step(v)) =~= if v.walls.contains(target_of(v)) {
        GameView {
            walls: v.walls.remove(target_of(v)),
            carrying: true,
            action: Action::Idle,
            ..v
        }
    } else {
        GameView { action: Action::Idle, ..v }
    });
}

/// A requested Build is rejected exactly when the target cell is occupied;
/// when it survives, executing it walls that cell and unloads the player.
pub proof fn lemma_build_resolution(v: GameView)
    requires
        v.action == Action::Build,
    ensures
        validated_action(v) == Action::Idle <==> v.walls.contains(target_of(v)),
        v.walls.contains(target_of(v)) ==> build_step(validate_step(v)) == (GameView {
            action: Action::Idle,
            ..v
        }),
        !v.walls.contains(target_of(v)) ==> build_step(validate_step(v)) == (GameView {
            walls: v.walls.insert(target_of(v)),
            carrying: false,
            action: Action::Idle,
            ..v
        }),
{
    assert(build_step(validate_step(v)) =~= if v.walls.contains(target_of(v)) {
        GameView { action: Action::Idle, ..v }
    } else {
        GameView {
            walls: v.walls.insert(target_of(v)),
            carrying: false,
            action: Action::Idle,
            ..v
        }
    });
}

/// Round trip: with a wall ahead and empty hands, a tick whose only press is
/// the action key digs the wall up (`carrying` goes `false -> true`), and a
/// second such tick in the same facing builds it back: the wall set, the
/// position and the facing all return to their original composition, with
/// `carrying` back at `false`.
pub proof fn lemma_dig_build_round_trip(v: GameView, i: InputSample)
    requires
        !v.carrying,
        v.walls.contains(target_of(v)),
        i.act,
        !i.down,
        !i.up,
        !i.right,
        !i.left,
    ensures
        tick_step(v, i).carrying == true,
        tick_step(tick_step(v, i), i).carrying == false,
        tick_step(tick_step(v, i), i).walls == v.walls,
        tick_step(tick_step(v, i), i).position == v.position,
        tick_step(tick_step(v, i), i).facing == v.facing,
{
    let t = target_of(v);
    let v1 = tick_step(v, i);
    assert(v1 =~= (GameView {
        walls: v.walls.remove(t),
        carrying: true,
        action: Action::Idle,
        ..v
    }));
    assert(target_of(v1) == t);
    let v2 = tick_step(v1, i);
    assert(v2.walls =~= v.walls.remove(t).insert(t));
    assert(v2.walls =~= v.walls);
}

} // verus!
