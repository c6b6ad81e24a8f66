use carnival::grid::{ARENA_HEIGHT, ARENA_WIDTH, Direction, Position};
use carnival::pipeline::{
    player_build_action, player_dig_action, player_input, player_move_action, tick,
    validate_player_action, InputSample,
};
use carnival::world::{Action, Player, World};

fn world_with(
    px: i32,
    py: i32,
    facing: Direction,
    action: Action,
    carrying: bool,
    wall_cells: &[(i32, i32)],
) -> World {
    let mut walls: Vec<Position> = Vec::new();
    for &(x, y) in wall_cells {
        walls.push(Position { x, y });
    }
    World {
        player: Player {
            position: Position { x: px, y: py },
            facing,
            action,
            carrying,
        },
        walls,
    }
}

fn keys(down: bool, up: bool, right: bool, left: bool, act: bool) -> InputSample {
    InputSample {
        down,
        up,
        right,
        left,
        act,
    }
}

#[test]
fn new_world_defaults() {
    let w = World::new();
    assert_eq!(w.player.position, Position { x: 1, y: 1 });
    assert_eq!(w.player.facing, Direction::Up);
    assert_eq!(w.player.action, Action::Idle);
    assert!(!w.player.carrying);
    assert_eq!(w.walls.len(), 0);
}

#[test]
fn direction_deltas_are_unit_steps() {
    assert_eq!(Direction::Up.delta(), (0, 1));
    assert_eq!(Direction::Down.delta(), (0, -1));
    assert_eq!(Direction::Left.delta(), (-1, 0));
    assert_eq!(Direction::Right.delta(), (1, 0));
}

#[test]
fn validator_demotes_blocked_move() {
    let mut w = world_with(5, 5, Direction::Up, Action::Move, false, &[(5, 6)]);
    validate_player_action(&mut w);
    assert_eq!(w.player.action, Action::Idle);
    player_move_action(&mut w);
    assert_eq!(w.player.position, Position { x: 5, y: 5 });
}

#[test]
fn move_executes_onto_free_cell() {
    let mut w = world_with(5, 5, Direction::Up, Action::Move, false, &[(8, 8)]);
    validate_player_action(&mut w);
    assert_eq!(w.player.action, Action::Move);
    player_move_action(&mut w);
    assert_eq!(w.player.position, Position { x: 5, y: 6 });
    assert_eq!(w.player.action, Action::Idle);
}

#[test]
fn dig_removes_wall_and_loads_player() {
    let mut w = world_with(5, 5, Direction::Right, Action::Dig, false, &[(6, 5)]);
    validate_player_action(&mut w);
    assert_eq!(w.player.action, Action::Dig);
    player_dig_action(&mut w);
    assert!(!w.has_wall_at(Position { x: 6, y: 5 }));
    assert!(w.player.carrying);
    assert_eq!(w.walls.len(), 0);
    assert_eq!(w.player.action, Action::Idle);
}

#[test]
fn dig_without_wall_is_demoted() {
    let mut w = world_with(5, 5, Direction::Right, Action::Dig, false, &[(9, 9)]);
    validate_player_action(&mut w);
    assert_eq!(w.player.action, Action::Idle);
    player_dig_action(&mut w);
    assert!(!w.player.carrying);
    assert_eq!(w.walls.len(), 1);
    assert_eq!(w.player.position, Position { x: 5, y: 5 });
}

#[test]
fn build_places_wall_and_unloads_player() {
    let mut w = world_with(5, 5, Direction::Down, Action::Build, true, &[]);
    validate_player_action(&mut w);
    assert_eq!(w.player.action, Action::Build);
    player_build_action(&mut w);
    assert!(w.has_wall_at(Position { x: 5, y: 4 }));
    assert!(!w.player.carrying);
    assert_eq!(w.player.action, Action::Idle);
}

#[test]
fn build_into_occupied_cell_is_demoted() {
    let mut w = world_with(5, 5, Direction::Down, Action::Build, true, &[(5, 4)]);
    validate_player_action(&mut w);
    assert_eq!(w.player.action, Action::Idle);
    player_build_action(&mut w);
    assert_eq!(w.walls.len(), 1);
    assert!(w.player.carrying);
}

#[test]
fn validator_never_upgrades_idle() {
    let mut w = world_with(5, 5, Direction::Up, Action::Idle, false, &[(5, 6)]);
    validate_player_action(&mut w);
    assert_eq!(w.player.action, Action::Idle);
    assert_eq!(w.player.position, Position { x: 5, y: 5 });
}

#[test]
fn validator_is_idempotent() {
    let mut w = world_with(5, 5, Direction::Up, Action::Move, false, &[(5, 6)]);
    validate_player_action(&mut w);
    let first = w.player;
    validate_player_action(&mut w);
    assert_eq!(w.player, first);

    let mut free = world_with(5, 5, Direction::Up, Action::Move, false, &[]);
    validate_player_action(&mut free);
    let kept = free.player;
    validate_player_action(&mut free);
    assert_eq!(free.player, kept);
}

#[test]
fn input_last_direction_processed_wins() {
    let mut w = World::new();
    player_input(&mut w, keys(true, true, true, true, false));
    assert_eq!(w.player.facing, Direction::Left);
    assert_eq!(w.player.action, Action::Move);
}

#[test]
fn input_single_direction_sets_facing_and_move() {
    let mut w = World::new();
    player_input(&mut w, keys(true, false, false, false, false));
    assert_eq!(w.player.facing, Direction::Down);
    assert_eq!(w.player.action, Action::Move);
}

#[test]
fn input_action_key_overrides_direction() {
    let mut w = World::new();
    player_input(&mut w, keys(false, true, false, false, true));
    assert_eq!(w.player.facing, Direction::Up);
    assert_eq!(w.player.action, Action::Dig);

    let mut carrying = world_with(5, 5, Direction::Up, Action::Idle, true, &[]);
    player_input(&mut carrying, keys(false, true, false, false, true));
    assert_eq!(carrying.player.action, Action::Build);
}

#[test]
fn input_without_presses_changes_nothing() {
    let mut w = world_with(5, 5, Direction::Right, Action::Idle, true, &[]);
    player_input(&mut w, keys(false, false, false, false, false));
    assert_eq!(w.player.facing, Direction::Right);
    assert_eq!(w.player.action, Action::Idle);
    assert!(w.player.carrying);
}

#[test]
fn tick_always_rests_at_idle() {
    let mut w = world_with(5, 5, Direction::Up, Action::Idle, false, &[(5, 6)]);
    tick(&mut w, keys(false, true, false, false, false));
    assert_eq!(w.player.action, Action::Idle);
    tick(&mut w, keys(false, false, false, false, true));
    assert_eq!(w.player.action, Action::Idle);
    tick(&mut w, keys(false, false, false, false, false));
    assert_eq!(w.player.action, Action::Idle);
}

#[test]
fn boundary_ring_is_exact() {
    let mut w = World::new();
    w.spawn_boundaries();
    let expected = 2 * ARENA_WIDTH + 2 * (ARENA_HEIGHT - 2);
    assert_eq!(w.walls.len(), expected as usize);
    // every ring cell is walled
    for x in 0..ARENA_WIDTH as i32 {
        assert!(w.has_wall_at(Position { x, y: 0 }));
        assert!(w.has_wall_at(Position {
            x,
            y: ARENA_HEIGHT as i32 - 1
        }));
    }
    for y in 0..ARENA_HEIGHT as i32 {
        assert!(w.has_wall_at(Position { x: 0, y }));
        assert!(w.has_wall_at(Position {
            x: ARENA_WIDTH as i32 - 1,
            y
        }));
    }
    // no interior cell is walled
    for x in 1..ARENA_WIDTH as i32 - 1 {
        for y in 1..ARENA_HEIGHT as i32 - 1 {
            assert!(!w.has_wall_at(Position { x, y }));
        }
    }
    // no two walls share a position
    for i in 0..w.walls.len() {
        for j in i + 1..w.walls.len() {
            assert_ne!(w.walls[i], w.walls[j]);
        }
    }
}

#[test]
fn spawner_placement_rule_is_exact() {
    let mut w = world_with(3, 3, Direction::Up, Action::Idle, false, &[(4, 4)]);
    // the player's cell, an occupied cell, and out-of-bounds cells are refused
    assert!(!w.try_spawn_wall_at(Position { x: 3, y: 3 }));
    assert!(!w.try_spawn_wall_at(Position { x: 4, y: 4 }));
    assert!(!w.try_spawn_wall_at(Position { x: -1, y: 5 }));
    assert!(!w.try_spawn_wall_at(Position {
        x: ARENA_WIDTH as i32,
        y: 5
    }));
    assert!(!w.try_spawn_wall_at(Position { x: 5, y: -1 }));
    assert_eq!(w.walls.len(), 1);
    // a free interior cell is accepted exactly once
    assert!(w.try_spawn_wall_at(Position { x: 5, y: 5 }));
    assert!(w.has_wall_at(Position { x: 5, y: 5 }));
    assert!(!w.try_spawn_wall_at(Position { x: 5, y: 5 }));
    assert_eq!(w.walls.len(), 2);
}

#[test]
fn spawner_never_collides() {
    let mut w = World::new();
    w.spawn_boundaries();
    let ring = w.walls.len();
    for round in 0..10 {
        let before = w.walls.clone();
        w.spawn_walls();
        assert_eq!(w.player.position, Position { x: 1, y: 1 });
        assert_eq!(w.walls.len(), ring + round + 1);
        let new_wall = *w.walls.last().unwrap();
        assert!(new_wall.x >= 0 && new_wall.x < ARENA_WIDTH as i32);
        assert!(new_wall.y >= 0 && new_wall.y < ARENA_HEIGHT as i32);
        assert_ne!(new_wall, w.player.position);
        assert!(!before.contains(&new_wall));
        assert_eq!(&w.walls[..before.len()], &before[..]);
    }
}

#[test]
fn spawner_on_saturated_board_is_a_no_op() {
    let mut cells: Vec<(i32, i32)> = Vec::new();
    for x in 0..ARENA_WIDTH as i32 {
        for y in 0..ARENA_HEIGHT as i32 {
            if (x, y) != (1, 1) {
                cells.push((x, y));
            }
        }
    }
    let mut w = world_with(1, 1, Direction::Up, Action::Idle, false, &cells);
    let before = w.walls.len();
    w.spawn_walls();
    assert_eq!(w.walls.len(), before);
    assert_eq!(w.player.position, Position { x: 1, y: 1 });
}

#[test]
fn dig_then_build_round_trips_the_wall_set() {
    let mut w = world_with(5, 5, Direction::Right, Action::Idle, false, &[(6, 5), (0, 0)]);
    let act_only = keys(false, false, false, false, true);

    tick(&mut w, act_only);
    assert!(w.player.carrying);
    assert!(!w.has_wall_at(Position { x: 6, y: 5 }));
    assert!(w.has_wall_at(Position { x: 0, y: 0 }));

    tick(&mut w, act_only);
    assert!(!w.player.carrying);
    assert!(w.has_wall_at(Position { x: 6, y: 5 }));
    assert!(w.has_wall_at(Position { x: 0, y: 0 }));
    assert_eq!(w.walls.len(), 2);
    assert_eq!(w.player.position, Position { x: 5, y: 5 });
    assert_eq!(w.player.facing, Direction::Right);
}

#[test]
fn full_session_keeps_walls_distinct() {
    let mut w = World::new();
    w.spawn_boundaries();
    let script = [
        keys(false, true, false, false, false),  // move up
        keys(false, false, true, false, false),  // move right
        keys(true, false, false, false, false),  // move down, back to the wall row
        keys(true, false, false, false, true),   // dig the boundary wall below
        keys(false, false, false, false, true),  // build it back
        keys(false, false, true, false, false),  // move right
        keys(false, false, false, true, true),   // face left and dig (nothing there)
    ];
    for (round, input) in script.iter().enumerate() {
        tick(&mut w, *input);
        w.spawn_walls();
        assert_eq!(w.player.action, Action::Idle, "round {round}");
        for i in 0..w.walls.len() {
            for j in i + 1..w.walls.len() {
                assert_ne!(w.walls[i], w.walls[j], "round {round}");
            }
        }
    }
}
