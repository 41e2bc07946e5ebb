use dungeon_of_madness::coords::FRAC_RSQRT2;
use dungeon_of_madness::coords::FX_ONE;
use dungeon_of_madness::coords::WorldPoint;
use dungeon_of_madness::grid::ObstacleGrid;
use dungeon_of_madness::index::Chunk;
use dungeon_of_madness::index::ChunkIndex;
use dungeon_of_madness::index::LoadState;
use dungeon_of_madness::movement::heading_from_input;
use dungeon_of_madness::movement::resolve_movement;
use dungeon_of_madness::movement::Actor;
use dungeon_of_madness::movement::DirInput;
use dungeon_of_madness::movement::Heading;

fn px(v: i64) -> i64 {
    v * FX_ONE
}

/// One loaded chunk centered on the origin, so the actor starts inside.
fn home_index() -> ChunkIndex {
    let mut index = ChunkIndex::new();
    index.insert(Chunk {
        id: 1,
        origin: WorldPoint { x: px(-72), y: px(-72) },
        code: 0,
        state: LoadState::BoundsKnown,
    });
    index
}

fn actor_at_origin() -> Actor {
    Actor {
        pos: WorldPoint { x: 0, y: 0 },
        mirrored: false,
        half_width: px(8),
        half_height: px(8),
    }
}

fn input(up: bool, right: bool, down: bool, left: bool) -> DirInput {
    DirInput { up, right, down, left }
}

#[test]
fn up_at_speed_90_for_one_second_moves_90_pixels() {
    let index = home_index();
    let grid = ObstacleGrid::new(px(16));
    let mut actor = actor_at_origin();
    resolve_movement(&mut actor, input(true, false, false, false), px(90), FX_ONE, &index, &grid);
    assert_eq!(actor.pos, WorldPoint { x: 0, y: px(90) });
    assert!(!actor.mirrored);
}

#[test]
fn conflicting_up_and_down_do_not_move() {
    let index = home_index();
    let grid = ObstacleGrid::new(px(16));
    let mut actor = actor_at_origin();
    resolve_movement(&mut actor, input(true, false, true, false), px(90), FX_ONE, &index, &grid);
    assert_eq!(actor.pos, WorldPoint { x: 0, y: 0 });
}

#[test]
fn all_four_pressed_do_not_move() {
    let index = home_index();
    let grid = ObstacleGrid::new(px(16));
    let mut actor = actor_at_origin();
    resolve_movement(&mut actor, input(true, true, true, true), px(90), FX_ONE, &index, &grid);
    assert_eq!(actor.pos, WorldPoint { x: 0, y: 0 });
}

#[test]
fn diagonal_speed_is_normalized_per_axis() {
    let index = home_index();
    let grid = ObstacleGrid::new(px(16));
    let mut actor = actor_at_origin();
    resolve_movement(&mut actor, input(true, true, false, false), px(90), FX_ONE, &index, &grid);
    let step = px(90);
    let diag = (step * FRAC_RSQRT2) / FX_ONE;
    assert_eq!(actor.pos, WorldPoint { x: diag, y: diag });
    // About 63.64 pixels per axis, against 90 for a cardinal move.
    assert_eq!(diag / FX_ONE, 63);
}

#[test]
fn occupied_top_left_sensor_rejects_the_whole_move() {
    // The move goes up; the top-left sensor corner of the candidate box is
    // (-8, 98). Occupy that 16-pixel cell only: the top-right corner
    // (8, 98) stays clear, yet the move is rejected whole.
    let index = home_index();
    let mut grid = ObstacleGrid::new(px(16));
    grid.set_cell(-1, 6, 1);
    let mut actor = actor_at_origin();
    resolve_movement(&mut actor, input(true, false, false, false), px(90), FX_ONE, &index, &grid);
    assert_eq!(actor.pos, WorldPoint { x: 0, y: 0 });
}

#[test]
fn occupied_top_right_sensor_rejects_the_whole_move() {
    let index = home_index();
    let mut grid = ObstacleGrid::new(px(16));
    grid.set_cell(0, 6, 1);
    let mut actor = actor_at_origin();
    resolve_movement(&mut actor, input(true, false, false, false), px(90), FX_ONE, &index, &grid);
    assert_eq!(actor.pos, WorldPoint { x: 0, y: 0 });
}

#[test]
fn facing_flips_even_when_the_move_is_rejected() {
    // Moving left into an obstacle: the position stays, the facing flips.
    let index = home_index();
    let mut grid = ObstacleGrid::new(px(16));
    // Candidate (-90, 0); top-left sensor (-98, 8) is in cell (-7, 0).
    grid.set_cell(-7, 0, 1);
    let mut actor = actor_at_origin();
    resolve_movement(&mut actor, input(false, false, false, true), px(90), FX_ONE, &index, &grid);
    assert_eq!(actor.pos, WorldPoint { x: 0, y: 0 });
    assert!(actor.mirrored);
}

#[test]
fn facing_follows_rightward_and_leftward_components() {
    let index = home_index();
    let grid = ObstacleGrid::new(px(16));
    let mut actor = actor_at_origin();
    actor.mirrored = true;
    resolve_movement(&mut actor, input(true, true, false, false), px(10), FX_ONE, &index, &grid);
    assert!(!actor.mirrored);
    resolve_movement(&mut actor, input(false, false, true, true), px(10), FX_ONE, &index, &grid);
    assert!(actor.mirrored);
    // Pure vertical input leaves the facing alone.
    resolve_movement(&mut actor, input(true, false, false, false), px(10), FX_ONE, &index, &grid);
    assert!(actor.mirrored);
}

#[test]
fn no_movement_outside_any_loaded_chunk() {
    // The actor floats in space while chunks load: nothing moves, nothing
    // flips, and that is not an error.
    let index = ChunkIndex::new();
    let grid = ObstacleGrid::new(px(16));
    let mut actor = actor_at_origin();
    resolve_movement(&mut actor, input(false, true, false, false), px(90), FX_ONE, &index, &grid);
    assert_eq!(actor.pos, WorldPoint { x: 0, y: 0 });
    assert!(!actor.mirrored);
}

#[test]
fn zero_elapsed_time_stands_still() {
    let index = home_index();
    let grid = ObstacleGrid::new(px(16));
    let mut actor = actor_at_origin();
    resolve_movement(&mut actor, input(true, false, false, false), px(90), 0, &index, &grid);
    assert_eq!(actor.pos, WorldPoint { x: 0, y: 0 });
}

#[test]
fn heading_recognizes_exactly_eight_combinations() {
    assert_eq!(heading_from_input(input(true, false, false, false)), Some(Heading::North));
    assert_eq!(heading_from_input(input(true, true, false, false)), Some(Heading::NorthEast));
    assert_eq!(heading_from_input(input(false, true, false, false)), Some(Heading::East));
    assert_eq!(heading_from_input(input(false, true, true, false)), Some(Heading::SouthEast));
    assert_eq!(heading_from_input(input(false, false, true, false)), Some(Heading::South));
    assert_eq!(heading_from_input(input(false, false, true, true)), Some(Heading::SouthWest));
    assert_eq!(heading_from_input(input(false, false, false, true)), Some(Heading::West));
    assert_eq!(heading_from_input(input(true, false, false, true)), Some(Heading::NorthWest));
    assert_eq!(heading_from_input(input(false, false, false, false)), None);
    assert_eq!(heading_from_input(input(true, false, true, false)), None);
    assert_eq!(heading_from_input(input(false, true, false, true)), None);
    assert_eq!(heading_from_input(input(true, true, true, false)), None);
}
