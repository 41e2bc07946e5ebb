use dungeon_of_madness::coords::FX_ONE;
use dungeon_of_madness::coords::WorldPoint;
use dungeon_of_madness::index::Chunk;
use dungeon_of_madness::index::ChunkIndex;
use dungeon_of_madness::index::LoadState;
use dungeon_of_madness::stream::request_spawn;
use dungeon_of_madness::stream::Controller;
use dungeon_of_madness::stream::StreamError;
use dungeon_of_madness::stream::StreamState;
use tinyrand::Seeded;
use tinyrand::StdRand;

const START_ID: u64 = 100;

fn px(v: i64) -> i64 {
    v * FX_ONE
}

fn loaded_chunk(id: u64, x: i64, y: i64, code: u8) -> Chunk {
    Chunk { id, origin: WorldPoint { x, y }, code, state: LoadState::BoundsKnown }
}

#[test]
fn loading_waits_until_the_start_chunk_is_known() {
    let mut controller = Controller::new(START_ID);
    let mut rng = StdRand::seed(1);
    let mut index = ChunkIndex::new();
    index.insert(Chunk {
        id: START_ID,
        origin: WorldPoint { x: 0, y: 0 },
        code: 0,
        state: LoadState::Requested,
    });
    let r = controller.tick(WorldPoint { x: px(72), y: px(72) }, &index, &mut rng);
    assert_eq!(r.unwrap().len(), 0);
    assert_eq!(controller.state, StreamState::Loading);
    assert_eq!(controller.current_chunk, None);
}

#[test]
fn start_chunk_at_code_0_requests_all_four_neighbors() {
    // The start chunk (code 0, open on all sides) becomes known: exactly
    // four spawn requests go out, one per cardinal direction, each anchored
    // one chunk edge (144 units) away.
    let mut controller = Controller::new(START_ID);
    let mut rng = StdRand::seed(1);
    let mut index = ChunkIndex::new();
    index.insert(loaded_chunk(START_ID, 0, 0, 0));
    let r = controller.tick(WorldPoint { x: px(72), y: px(72) }, &index, &mut rng).unwrap();
    assert_eq!(controller.state, StreamState::Playing);
    assert_eq!(controller.current_chunk, Some(START_ID));
    assert_eq!(r.len(), 4);
    let anchors: Vec<(i64, i64)> = r.iter().map(|q| (q.anchor.x, q.anchor.y)).collect();
    assert_eq!(
        anchors,
        vec![(0, px(144)), (px(144), 0), (0, px(-144)), (px(-144), 0)]
    );
    for q in &r {
        assert!(q.code <= 14);
        // Each new chunk must be open toward the start chunk, which is open
        // toward it: north target open to the south, and so on.
        // Wall bits: north 1, east 2, south 4, west 8.
    }
    assert_eq!(r[0].code & 0x4, 0, "north neighbor must be open to the south");
    assert_eq!(r[1].code & 0x8, 0, "east neighbor must be open to the west");
    assert_eq!(r[2].code & 0x1, 0, "south neighbor must be open to the north");
    assert_eq!(r[3].code & 0x2, 0, "west neighbor must be open to the east");
}

#[test]
fn playing_in_the_same_chunk_requests_nothing() {
    let mut controller = Controller::new(START_ID);
    let mut rng = StdRand::seed(1);
    let mut index = ChunkIndex::new();
    index.insert(loaded_chunk(START_ID, 0, 0, 0));
    controller.tick(WorldPoint { x: px(72), y: px(72) }, &index, &mut rng).unwrap();
    let r = controller.tick(WorldPoint { x: px(10), y: px(10) }, &index, &mut rng).unwrap();
    assert_eq!(r.len(), 0);
    assert_eq!(controller.current_chunk, Some(START_ID));
}

#[test]
fn playing_outside_any_chunk_is_a_quiet_no_op() {
    let mut controller = Controller::new(START_ID);
    let mut rng = StdRand::seed(1);
    let mut index = ChunkIndex::new();
    index.insert(loaded_chunk(START_ID, 0, 0, 0));
    controller.tick(WorldPoint { x: px(72), y: px(72) }, &index, &mut rng).unwrap();
    let r = controller.tick(WorldPoint { x: px(5000), y: px(5000) }, &index, &mut rng).unwrap();
    assert_eq!(r.len(), 0);
    assert_eq!(controller.state, StreamState::Playing);
    assert_eq!(controller.current_chunk, Some(START_ID));
}

#[test]
fn entering_a_new_chunk_requests_only_its_open_directions() {
    // The actor steps into a chunk east of start whose code walls north
    // and south (1 | 4 = 5): requests go only east and west — and west is
    // already occupied by the start chunk, so only east remains.
    let mut controller = Controller::new(START_ID);
    let mut rng = StdRand::seed(1);
    let mut index = ChunkIndex::new();
    index.insert(loaded_chunk(START_ID, 0, 0, 0));
    controller.tick(WorldPoint { x: px(72), y: px(72) }, &index, &mut rng).unwrap();
    index.insert(loaded_chunk(2, px(144), 0, 5));
    let r = controller.tick(WorldPoint { x: px(200), y: px(72) }, &index, &mut rng).unwrap();
    assert_eq!(controller.current_chunk, Some(2));
    assert_eq!(r.len(), 1);
    assert_eq!((r[0].anchor.x, r[0].anchor.y), (px(288), 0));
    assert_eq!(r[0].code & 0x8, 0, "the new chunk must be open back to the west");
}

#[test]
fn spawn_requests_deduplicate_against_loaded_chunks() {
    // All four neighbors of the start cell are already loaded: the start
    // transition requests nothing.
    let mut controller = Controller::new(START_ID);
    let mut rng = StdRand::seed(1);
    let mut index = ChunkIndex::new();
    index.insert(loaded_chunk(START_ID, 0, 0, 0));
    index.insert(loaded_chunk(2, 0, px(144), 0));
    index.insert(loaded_chunk(3, px(144), 0, 0));
    index.insert(loaded_chunk(4, 0, px(-144), 0));
    index.insert(loaded_chunk(5, px(-144), 0, 0));
    let r = controller.tick(WorldPoint { x: px(72), y: px(72) }, &index, &mut rng).unwrap();
    assert_eq!(r.len(), 0);
    assert_eq!(controller.state, StreamState::Playing);
}

#[test]
fn request_spawn_skips_an_occupied_cell() {
    let mut rng = StdRand::seed(1);
    let mut index = ChunkIndex::new();
    index.insert(loaded_chunk(1, 0, 0, 0));
    let r = request_spawn(&index, &mut rng, 0, 0);
    assert_eq!(r, Ok(None));
}

#[test]
fn request_spawn_agrees_with_every_loaded_neighbor() {
    // Cell (0, 0) is free; its north neighbor walls the shared edge, its
    // east neighbor opens it. The requested code must wall north (bit 1)
    // and open east (bit 2), whatever the rng draws.
    let mut rng = StdRand::seed(3);
    let mut index = ChunkIndex::new();
    index.insert(loaded_chunk(1, 0, px(144), 0x4));
    index.insert(loaded_chunk(2, px(144), 0, 0));
    for _ in 0..50 {
        let req = request_spawn(&index, &mut rng, 0, 0).unwrap().unwrap();
        assert_ne!(req.code & 0x1, 0, "north neighbor walls the shared edge");
        assert_eq!(req.code & 0x2, 0, "east neighbor opens the shared edge");
        assert!(req.code <= 14);
        assert_eq!((req.anchor.x, req.anchor.y), (0, 0));
    }
}

#[test]
fn all_neighbors_walled_toward_the_cell_is_fatal() {
    // Every loaded neighbor walls its edge toward cell (0, 0): the forced
    // code is 15, outside [0, 14] — the fatal consistency violation.
    let mut rng = StdRand::seed(1);
    let mut index = ChunkIndex::new();
    index.insert(loaded_chunk(1, 0, px(144), 0x4));
    index.insert(loaded_chunk(2, px(144), 0, 0x8));
    index.insert(loaded_chunk(3, 0, px(-144), 0x1));
    index.insert(loaded_chunk(4, px(-144), 0, 0x2));
    let r = request_spawn(&index, &mut rng, 0, 0);
    assert_eq!(r, Err(StreamError::WallCodeOutOfRange));
}
