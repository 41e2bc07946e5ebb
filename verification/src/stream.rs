//! The streaming controller.
//!
//! A two-state process. In `Loading` it waits for the start chunk's bounds
//! to become known; then it records that chunk as current, requests the
//! four cardinal neighbors of its cell, and moves to `Playing`. In
//! `Playing`, each evaluation looks up the chunk containing the actor: no
//! chunk is a normal, non-fatal condition; a chunk different from the
//! recorded one becomes the new current chunk, and a spawn request goes out
//! for each direction its wall code leaves open. Every spawn request first
//! checks — at the center of the target cell, since containment is
//! inclusive at edges — that no loaded chunk already occupies the cell,
//! then draws a wall code consistent with all four (up to) loaded
//! neighbors. A generated code outside `[0, 14]` is a fatal consistency
//! violation, reported as an error.

use crate::coords::floor_div;
use crate::coords::WorldPoint;
use crate::coords::CHUNK_EDGE;
use crate::coords::COORD_LIMIT;
use crate::index::claimant_index;
use crate::index::code_at_point;
use crate::index::loaded_index;
use crate::index::point_claimed;
use crate::index::Chunk;
use crate::index::ChunkIndex;
use crate::walls::forced_code;
use crate::walls::generate;
use crate::walls::has_wall;
use crate::walls::lemma_forced_full_wall_iff;
use crate::walls::lemma_unconstrained_is_draw;
use crate::walls::open_toward;
use crate::walls::Direction;
use crate::walls::NeighborCodes;
use vstd::prelude::*;

verus! {

/// Largest grid-cell coordinate the controller works with; cells of chunks
/// with well-formed origins lie strictly inside this bound.
pub const CELL_LIMIT: i64 = 0x80_0000;

/// The two states of the streaming controller.
#[derive(Clone, Copy, Debug, PartialEq, Eq, Structural)]
pub enum StreamState {
    Loading,
    Playing,
}

/// An intent to load a new chunk: the minimum corner of the target cell,
/// and the wall code the new chunk must carry.
#[derive(Clone, Copy, Debug, PartialEq, Eq, Structural)]
pub struct SpawnRequest {
    pub anchor: WorldPoint,
    pub code: u8,
}

/// A fatal consistency violation: the generated wall code left `[0, 14]`.
#[derive(Clone, Copy, Debug, PartialEq, Eq, Structural)]
pub enum StreamError {
    WallCodeOutOfRange,
}

/// Horizontal center of grid cell `cx`.
pub open spec fn cell_center_x(cx: int) -> int {
    cx * CHUNK_EDGE + CHUNK_EDGE / 2
}

/// Vertical center of grid cell `cy`.
pub open spec fn cell_center_y(cy: int) -> int {
    cy * CHUNK_EDGE + CHUNK_EDGE / 2
}

/// The grid cell one step from `(cx, cy)` in direction `d`.
pub open spec fn neighbor_cell(cx: int, cy: int, d: Direction) -> (int, int) {
    match d {
        Direction::North => (cx, cy + 1),
        Direction::East => (cx + 1, cy),
        Direction::South => (cx, cy - 1),
        Direction::West => (cx - 1, cy),
    }
}

/// Whether a loaded chunk already occupies the cell, sampled at the cell's
/// center.
pub open spec fn cell_occupied(s: Seq<Chunk>, cx: int, cy: int) -> bool {
    point_claimed(s, cell_center_x(cx), cell_center_y(cy))
}

/// The wall codes of the four neighbors of a cell, each sampled at the
/// neighbor cell's center; `None` where no loaded chunk is there.
pub open spec fn neighbor_codes_at(s: Seq<Chunk>, cx: int, cy: int) -> NeighborCodes {
    NeighborCodes {
        north: code_at_point(s, cell_center_x(cx), cell_center_y(cy + 1)),
        east: code_at_point(s, cell_center_x(cx + 1), cell_center_y(cy)),
        south: code_at_point(s, cell_center_x(cx), cell_center_y(cy - 1)),
        west: code_at_point(s, cell_center_x(cx - 1), cell_center_y(cy)),
    }
}

/// What a spawn request for cell `(cx, cy)` must look like given the
/// chunks `s`: anchored at the cell's minimum corner, a code in `[0, 14]`
/// the generator could have drawn there, agreeing with every loaded
/// neighbor on the shared edge.
pub open spec fn good_request(s: Seq<Chunk>, cx: int, cy: int, req: SpawnRequest) -> bool {
    let nbrs = neighbor_codes_at(s, cx, cy);
    &&& req.anchor.x == cx * CHUNK_EDGE
    &&& req.anchor.y == cy * CHUNK_EDGE
    &&& req.code <= 14
    &&& exists|draw: u8| draw < 15 && req.code == forced_code(draw, nbrs)
    &&& (nbrs.north matches Some(v) ==> has_wall(req.code, Direction::North) == has_wall(
        v,
        Direction::South,
    ))
    &&& (nbrs.east matches Some(v) ==> has_wall(req.code, Direction::East) == has_wall(
        v,
        Direction::West,
    ))
    &&& (nbrs.south matches Some(v) ==> has_wall(req.code, Direction::South) == has_wall(
        v,
        Direction::North,
    ))
    &&& (nbrs.west matches Some(v) ==> has_wall(req.code, Direction::West) == has_wall(
        v,
        Direction::East,
    ))
}

/// The one situation in which the generator can be forced to the
/// fully-walled code 15 at a cell: at least one neighbor is loaded and
/// every loaded neighbor is walled toward the cell.
pub open spec fn spawn_may_fail(s: Seq<Chunk>, cx: int, cy: int) -> bool {
    let nbrs = neighbor_codes_at(s, cx, cy);
    &&& !nbrs.all_unknown()
    &&& (nbrs.north matches Some(v) ==> has_wall(v, Direction::South))
    &&& (nbrs.east matches Some(v) ==> has_wall(v, Direction::West))
    &&& (nbrs.south matches Some(v) ==> has_wall(v, Direction::North))
    &&& (nbrs.west matches Some(v) ==> has_wall(v, Direction::East))
}

/// The neighbor cell of `(cx, cy)` in direction `d`, as a one-element
/// target list when `code` is open toward `d` and no loaded chunk occupies
/// that cell; empty otherwise.
pub open spec fn maybe_target(s: Seq<Chunk>, cx: int, cy: int, code: u8, d: Direction) -> Seq<
    (int, int),
> {
    let t = neighbor_cell(cx, cy, d);
    if !has_wall(code, d) && !cell_occupied(s, t.0, t.1) {
        seq![t]
    } else {
        Seq::empty()
    }
}

/// The cells the controller requests around cell `(cx, cy)` whose chunk
/// carries wall code `code`: the open, unoccupied neighbor cells, in
/// north, east, south, west order.
pub open spec fn spawn_targets(s: Seq<Chunk>, cx: int, cy: int, code: u8) -> Seq<(int, int)> {
    maybe_target(s, cx, cy, code, Direction::North) + maybe_target(
        s,
        cx,
        cy,
        code,
        Direction::East,
    ) + maybe_target(s, cx, cy, code, Direction::South) + maybe_target(
        s,
        cx,
        cy,
        code,
        Direction::West,
    )
}

/// How an evaluation's result relates to one cell's spawn targets: on
/// success, one well-formed request per target, in order; on failure, some
/// open unoccupied neighbor cell whose own loaded neighbors could force
/// the fully-walled code.
pub open spec fn requests_match(
    s: Seq<Chunk>,
    cx: int,
    cy: int,
    code: u8,
    r: Result<Vec<SpawnRequest>, StreamError>,
) -> bool {
    match r {
        Ok(v) => {
            let ts = spawn_targets(s, cx, cy, code);
            &&& v@.len() == ts.len()
            &&& forall|k: int|
                0 <= k < ts.len() ==> good_request(s, ts[k].0, ts[k].1, #[trigger] v@[k])
        },
        Err(e) => {
            &&& e == StreamError::WallCodeOutOfRange
            &&& exists|d: Direction|
                #![auto]
                {
                    &&& !has_wall(code, d)
                    &&& !cell_occupied(s, neighbor_cell(cx, cy, d).0, neighbor_cell(cx, cy, d).1)
                    &&& spawn_may_fail(s, neighbor_cell(cx, cy, d).0, neighbor_cell(cx, cy, d).1)
                }
        },
    }
}

/// Horizontal grid cell of a chunk, judged by its center point.
pub open spec fn chunk_cell_x(c: Chunk) -> int {
    (c.origin.x + CHUNK_EDGE / 2) / (CHUNK_EDGE as int)
}

/// Vertical grid cell of a chunk, judged by its center point.
pub open spec fn chunk_cell_y(c: Chunk) -> int {
    (c.origin.y + CHUNK_EDGE / 2) / (CHUNK_EDGE as int)
}

/// The center point of a grid cell.
fn cell_center(cx: i64, cy: i64) -> (p: WorldPoint)
    requires
        -CELL_LIMIT - 1 <= cx <= CELL_LIMIT + 1,
        -CELL_LIMIT - 1 <= cy <= CELL_LIMIT + 1,
    ensures
        p.x == cell_center_x(cx as int),
        p.y == cell_center_y(cy as int),
{
    WorldPoint { x: cx * CHUNK_EDGE + CHUNK_EDGE / 2, y: cy * CHUNK_EDGE + CHUNK_EDGE / 2 }
}

/// The grid cell a chunk occupies, judged by its center point.
fn chunk_cell(c: &Chunk) -> (r: (i64, i64))
    requires
        c.wf(),
    ensures
        r.0 == chunk_cell_x(*c),
        r.1 == chunk_cell_y(*c),
        -CELL_LIMIT < r.0 < CELL_LIMIT,
        -CELL_LIMIT < r.1 < CELL_LIMIT,
{
    let x = floor_div(c.origin.x + CHUNK_EDGE / 2, CHUNK_EDGE);
    let y = floor_div(c.origin.y + CHUNK_EDGE / 2, CHUNK_EDGE);
    proof {
        vstd::arithmetic::div_mod::lemma_div_is_ordered(
            c.origin.x + CHUNK_EDGE / 2,
            COORD_LIMIT + CHUNK_EDGE / 2,
            CHUNK_EDGE as int,
        );
        vstd::arithmetic::div_mod::lemma_div_is_ordered(
            -COORD_LIMIT as int,
            c.origin.x + CHUNK_EDGE / 2,
            CHUNK_EDGE as int,
        );
        vstd::arithmetic::div_mod::lemma_div_is_ordered(
            c.origin.y + CHUNK_EDGE / 2,
            COORD_LIMIT + CHUNK_EDGE / 2,
            CHUNK_EDGE as int,
        );
        vstd::arithmetic::div_mod::lemma_div_is_ordered(
            -COORD_LIMIT as int,
            c.origin.y + CHUNK_EDGE / 2,
            CHUNK_EDGE as int,
        );
    }
    (x, y)
}

/// Handle one spawn request aimed at cell `(cx, cy)`: no-op when a loaded
/// chunk already occupies the cell; otherwise draw a wall code consistent
/// with the cell's loaded neighbors. A code outside `[0, 14]` — possible
/// only when every loaded neighbor is walled toward the cell — is the
/// fatal consistency violation.
pub fn request_spawn(index: &ChunkIndex, rng: &mut tinyrand::Wyrand, cx: i64, cy: i64) -> (r:
    Result<Option<SpawnRequest>, StreamError>)
    requires
        index.wf(),
        -CELL_LIMIT <= cx <= CELL_LIMIT,
        -CELL_LIMIT <= cy <= CELL_LIMIT,
    ensures
        match r {
            Ok(opt) => match opt {
                None => cell_occupied(index@, cx as int, cy as int),
                Some(req) => !cell_occupied(index@, cx as int, cy as int) && good_request(
                    index@,
                    cx as int,
                    cy as int,
                    req,
                ),
            },
            Err(e) => {
                &&& !cell_occupied(index@, cx as int, cy as int)
                &&& spawn_may_fail(index@, cx as int, cy as int)
                &&& e == StreamError::WallCodeOutOfRange
            },
        },
{
    let center = cell_center(cx, cy);
    if index.any_contains(center) {
        return Ok(None);
    }
    let north = index.code_at(cell_center(cx, cy + 1));
    let east = index.code_at(cell_center(cx + 1, cy));
    let south = index.code_at(cell_center(cx, cy - 1));
    let west = index.code_at(cell_center(cx - 1, cy));
    let nbrs = NeighborCodes { north, east, south, west };
    proof {
        assert(nbrs == neighbor_codes_at(index@, cx as int, cy as int));
    }
    let code = generate(rng, nbrs);
    if code <= 14 {
        Ok(Some(SpawnRequest { anchor: WorldPoint { x: cx * CHUNK_EDGE, y: cy * CHUNK_EDGE }, code }))
    } else {
        proof {
            let draw = choose|draw: u8| draw < 15 && code == forced_code(draw, nbrs);
            lemma_forced_full_wall_iff(draw, nbrs);
            if nbrs.all_unknown() {
                lemma_unconstrained_is_draw(draw, nbrs);
            }
        }
        Err(StreamError::WallCodeOutOfRange)
    }
}

/// Issue the spawn request toward `d` if `code` is open that way, and
/// append the resulting request, if any, to `out`.
fn push_dir(
    out: &mut Vec<SpawnRequest>,
    index: &ChunkIndex,
    rng: &mut tinyrand::Wyrand,
    cx: i64,
    cy: i64,
    code: u8,
    d: Direction,
) -> (r: Result<(), StreamError>)
    requires
        index.wf(),
        -CELL_LIMIT < cx < CELL_LIMIT,
        -CELL_LIMIT < cy < CELL_LIMIT,
    ensures
        match r {
            Ok(u) => {
                let mt = maybe_target(index@, cx as int, cy as int, code, d);
                &&& final(out)@.len() == old(out)@.len() + mt.len()
                &&& forall|i: int| 0 <= i < old(out)@.len() ==> final(out)@[i] == old(out)@[i]
                &&& (mt.len() == 1 ==> good_request(
                    index@,
                    mt[0].0,
                    mt[0].1,
                    final(out)@[old(out)@.len() as int],
                ))
            },
            Err(e) => {
                &&& *final(out) == *old(out)
                &&& e == StreamError::WallCodeOutOfRange
                &&& !has_wall(code, d)
                &&& !cell_occupied(
                    index@,
                    neighbor_cell(cx as int, cy as int, d).0,
                    neighbor_cell(cx as int, cy as int, d).1,
                )
                &&& spawn_may_fail(
                    index@,
                    neighbor_cell(cx as int, cy as int, d).0,
                    neighbor_cell(cx as int, cy as int, d).1,
                )
            },
        },
{
    if open_toward(code, d) {
        let (tx, ty): (i64, i64) = match d {
            Direction::North => (cx, cy + 1),
            Direction::East => (cx + 1, cy),
            Direction::South => (cx, cy - 1),
            Direction::West => (cx - 1, cy),
        };
        match request_spawn(index, rng, tx, ty) {
            Ok(Some(req)) => {
                out.push(req);
            },
            Ok(None) => {},
            Err(e) => {
                return Err(e);
            },
        }
    }
    Ok(())
}

/// Issue one spawn request for each open, unoccupied neighbor of cell
/// `(cx, cy)`, in north, east, south, west order.
fn spawn_around(
    index: &ChunkIndex,
    rng: &mut tinyrand::Wyrand,
    cx: i64,
    cy: i64,
    code: u8,
) -> (r: Result<Vec<SpawnRequest>, StreamError>)
    requires
        index.wf(),
        -CELL_LIMIT < cx < CELL_LIMIT,
        -CELL_LIMIT < cy < CELL_LIMIT,
    ensures
        requests_match(index@, cx as int, cy as int, code, r),
{
    let ghost s = index@;
    let ghost cxi = cx as int;
    let ghost cyi = cy as int;
    let ghost mtn = maybe_target(s, cxi, cyi, code, Direction::North);
    let ghost mte = maybe_target(s, cxi, cyi, code, Direction::East);
    let ghost mts = maybe_target(s, cxi, cyi, code, Direction::South);
    let ghost mtw = maybe_target(s, cxi, cyi, code, Direction::West);
    let mut out: Vec<SpawnRequest> = Vec::new();
    if let Err(e) = push_dir(&mut out, index, rng, cx, cy, code, Direction::North) {
        return Err(e);
    }
    let ghost o1 = out@;
    if let Err(e) = push_dir(&mut out, index, rng, cx, cy, code, Direction::East) {
        return Err(e);
    }
    let ghost o2 = out@;
    if let Err(e) = push_dir(&mut out, index, rng, cx, cy, code, Direction::South) {
        return Err(e);
    }
    let ghost o3 = out@;
    if let Err(e) = push_dir(&mut out, index, rng, cx, cy, code, Direction::West) {
        return Err(e);
    }
    proof {
        let ts = spawn_targets(s, cxi, cyi, code);
        assert(ts == mtn + mte + mts + mtw);
        assert(out@.len() == ts.len());
        assert forall|k: int| 0 <= k < ts.len() implies good_request(
            s,
            ts[k].0,
            ts[k].1,
            out@[k],
        ) by {
            if k < mtn.len() {
                assert(ts[k] == mtn[0]);
                assert(out@[k] == o1[k]);
            } else if k < mtn.len() + mte.len() {
                assert(ts[k] == mte[0]);
                assert(out@[k] == o2[k]);
            } else if k < mtn.len() + mte.len() + mts.len() {
                assert(ts[k] == mts[0]);
                assert(out@[k] == o3[k]);
            } else {
                assert(ts[k] == mtw[0]);
            }
        }
    }
    Ok(out)
}

/// The streaming controller: its state, the chunk the actor was last seen
/// in, and the id of the start chunk it waits for while loading.
#[derive(Clone, Copy, Debug)]
pub struct Controller {
    pub state: StreamState,
    pub current_chunk: Option<u64>,
    pub start_id: u64,
}

impl Controller {
    /// A controller waiting for the start chunk to load.
    pub fn new(start_id: u64) -> (r: Controller)
        ensures
            r.state == StreamState::Loading,
            r.current_chunk is None,
            r.start_id == start_id,
    {
        Controller { state: StreamState::Loading, current_chunk: None, start_id }
    }

    /// One evaluation of the controller.
    ///
    /// In `Loading`: once the start chunk's bounds are known, record it as
    /// current, request all four cardinal neighbors of its cell (its code
    /// is 0, open on all sides), and move to `Playing`. In `Playing`: look
    /// up the chunk containing the actor; none is a no-op (the actor is
    /// briefly in space while a chunk loads); a chunk other than the
    /// recorded one becomes current, and each direction its wall code
    /// leaves open gets a spawn request, deduplicated against loaded
    /// chunks. The error reports a generated wall code outside `[0, 14]`.
    pub fn tick(
        &mut self,
        actor_pos: WorldPoint,
        index: &ChunkIndex,
        rng: &mut tinyrand::Wyrand,
    ) -> (r: Result<Vec<SpawnRequest>, StreamError>)
        requires
            index.wf(),
        ensures
            final(self).start_id == old(self).start_id,
            match old(self).state {
                StreamState::Loading => match loaded_index(index@, old(self).start_id) {
                    None => *final(self) == *old(self) && (r matches Ok(v) && v@.len() == 0),
                    Some(i) => {
                        &&& final(self).state == StreamState::Playing
                        &&& final(self).current_chunk == Some(old(self).start_id)
                        &&& requests_match(
                            index@,
                            chunk_cell_x(index@[i]),
                            chunk_cell_y(index@[i]),
                            0u8,
                            r,
                        )
                    },
                },
                StreamState::Playing => match claimant_index(
                    index@,
                    actor_pos.x as int,
                    actor_pos.y as int,
                ) {
                    None => *final(self) == *old(self) && (r matches Ok(v) && v@.len() == 0),
                    Some(i) => {
                        if old(self).current_chunk == Some(index@[i].id) {
                            *final(self) == *old(self) && (r matches Ok(v) && v@.len() == 0)
                        } else {
                            &&& final(self).state == StreamState::Playing
                            &&& final(self).current_chunk == Some(index@[i].id)
                            &&& requests_match(
                                index@,
                                chunk_cell_x(index@[i]),
                                chunk_cell_y(index@[i]),
                                index@[i].code,
                                r,
                            )
                        }
                    },
                },
            },
    {
        match self.state {
            StreamState::Loading => {
                match index.find_loaded(self.start_id) {
                    None => Ok(Vec::new()),
                    Some(i) => {
                        let c = index.get(i);
                        self.current_chunk = Some(self.start_id);
                        self.state = StreamState::Playing;
                        let cell = chunk_cell(&c);
                        spawn_around(index, rng, cell.0, cell.1, 0)
                    },
                }
            },
            StreamState::Playing => {
                match index.chunk_at(actor_pos) {
                    None => Ok(Vec::new()),
                    Some(i) => {
                        let c = index.get(i);
                        let same = match self.current_chunk {
                            Some(id) => id == c.id,
                            None => false,
                        };
                        if same {
                            Ok(Vec::new())
                        } else {
                            self.current_chunk = Some(c.id);
                            let cell = chunk_cell(&c);
                            spawn_around(index, rng, cell.0, cell.1, c.code)
                        }
                    },
                }
            },
        }
    }
}

} // verus!
