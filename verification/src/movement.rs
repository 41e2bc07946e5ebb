//! The movement and collision resolver.
//!
//! Four boolean directional inputs combine into one of eight headings (or
//! none, for the empty or any conflicting combination); diagonals are scaled
//! by `FRAC_RSQRT2` per axis so diagonal speed equals cardinal speed. The
//! candidate position is the current one advanced by heading, speed and
//! elapsed time. The move commits only when the actor currently stands
//! inside a loaded chunk and both sensor points — the top-left and top-right
//! corners of the actor's box centered at the candidate — sample as empty in
//! the obstacle grid; otherwise the move is rejected whole. The facing flag
//! still follows the pressed keys even when the move is rejected.

use crate::coords::fx_mul;
use crate::coords::CHUNK_EDGE;
use crate::coords::COORD_LIMIT;
use crate::coords::FRAC_RSQRT2;
use crate::coords::FX_ONE;
use crate::coords::MAX_ELAPSED;
use crate::coords::MAX_SPEED;
use crate::coords::POS_LIMIT;
use crate::coords::WorldPoint;
use crate::grid::ObstacleGrid;
use crate::index::point_claimed;
use crate::index::Chunk;
use crate::index::ChunkIndex;
use vstd::prelude::*;

verus! {

/// The eight recognized movement headings.
#[derive(Clone, Copy, Debug, PartialEq, Eq, Structural)]
pub enum Heading {
    North,
    NorthEast,
    East,
    SouthEast,
    South,
    SouthWest,
    West,
    NorthWest,
}

/// Pressed state of the four directional inputs.
#[derive(Clone, Copy, Debug, PartialEq, Eq, Structural, Default)]
pub struct DirInput {
    pub up: bool,
    pub right: bool,
    pub down: bool,
    pub left: bool,
}

/// The heading of an input combination: one of the eight recognized
/// combinations, or `None` for the empty and every conflicting one.
pub open spec fn heading_of(i: DirInput) -> Option<Heading> {
    if i.up && !i.right && !i.down && !i.left {
        Some(Heading::North)
    } else if i.up && i.right && !i.down && !i.left {
        Some(Heading::NorthEast)
    } else if !i.up && i.right && !i.down && !i.left {
        Some(Heading::East)
    } else if !i.up && i.right && i.down && !i.left {
        Some(Heading::SouthEast)
    } else if !i.up && !i.right && i.down && !i.left {
        Some(Heading::South)
    } else if !i.up && !i.right && i.down && i.left {
        Some(Heading::SouthWest)
    } else if !i.up && !i.right && !i.down && i.left {
        Some(Heading::West)
    } else if i.up && !i.right && !i.down && i.left {
        Some(Heading::NorthWest)
    } else {
        None
    }
}

/// The facing flag after the inputs are read: any rightward combination
/// turns the actor unmirrored, any leftward one mirrored, everything else
/// leaves it as it was.
pub open spec fn facing_after(i: DirInput, mirrored: bool) -> bool {
    match heading_of(i) {
        Some(Heading::NorthEast) | Some(Heading::East) | Some(Heading::SouthEast) => false,
        Some(Heading::NorthWest) | Some(Heading::West) | Some(Heading::SouthWest) => true,
        _ => mirrored,
    }
}

/// Distance advanced along a cardinal axis: `speed * elapsed`, in subunits.
pub open spec fn step_units(speed: int, elapsed: int) -> int {
    (speed * elapsed) / (FX_ONE as int)
}

/// Distance advanced along each axis of a diagonal move: the cardinal step
/// scaled by the fixed-point factor `FRAC_RSQRT2`.
pub open spec fn diag_units(speed: int, elapsed: int) -> int {
    (step_units(speed, elapsed) * FRAC_RSQRT2) / (FX_ONE as int)
}

/// Horizontal displacement of a move with heading `h` (east positive).
pub open spec fn heading_dx(h: Heading, speed: int, elapsed: int) -> int {
    match h {
        Heading::North => 0,
        Heading::NorthEast => diag_units(speed, elapsed),
        Heading::East => step_units(speed, elapsed),
        Heading::SouthEast => diag_units(speed, elapsed),
        Heading::South => 0,
        Heading::SouthWest => -diag_units(speed, elapsed),
        Heading::West => -step_units(speed, elapsed),
        Heading::NorthWest => -diag_units(speed, elapsed),
    }
}

/// Vertical displacement of a move with heading `h` (north positive).
pub open spec fn heading_dy(h: Heading, speed: int, elapsed: int) -> int {
    match h {
        Heading::North => step_units(speed, elapsed),
        Heading::NorthEast => diag_units(speed, elapsed),
        Heading::East => 0,
        Heading::SouthEast => -diag_units(speed, elapsed),
        Heading::South => -step_units(speed, elapsed),
        Heading::SouthWest => -diag_units(speed, elapsed),
        Heading::West => 0,
        Heading::NorthWest => diag_units(speed, elapsed),
    }
}

/// The actor: a continuous position, a facing flag (true = mirrored,
/// facing left), and the half extents of its collision rectangle.
#[derive(Clone, Copy, Debug, PartialEq, Eq, Structural)]
pub struct Actor {
    pub pos: WorldPoint,
    pub mirrored: bool,
    pub half_width: i64,
    pub half_height: i64,
}

impl Actor {
    /// An actor the resolver accepts: position within the reachable world,
    /// half extents nonnegative and at most one chunk edge.
    pub open spec fn wf(self) -> bool {
        &&& -POS_LIMIT <= self.pos.x <= POS_LIMIT
        &&& -POS_LIMIT <= self.pos.y <= POS_LIMIT
        &&& 0 <= self.half_width <= CHUNK_EDGE
        &&& 0 <= self.half_height <= CHUNK_EDGE
    }
}

/// The heading encoded by the four inputs.
pub fn heading_from_input(i: DirInput) -> (r: Option<Heading>)
    ensures
        r == heading_of(i),
{
    match (i.up, i.right, i.down, i.left) {
        (true, false, false, false) => Some(Heading::North),
        (true, true, false, false) => Some(Heading::NorthEast),
        (false, true, false, false) => Some(Heading::East),
        (false, true, true, false) => Some(Heading::SouthEast),
        (false, false, true, false) => Some(Heading::South),
        (false, false, true, true) => Some(Heading::SouthWest),
        (false, false, false, true) => Some(Heading::West),
        (true, false, false, true) => Some(Heading::NorthWest),
        _ => None,
    }
}

/// One evaluation of the resolver. Reads the inputs, updates the facing
/// flag, advances the position by heading, speed and elapsed time, and
/// commits the move only when the actor stands in a loaded chunk and both
/// upper sensor corners of the candidate box are free of obstacles.
pub fn resolve_movement(
    actor: &mut Actor,
    input: DirInput,
    speed: i64,
    elapsed: i64,
    index: &ChunkIndex,
    grid: &ObstacleGrid,
)
    requires
        old(actor).wf(),
        0 <= speed <= MAX_SPEED,
        0 <= elapsed <= MAX_ELAPSED,
        index.wf(),
        grid.wf(),
    ensures
        final(actor).wf(),
        final(actor).half_width == old(actor).half_width,
        final(actor).half_height == old(actor).half_height,
        !point_claimed(index@, old(actor).pos.x as int, old(actor).pos.y as int) ==> *final(actor)
            == *old(actor),
        point_claimed(index@, old(actor).pos.x as int, old(actor).pos.y as int) ==> {
            &&& final(actor).mirrored == facing_after(input, old(actor).mirrored)
            &&& match heading_of(input) {
                None => final(actor).pos == old(actor).pos,
                Some(h) => {
                    let cx = old(actor).pos.x + heading_dx(h, speed as int, elapsed as int);
                    let cy = old(actor).pos.y + heading_dy(h, speed as int, elapsed as int);
                    if !grid.occupied(cx - old(actor).half_width, cy + old(actor).half_height)
                        && !grid.occupied(cx + old(actor).half_width, cy + old(
                        actor,
                    ).half_height) {
                        final(actor).pos.x == cx && final(actor).pos.y == cy
                    } else {
                        final(actor).pos == old(actor).pos
                    }
                },
            }
        },
{
    if !index.any_contains(actor.pos) {
        return ;
    }
    let h = match heading_from_input(input) {
        Some(h) => {
            match h {
                Heading::NorthEast | Heading::East | Heading::SouthEast => {
                    actor.mirrored = false;
                },
                Heading::NorthWest | Heading::West | Heading::SouthWest => {
                    actor.mirrored = true;
                },
                _ => {},
            }
            h
        },
        None => {
            return ;
        },
    };
    proof {
        vstd::arithmetic::mul::lemma_mul_upper_bound(
            speed as int,
            MAX_SPEED as int,
            elapsed as int,
            MAX_ELAPSED as int,
        );
    }
    let step = fx_mul(speed, elapsed);
    proof {
        vstd::arithmetic::div_mod::lemma_div_is_ordered(
            speed * elapsed,
            MAX_SPEED * MAX_ELAPSED,
            FX_ONE as int,
        );
        assert(step <= 0x4_0000_0000) by {
            assert(MAX_SPEED * MAX_ELAPSED / (FX_ONE as int) == 0x4_0000_0000);
        }
        vstd::arithmetic::mul::lemma_mul_upper_bound(
            step as int,
            0x4_0000_0000,
            FRAC_RSQRT2 as int,
            FRAC_RSQRT2 as int,
        );
    }
    let diag = fx_mul(step, FRAC_RSQRT2);
    proof {
        vstd::arithmetic::div_mod::lemma_div_is_ordered(
            step * FRAC_RSQRT2,
            0x4_0000_0000 * FRAC_RSQRT2,
            FX_ONE as int,
        );
        assert(diag <= 0x4_0000_0000) by {
            assert(0x4_0000_0000 * FRAC_RSQRT2 / (FX_ONE as int) <= 0x4_0000_0000);
        }
    }
    let (dx, dy): (i64, i64) = match h {
        Heading::North => (0, step),
        Heading::NorthEast => (diag, diag),
        Heading::East => (step, 0),
        Heading::SouthEast => (diag, -diag),
        Heading::South => (0, -step),
        Heading::SouthWest => (-diag, -diag),
        Heading::West => (-step, 0),
        Heading::NorthWest => (-diag, diag),
    };
    let cand = WorldPoint { x: actor.pos.x + dx, y: actor.pos.y + dy };
    let s1 = WorldPoint { x: cand.x - actor.half_width, y: cand.y + actor.half_height };
    let s2 = WorldPoint { x: cand.x + actor.half_width, y: cand.y + actor.half_height };
    let free1 = grid.grid_value_at(s1).is_none();
    let free2 = grid.grid_value_at(s2).is_none();
    if free1 && free2 {
        proof {
            lemma_claimed_position_bounded(
                index@,
                old(actor).pos.x as int,
                old(actor).pos.y as int,
            );
        }
        actor.pos = cand;
    }
}

/// A position inside some loaded chunk of a well-formed index is bounded by
/// the chunk origin bound plus one chunk edge.
proof fn lemma_claimed_position_bounded(s: Seq<Chunk>, x: int, y: int)
    requires
        point_claimed(s, x, y),
        forall|i: int| 0 <= i < s.len() ==> s[i].wf(),
    ensures
        -COORD_LIMIT <= x <= COORD_LIMIT + CHUNK_EDGE,
        -COORD_LIMIT <= y <= COORD_LIMIT + CHUNK_EDGE,
{
    let i = choose|i: int| 0 <= i < s.len() && s[i].claims(x, y);
    assert(s[i].wf());
}

} // verus!
