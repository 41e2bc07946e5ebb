//! The wall-code generator.
//!
//! A wall code is a 4-bit field, one bit per cardinal direction: a set bit
//! means a wall on that edge, a clear bit an opening. Code 0 (open on all
//! four sides) is reserved for the start chunk. A new chunk's code starts
//! from a uniform random draw in `[0, 14]`; for every direction whose
//! neighbor is already loaded, the corresponding bit is then forced to agree
//! with that neighbor's facing bit, so that shared edges always match.

use vstd::prelude::*;

verus! {

/// The four cardinal directions, each owning one bit of a wall code.
#[derive(Clone, Copy, Debug, PartialEq, Eq, Structural)]
pub enum Direction {
    North,
    East,
    South,
    West,
}

impl Direction {
    /// The wall-code bit owned by this direction.
    pub open spec fn spec_mask(self) -> u8 {
        match self {
            Direction::North => 0x1,
            Direction::East => 0x2,
            Direction::South => 0x4,
            Direction::West => 0x8,
        }
    }

    /// The wall-code bit owned by this direction.
    #[verifier::when_used_as_spec(spec_mask)]
    pub fn mask(self) -> (m: u8)
        ensures
            m == self.spec_mask(),
    {
        match self {
            Direction::North => 0x1,
            Direction::East => 0x2,
            Direction::South => 0x4,
            Direction::West => 0x8,
        }
    }

    /// The direction of the shared edge as seen from the other side.
    pub open spec fn spec_opposite(self) -> Direction {
        match self {
            Direction::North => Direction::South,
            Direction::East => Direction::West,
            Direction::South => Direction::North,
            Direction::West => Direction::East,
        }
    }

    /// The direction of the shared edge as seen from the other side.
    #[verifier::when_used_as_spec(spec_opposite)]
    pub fn opposite(self) -> (d: Direction)
        ensures
            d == self.spec_opposite(),
    {
        match self {
            Direction::North => Direction::South,
            Direction::East => Direction::West,
            Direction::South => Direction::North,
            Direction::West => Direction::East,
        }
    }
}

/// Whether `code` has a wall toward direction `d` (set bit = wall).
pub open spec fn has_wall(code: u8, d: Direction) -> bool {
    code & d.spec_mask() != 0
}

/// Whether `code` is open toward `d`: the executable test of one bit.
pub fn open_toward(code: u8, d: Direction) -> (r: bool)
    ensures
        r == !has_wall(code, d),
{
    code & d.mask() == 0
}

/// The wall codes of the up-to-four already-loaded neighbors of a cell;
/// `None` where no chunk is loaded in that direction.
#[derive(Clone, Copy, Debug)]
pub struct NeighborCodes {
    pub north: Option<u8>,
    pub east: Option<u8>,
    pub south: Option<u8>,
    pub west: Option<u8>,
}

impl NeighborCodes {
    /// The neighbor code in direction `d`.
    pub open spec fn get(self, d: Direction) -> Option<u8> {
        match d {
            Direction::North => self.north,
            Direction::East => self.east,
            Direction::South => self.south,
            Direction::West => self.west,
        }
    }

    /// No neighbor is loaded in any direction.
    pub open spec fn all_unknown(self) -> bool {
        self.north is None && self.east is None && self.south is None && self.west is None
    }
}

/// One forcing step: if the neighbor toward `d` is known, copy its facing
/// bit onto `code`'s bit for `d` (clear the bit when the neighbor is open,
/// set it when the neighbor is walled); otherwise leave `code` as it is.
pub open spec fn force_one(code: u8, neighbor: Option<u8>, d: Direction) -> u8 {
    match neighbor {
        Some(nc) => if nc & d.spec_opposite().spec_mask() == 0 {
            code & (d.spec_mask() ^ 0xF)
        } else {
            code | d.spec_mask()
        },
        None => code,
    }
}

/// The code the generator produces from random draw `draw` and the known
/// neighbors: each known direction's bit is forced, the rest keep the draw.
pub open spec fn forced_code(draw: u8, nbrs: NeighborCodes) -> u8 {
    force_one(
        force_one(
            force_one(force_one(draw, nbrs.north, Direction::North), nbrs.east, Direction::East),
            nbrs.south,
            Direction::South,
        ),
        nbrs.west,
        Direction::West,
    )
}

/// What the bit toward `d` of the forced code must be: the known neighbor's
/// facing bit where there is one, the draw's own bit otherwise.
pub open spec fn result_wall(draw: u8, nbrs: NeighborCodes, d: Direction) -> bool {
    match nbrs.get(d) {
        Some(nc) => has_wall(nc, d.spec_opposite()),
        None => has_wall(draw, d),
    }
}

/// One forcing step, executable.
fn apply_force(code: u8, neighbor: Option<u8>, d: Direction) -> (r: u8)
    ensures
        r == force_one(code, neighbor, d),
{
    match neighbor {
        Some(nc) => {
            if nc & d.opposite().mask() == 0 {
                code & (d.mask() ^ 0xF)
            } else {
                code | d.mask()
            }
        },
        None => code,
    }
}

/// Force the draw into agreement with every known neighbor. This is the
/// deterministic part of the generator, split out so that its behavior is
/// pinned for every possible draw.
pub fn force_code(draw: u8, nbrs: NeighborCodes) -> (r: u8)
    ensures
        r == forced_code(draw, nbrs),
{
    let c1 = apply_force(draw, nbrs.north, Direction::North);
    let c2 = apply_force(c1, nbrs.east, Direction::East);
    let c3 = apply_force(c2, nbrs.south, Direction::South);
    apply_force(c3, nbrs.west, Direction::West)
}

/// A forcing step toward `d` fixes `code`'s bit for `d` to the neighbor's
/// facing bit.
proof fn lemma_force_one_own_bit(code: u8, nc: u8, d: Direction)
    ensures
        has_wall(force_one(code, Some(nc), d), d) == has_wall(nc, d.spec_opposite()),
{
    let m = d.spec_mask();
    assert((code & (m ^ 0xF)) & m == 0 && (code | m) & m != 0) by (bit_vector)
        requires
            m == 1 || m == 2 || m == 4 || m == 8,
    ;
}

/// A forcing step toward `d` leaves the bit of every other direction alone.
proof fn lemma_force_one_other_bit(code: u8, neighbor: Option<u8>, d: Direction, o: Direction)
    requires
        o != d,
    ensures
        force_one(code, neighbor, d) & o.spec_mask() == code & o.spec_mask(),
{
    match neighbor {
        None => {},
        Some(nc) => {
            let m = d.spec_mask();
            let om = o.spec_mask();
            assert((code | m) & om == code & om && (code & (m ^ 0xF)) & om == code & om)
                by (bit_vector)
                requires
                    m == 1 || m == 2 || m == 4 || m == 8,
                    om == 1 || om == 2 || om == 4 || om == 8,
                    m != om,
            ;
        },
    }
}

/// Law: each bit of the generated code is exactly the known neighbor's
/// facing bit, or the draw's own bit where no neighbor is known — for any
/// draw and any combination of known neighbors.
pub proof fn lemma_forced_bit(draw: u8, nbrs: NeighborCodes, d: Direction)
    ensures
        has_wall(forced_code(draw, nbrs), d) == result_wall(draw, nbrs, d),
{
    let c1 = force_one(draw, nbrs.north, Direction::North);
    let c2 = force_one(c1, nbrs.east, Direction::East);
    let c3 = force_one(c2, nbrs.south, Direction::South);
    match d {
        Direction::North => {
            if let Some(nc) = nbrs.north {
                lemma_force_one_own_bit(draw, nc, Direction::North);
            }
            lemma_force_one_other_bit(c1, nbrs.east, Direction::East, d);
            lemma_force_one_other_bit(c2, nbrs.south, Direction::South, d);
            lemma_force_one_other_bit(c3, nbrs.west, Direction::West, d);
        },
        Direction::East => {
            if let Some(nc) = nbrs.east {
                lemma_force_one_own_bit(c1, nc, Direction::East);
            }
            lemma_force_one_other_bit(draw, nbrs.north, Direction::North, d);
            lemma_force_one_other_bit(c2, nbrs.south, Direction::South, d);
            lemma_force_one_other_bit(c3, nbrs.west, Direction::West, d);
        },
        Direction::South => {
            if let Some(nc) = nbrs.south {
                lemma_force_one_own_bit(c2, nc, Direction::South);
            }
            lemma_force_one_other_bit(draw, nbrs.north, Direction::North, d);
            lemma_force_one_other_bit(c1, nbrs.east, Direction::East, d);
            lemma_force_one_other_bit(c3, nbrs.west, Direction::West, d);
        },
        Direction::West => {
            if let Some(nc) = nbrs.west {
                lemma_force_one_own_bit(c3, nc, Direction::West);
            }
            lemma_force_one_other_bit(draw, nbrs.north, Direction::North, d);
            lemma_force_one_other_bit(c1, nbrs.east, Direction::East, d);
            lemma_force_one_other_bit(c2, nbrs.south, Direction::South, d);
        },
    }
}

/// Forcing keeps a 4-bit code 4-bit.
proof fn lemma_force_one_bound(code: u8, neighbor: Option<u8>, d: Direction)
    requires
        code < 16,
    ensures
        force_one(code, neighbor, d) < 16,
{
    match neighbor {
        None => {},
        Some(nc) => {
            let m = d.spec_mask();
            assert((code | m) < 16 && (code & (m ^ 0xF)) < 16) by (bit_vector)
                requires
                    code < 16,
                    m == 1 || m == 2 || m == 4 || m == 8,
            ;
        },
    }
}

/// The generated code is a 4-bit value whenever the draw is.
pub proof fn lemma_forced_code_bound(draw: u8, nbrs: NeighborCodes)
    requires
        draw < 16,
    ensures
        forced_code(draw, nbrs) < 16,
{
    let c1 = force_one(draw, nbrs.north, Direction::North);
    let c2 = force_one(c1, nbrs.east, Direction::East);
    let c3 = force_one(c2, nbrs.south, Direction::South);
    lemma_force_one_bound(draw, nbrs.north, Direction::North);
    lemma_force_one_bound(c1, nbrs.east, Direction::East);
    lemma_force_one_bound(c2, nbrs.south, Direction::South);
    lemma_force_one_bound(c3, nbrs.west, Direction::West);
}

/// A 4-bit code is the fully-walled code 15 exactly when all four wall bits
/// are set.
proof fn lemma_all_walls_is_fifteen(c: u8)
    requires
        c < 16,
    ensures
        (c == 15) <==> (c & 1 != 0 && c & 2 != 0 && c & 4 != 0 && c & 8 != 0),
{
    assert((c == 15) <==> (c & 1 != 0 && c & 2 != 0 && c & 4 != 0 && c & 8 != 0)) by (bit_vector)
        requires
            c < 16,
    ;
}

/// Law: a generated chunk agrees with every known neighbor on their shared
/// edge — open faces open and wall faces wall — whatever the draw and
/// whatever combination of neighbors is known.
pub proof fn lemma_shared_edges_agree(draw: u8, nbrs: NeighborCodes, d: Direction, nc: u8)
    requires
        nbrs.get(d) == Some(nc),
    ensures
        has_wall(forced_code(draw, nbrs), d) == has_wall(nc, d.spec_opposite()),
{
    lemma_forced_bit(draw, nbrs, d);
}

/// Law: with no known neighbor, the generator returns the draw unchanged;
/// since the draw is uniform over `[0, 14]`, so is the resulting code.
pub proof fn lemma_unconstrained_is_draw(draw: u8, nbrs: NeighborCodes)
    requires
        nbrs.all_unknown(),
    ensures
        forced_code(draw, nbrs) == draw,
{
}

/// Law: a draw below 15 stays below 15 unless the neighbors force a wall on
/// every side the draw did not already wall. The fully-walled code 15 comes
/// out exactly when every direction's resulting bit is a wall.
pub proof fn lemma_forced_full_wall_iff(draw: u8, nbrs: NeighborCodes)
    requires
        draw < 16,
    ensures
        forced_code(draw, nbrs) < 16,
        (forced_code(draw, nbrs) == 15) <==> (result_wall(draw, nbrs, Direction::North)
            && result_wall(draw, nbrs, Direction::East) && result_wall(
            draw,
            nbrs,
            Direction::South,
        ) && result_wall(draw, nbrs, Direction::West)),
{
    lemma_forced_code_bound(draw, nbrs);
    lemma_forced_bit(draw, nbrs, Direction::North);
    lemma_forced_bit(draw, nbrs, Direction::East);
    lemma_forced_bit(draw, nbrs, Direction::South);
    lemma_forced_bit(draw, nbrs, Direction::West);
    lemma_all_walls_is_fifteen(forced_code(draw, nbrs));
}

/// Law: the generated code never leaves `[0, 14]`, for every draw the
/// generator can make, on all inputs except those whose neighbors force a
/// wall on every side the draw did not already wall.
pub proof fn lemma_generated_in_range(draw: u8, nbrs: NeighborCodes)
    requires
        draw < 15,
        !(result_wall(draw, nbrs, Direction::North) && result_wall(draw, nbrs, Direction::East)
            && result_wall(draw, nbrs, Direction::South) && result_wall(
            draw,
            nbrs,
            Direction::West,
        )),
    ensures
        forced_code(draw, nbrs) <= 14,
{
    lemma_forced_full_wall_iff(draw, nbrs);
}

/// Law: a known neighbor whose facing edge is open forces the shared edge of
/// the generated code open, whatever the random draw was.
pub proof fn lemma_open_neighbor_forces_open(draw: u8, nbrs: NeighborCodes, d: Direction, nc: u8)
    requires
        nbrs.get(d) == Some(nc),
        !has_wall(nc, d.spec_opposite()),
    ensures
        !has_wall(forced_code(draw, nbrs), d),
        draw < 16 ==> forced_code(draw, nbrs) <= 14,
{
    lemma_forced_bit(draw, nbrs, d);
    if draw < 16 {
        lemma_forced_full_wall_iff(draw, nbrs);
    }
}

/// Draw a wall code for a new chunk. The draw is uniform over `[0, 14]`;
/// each direction with a known neighbor then has its bit forced to agree
/// with that neighbor, so shared edges always match.
pub fn generate(rng: &mut tinyrand::Wyrand, nbrs: NeighborCodes) -> (r: u8)
    ensures
        exists|draw: u8| draw < 15 && r == forced_code(draw, nbrs),
        r < 16,
        nbrs.north matches Some(nc) ==> has_wall(r, Direction::North) == has_wall(
            nc,
            Direction::South,
        ),
        nbrs.east matches Some(nc) ==> has_wall(r, Direction::East) == has_wall(
            nc,
            Direction::West,
        ),
        nbrs.south matches Some(nc) ==> has_wall(r, Direction::South) == has_wall(
            nc,
            Direction::North,
        ),
        nbrs.west matches Some(nc) ==> has_wall(r, Direction::West) == has_wall(
            nc,
            Direction::East,
        ),
        nbrs.all_unknown() ==> r < 15,
{
    let draw = crate::rng::next_below(rng, 15) as u8;
    let r = force_code(draw, nbrs);
    proof {
        lemma_forced_code_bound(draw, nbrs);
        lemma_forced_bit(draw, nbrs, Direction::North);
        lemma_forced_bit(draw, nbrs, Direction::East);
        lemma_forced_bit(draw, nbrs, Direction::South);
        lemma_forced_bit(draw, nbrs, Direction::West);
    }
    r
}

} // verus!
