//! The chunk bounds index: the world-space rectangle of every chunk that has
//! been requested, and containment queries over the ones whose bounds are
//! already known.
//!
//! Containment is inclusive on all four edges, so a point exactly on a
//! shared edge lies in both neighbors; queries break the tie
//! deterministically by returning the earliest inserted match.

use crate::coords::CHUNK_EDGE;
use crate::coords::COORD_LIMIT;
use crate::coords::WorldPoint;
use vstd::prelude::*;

verus! {

/// Load state of a chunk: requested chunks are invisible to the index's
/// queries until the asset collaborator reports their bounds.
#[derive(Clone, Copy, Debug, PartialEq, Eq, Structural)]
pub enum LoadState {
    Requested,
    BoundsKnown,
}

/// One chunk: a stable id, the minimum corner of its square rectangle (every
/// chunk has edge `CHUNK_EDGE`), its 4-bit wall code, and its load state.
#[derive(Clone, Copy, Debug, PartialEq, Eq, Structural)]
pub struct Chunk {
    pub id: u64,
    pub origin: WorldPoint,
    pub code: u8,
    pub state: LoadState,
}

impl Chunk {
    /// A chunk the index accepts: a bounded origin and a 4-bit wall code.
    pub open spec fn wf(self) -> bool {
        &&& -COORD_LIMIT <= self.origin.x <= COORD_LIMIT
        &&& -COORD_LIMIT <= self.origin.y <= COORD_LIMIT
        &&& self.code < 16
    }

    /// Whether the chunk's rectangle contains the point, inclusively on all
    /// four edges.
    pub open spec fn spec_contains(self, x: int, y: int) -> bool {
        &&& self.origin.x <= x <= self.origin.x + CHUNK_EDGE
        &&& self.origin.y <= y <= self.origin.y + CHUNK_EDGE
    }

    /// Whether the chunk is visible to queries and contains the point.
    pub open spec fn claims(self, x: int, y: int) -> bool {
        self.state == LoadState::BoundsKnown && self.spec_contains(x, y)
    }

    /// Inclusive containment test.
    pub fn contains(&self, p: WorldPoint) -> (r: bool)
        requires
            self.wf(),
        ensures
            r == self.spec_contains(p.x as int, p.y as int),
    {
        self.origin.x <= p.x && p.x <= self.origin.x + CHUNK_EDGE && self.origin.y <= p.y && p.y
            <= self.origin.y + CHUNK_EDGE
    }
}

/// Index of the earliest inserted chunk with known bounds whose rectangle
/// contains the point, if any.
pub open spec fn claimant_index(s: Seq<Chunk>, x: int, y: int) -> Option<int>
    decreases s.len(),
{
    if s.len() == 0 {
        None
    } else if s[0].claims(x, y) {
        Some(0int)
    } else {
        match claimant_index(s.drop_first(), x, y) {
            Some(i) => Some(i + 1),
            None => None,
        }
    }
}

/// The wall code of the chunk that claims the point, if any.
pub open spec fn code_at_point(s: Seq<Chunk>, x: int, y: int) -> Option<u8> {
    match claimant_index(s, x, y) {
        Some(i) => Some(s[i].code),
        None => None,
    }
}

/// Whether some chunk with known bounds contains the point.
pub open spec fn point_claimed(s: Seq<Chunk>, x: int, y: int) -> bool {
    exists|i: int| 0 <= i < s.len() && s[i].claims(x, y)
}

/// `claimant_index` returns exactly the first chunk that claims the point:
/// a claiming chunk at the returned position, none before it, and `None`
/// only when no chunk claims the point at all.
pub proof fn lemma_claimant_index_is_first(s: Seq<Chunk>, x: int, y: int)
    ensures
        match claimant_index(s, x, y) {
            Some(i) => {
                &&& 0 <= i < s.len()
                &&& s[i].claims(x, y)
                &&& forall|j: int| 0 <= j < i ==> !s[j].claims(x, y)
            },
            None => forall|j: int| 0 <= j < s.len() ==> !s[j].claims(x, y),
        },
    decreases s.len(),
{
    if s.len() > 0 && !s[0].claims(x, y) {
        let rest = s.drop_first();
        lemma_claimant_index_is_first(rest, x, y);
        match claimant_index(rest, x, y) {
            Some(i) => {
                assert(s[i + 1] == rest[i]);
                assert forall|j: int| 0 <= j < i + 1 implies !s[j].claims(x, y) by {
                    if j > 0 {
                        assert(s[j] == rest[j - 1]);
                    }
                }
            },
            None => {
                assert forall|j: int| 0 <= j < s.len() implies !s[j].claims(x, y) by {
                    if j > 0 {
                        assert(s[j] == rest[j - 1]);
                    }
                }
            },
        }
    }
}

/// When the first `k` chunks claim nothing, the claimant of the whole
/// sequence is the claimant of the rest, shifted by `k`.
proof fn lemma_claimant_index_skip(s: Seq<Chunk>, x: int, y: int, k: int)
    requires
        0 <= k <= s.len(),
        forall|j: int| 0 <= j < k ==> !s[j].claims(x, y),
    ensures
        claimant_index(s, x, y) == match claimant_index(s.skip(k), x, y) {
            Some(i) => Some(i + k),
            None => None::<int>,
        },
    decreases k,
{
    if k == 0 {
        assert(s.skip(0) =~= s);
    } else {
        assert(s.drop_first() =~= s.skip(1));
        lemma_claimant_index_skip(s.drop_first(), x, y, k - 1);
        assert(s.drop_first().skip(k - 1) =~= s.skip(k));
    }
}

/// Index of the earliest inserted chunk with the given id whose bounds are
/// known, if any.
pub open spec fn loaded_index(s: Seq<Chunk>, id: u64) -> Option<int>
    decreases s.len(),
{
    if s.len() == 0 {
        None
    } else if s[0].id == id && s[0].state == LoadState::BoundsKnown {
        Some(0int)
    } else {
        match loaded_index(s.drop_first(), id) {
            Some(i) => Some(i + 1),
            None => None,
        }
    }
}

/// When none of the first `k` chunks is the loaded chunk with the given id,
/// the search over the whole sequence is the search over the rest, shifted.
proof fn lemma_loaded_index_skip(s: Seq<Chunk>, id: u64, k: int)
    requires
        0 <= k <= s.len(),
        forall|j: int|
            0 <= j < k ==> !(s[j].id == id && s[j].state == LoadState::BoundsKnown),
    ensures
        loaded_index(s, id) == match loaded_index(s.skip(k), id) {
            Some(i) => Some(i + k),
            None => None::<int>,
        },
    decreases k,
{
    if k == 0 {
        assert(s.skip(0) =~= s);
    } else {
        assert(s.drop_first() =~= s.skip(1));
        lemma_loaded_index_skip(s.drop_first(), id, k - 1);
        assert(s.drop_first().skip(k - 1) =~= s.skip(k));
    }
}

/// The chunk bounds index itself: every requested chunk, in insertion order.
#[derive(Debug)]
pub struct ChunkIndex {
    chunks: Vec<Chunk>,
}

impl View for ChunkIndex {
    type V = Seq<Chunk>;

    closed spec fn view(&self) -> Seq<Chunk> {
        self.chunks@
    }
}

impl ChunkIndex {
    /// Every chunk held is well formed.
    pub open spec fn wf(self) -> bool {
        forall|i: int| 0 <= i < self@.len() ==> self@[i].wf()
    }

    /// An empty index.
    pub fn new() -> (r: ChunkIndex)
        ensures
            r@ == Seq::<Chunk>::empty(),
            r.wf(),
    {
        ChunkIndex { chunks: Vec::new() }
    }

    /// Number of chunks held (requested ones included).
    pub fn len(&self) -> (n: usize)
        ensures
            n == self@.len(),
    {
        self.chunks.len()
    }

    /// The chunk at insertion position `i`.
    pub fn get(&self, i: usize) -> (c: Chunk)
        requires
            i < self@.len(),
        ensures
            c == self@[i as int],
    {
        self.chunks[i]
    }

    /// Record a chunk. Bounds become queryable only once its state says so.
    pub fn insert(&mut self, c: Chunk)
        requires
            old(self).wf(),
            c.wf(),
        ensures
            final(self)@ == old(self)@.push(c),
            final(self).wf(),
    {
        self.chunks.push(c);
        proof {
            assert forall|i: int| 0 <= i < self@.len() implies self@[i].wf() by {
                if i < old(self)@.len() {
                } else {
                    assert(self@[i] == c);
                }
            }
        }
    }

    /// Make the chunks with the given id visible to queries: the asset
    /// collaborator reports, out of band, that their bounds are now known.
    pub fn set_bounds_known(&mut self, id: u64)
        requires
            old(self).wf(),
        ensures
            final(self)@.len() == old(self)@.len(),
            forall|i: int|
                0 <= i < old(self)@.len() ==> final(self)@[i] == (if old(self)@[i].id == id {
                    Chunk { state: LoadState::BoundsKnown, ..old(self)@[i] }
                } else {
                    old(self)@[i]
                }),
            final(self).wf(),
    {
        let n = self.chunks.len();
        let mut k: usize = 0;
        while k < n
            invariant
                n == self.chunks.len(),
                k <= n,
                self@.len() == old(self)@.len(),
                forall|i: int|
                    0 <= i < k ==> self@[i] == (if old(self)@[i].id == id {
                        Chunk { state: LoadState::BoundsKnown, ..old(self)@[i] }
                    } else {
                        old(self)@[i]
                    }),
                forall|i: int| k <= i < n ==> self@[i] == old(self)@[i],
            decreases n - k,
        {
            if self.chunks[k].id == id {
                let mut c = self.chunks[k];
                c.state = LoadState::BoundsKnown;
                self.chunks[k] = c;
            }
            k = k + 1;
        }
        assert forall|i: int| 0 <= i < final(self)@.len() implies final(self)@[i].wf() by {}
    }

    /// The chunk containing the point, if any: the earliest inserted chunk
    /// with known bounds whose rectangle (inclusive on all edges) holds it.
    pub fn chunk_at(&self, p: WorldPoint) -> (r: Option<usize>)
        requires
            self.wf(),
        ensures
            claimant_index(self@, p.x as int, p.y as int) == match r {
                Some(i) => Some(i as int),
                None => None::<int>,
            },
            r matches Some(i) ==> i < self@.len(),
    {
        let n = self.chunks.len();
        let mut k: usize = 0;
        while k < n
            invariant
                self.wf(),
                n == self@.len(),
                k <= n,
                forall|j: int| 0 <= j < k ==> !self@[j].claims(p.x as int, p.y as int),
            decreases n - k,
        {
            let c = self.chunks[k];
            if matches!(c.state, LoadState::BoundsKnown) && c.contains(p) {
                proof {
                    lemma_claimant_index_skip(self@, p.x as int, p.y as int, k as int);
                    assert(self@.skip(k as int)[0] == self@[k as int]);
                }
                return Some(k);
            }
            k = k + 1;
        }
        proof {
            lemma_claimant_index_skip(self@, p.x as int, p.y as int, n as int);
            assert(self@.skip(n as int).len() == 0);
        }
        None
    }

    /// The earliest inserted chunk with the given id whose bounds are known.
    pub fn find_loaded(&self, id: u64) -> (r: Option<usize>)
        ensures
            loaded_index(self@, id) == match r {
                Some(i) => Some(i as int),
                None => None::<int>,
            },
            r matches Some(i) ==> i < self@.len(),
    {
        let n = self.chunks.len();
        let mut k: usize = 0;
        while k < n
            invariant
                n == self@.len(),
                k <= n,
                forall|j: int|
                    0 <= j < k ==> !(self@[j].id == id && self@[j].state
                        == LoadState::BoundsKnown),
            decreases n - k,
        {
            let c = self.chunks[k];
            if c.id == id && matches!(c.state, LoadState::BoundsKnown) {
                proof {
                    lemma_loaded_index_skip(self@, id, k as int);
                    assert(self@.skip(k as int)[0] == self@[k as int]);
                }
                return Some(k);
            }
            k = k + 1;
        }
        proof {
            lemma_loaded_index_skip(self@, id, n as int);
            assert(self@.skip(n as int).len() == 0);
        }
        None
    }

    /// Whether any chunk with known bounds contains the point.
    pub fn any_contains(&self, p: WorldPoint) -> (r: bool)
        requires
            self.wf(),
        ensures
            r == point_claimed(self@, p.x as int, p.y as int),
    {
        let r = self.chunk_at(p);
        proof {
            lemma_claimant_index_is_first(self@, p.x as int, p.y as int);
        }
        r.is_some()
    }

    /// The wall code of the chunk containing the point, if any.
    pub fn code_at(&self, p: WorldPoint) -> (r: Option<u8>)
        requires
            self.wf(),
        ensures
            r == code_at_point(self@, p.x as int, p.y as int),
    {
        match self.chunk_at(p) {
            Some(i) => Some(self.chunks[i].code),
            None => None,
        }
    }
}

} // verus!
