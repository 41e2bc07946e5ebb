//! The per-cell obstacle grid.
//!
//! A sparse mapping from integer grid cells (square cells of a configurable
//! edge, in fixed-point subunits) to an occupancy value, queried by world
//! point. The level-data collaborator owns and fills it; the movement
//! resolver only reads it. A cell with no recorded value is passable.

use crate::coords::cell_index;
use crate::coords::cell_of;
use crate::coords::WorldPoint;
use vstd::prelude::*;

verus! {

/// Occupancy value lookup over recorded `(cell x, cell y, value)` entries:
/// the latest recorded entry for a cell wins.
pub open spec fn cell_lookup(s: Seq<(i64, i64, u8)>, cx: int, cy: int) -> Option<u8>
    decreases s.len(),
{
    if s.len() == 0 {
        None
    } else if s.last().0 == cx && s.last().1 == cy {
        Some(s.last().2)
    } else {
        cell_lookup(s.drop_last(), cx, cy)
    }
}

/// The obstacle grid: cell edge length and the recorded cells.
#[derive(Debug)]
pub struct ObstacleGrid {
    cell_size: i64,
    cells: Vec<(i64, i64, u8)>,
}

impl ObstacleGrid {
    /// Edge length of one grid cell, in fixed-point subunits.
    pub closed spec fn spec_cell_size(self) -> int {
        self.cell_size as int
    }

    /// The recorded cells, in recording order.
    pub closed spec fn spec_cells(self) -> Seq<(i64, i64, u8)> {
        self.cells@
    }

    /// A usable grid has a positive cell edge.
    pub open spec fn wf(self) -> bool {
        0 < self.spec_cell_size()
    }

    /// The occupancy value recorded for the cell containing the point.
    pub open spec fn value_at(self, x: int, y: int) -> Option<u8> {
        cell_lookup(
            self.spec_cells(),
            cell_index(x, self.spec_cell_size()),
            cell_index(y, self.spec_cell_size()),
        )
    }

    /// Whether the cell containing the point holds any occupancy value.
    pub open spec fn occupied(self, x: int, y: int) -> bool {
        self.value_at(x, y) is Some
    }

    /// An empty grid with the given cell edge.
    pub fn new(cell_size: i64) -> (r: ObstacleGrid)
        requires
            0 < cell_size,
        ensures
            r.wf(),
            r.spec_cell_size() == cell_size,
            r.spec_cells() == Seq::<(i64, i64, u8)>::empty(),
    {
        ObstacleGrid { cell_size, cells: Vec::new() }
    }

    /// Record an occupancy value for one cell, overriding any earlier value.
    pub fn set_cell(&mut self, cx: i64, cy: i64, value: u8)
        ensures
            final(self).spec_cell_size() == old(self).spec_cell_size(),
            final(self).spec_cells() == old(self).spec_cells().push((cx, cy, value)),
    {
        self.cells.push((cx, cy, value));
    }

    /// The value recorded for the cell containing `p`, or `None` when that
    /// cell is passable.
    pub fn grid_value_at(&self, p: WorldPoint) -> (r: Option<u8>)
        requires
            self.wf(),
            -0x4000_0000_0000_0000 <= p.x <= 0x4000_0000_0000_0000,
            -0x4000_0000_0000_0000 <= p.y <= 0x4000_0000_0000_0000,
        ensures
            r == self.value_at(p.x as int, p.y as int),
    {
        let cx = cell_of(p.x, self.cell_size);
        let cy = cell_of(p.y, self.cell_size);
        let mut k = self.cells.len();
        proof {
            assert(self.spec_cells().take(k as int) =~= self.spec_cells());
        }
        while k > 0
            invariant
                k <= self.cells.len(),
                cx == cell_index(p.x as int, self.spec_cell_size()),
                cy == cell_index(p.y as int, self.spec_cell_size()),
                cell_lookup(self.spec_cells(), cx as int, cy as int) == cell_lookup(
                    self.spec_cells().take(k as int),
                    cx as int,
                    cy as int,
                ),
            decreases k,
        {
            k = k - 1;
            let e = self.cells[k];
            proof {
                assert(self.spec_cells().take(k as int + 1).last() == self.spec_cells()[k as int]);
                assert(self.spec_cells().take(k as int + 1).drop_last() =~= self.spec_cells().take(
                    k as int,
                ));
            }
            if e.0 == cx && e.1 == cy {
                return Some(e.2);
            }
        }
        proof {
            assert(self.spec_cells().take(0).len() == 0);
        }
        None
    }
}

} // verus!
