//! The 3601 by 3601 sample lattice of a tile and the mapping from storage
//! index to position.

use vstd::prelude::*;

verus! {

/// Samples along one side of a tile.
pub const SIDE: usize = 3601;

/// Samples in a whole tile.
pub const SAMPLES: usize = 3601 * 3601;

/// A point with whole-degree coordinates: `x` is the longitude, `y` the
/// latitude. A tile is named by the point at its southwest corner.
#[derive(Clone, Copy, Debug, PartialEq, Eq, Structural)]
pub struct DegreePoint {
    pub x: i32,
    pub y: i32,
}

/// An angle held without rounding: `degrees + steps / 3601`.
#[derive(Clone, Copy, Debug, PartialEq, Eq, Structural)]
pub struct Angle {
    pub degrees: i32,
    pub steps: u16,
}

/// A point whose coordinates are exact multiples of 1/3601 degree: `x` is the
/// longitude, `y` the latitude.
#[derive(Clone, Copy, Debug, PartialEq, Eq, Structural)]
pub struct LatticePoint {
    pub x: Angle,
    pub y: Angle,
}

impl DegreePoint {
    /// The point at longitude `x` and latitude `y`.
    pub fn new(x: i32, y: i32) -> (p: DegreePoint)
        ensures
            p == (DegreePoint { x, y }),
    {
        DegreePoint { x, y }
    }
}

impl Angle {
    /// The angle as a count of 1/3601-degree steps from zero.
    pub open spec fn units(self) -> int {
        self.degrees * 3601 + self.steps
    }

    /// The angle one lattice step further on.
    pub open spec fn succ(self) -> Angle {
        Angle { degrees: self.degrees, steps: (self.steps + 1) as u16 }
    }
}

impl LatticePoint {
    /// The lattice neighbour one step to the east.
    pub open spec fn east(self) -> LatticePoint {
        LatticePoint { x: self.x.succ(), y: self.y }
    }

    /// The lattice neighbour one step to the north.
    pub open spec fn north(self) -> LatticePoint {
        LatticePoint { x: self.x, y: self.y.succ() }
    }
}

/// Row of a sample counted from the southern edge. Storage starts with the
/// northernmost row, so index 0 lies in row 3600.
pub open spec fn row_of(idx: int) -> int {
    3600 - idx / 3601
}

/// Column of a sample counted from the western edge.
pub open spec fn column_of(idx: int) -> int {
    idx % 3601
}

/// Southwest corner of the cell stored at `idx` in the tile anchored at `sw`.
pub open spec fn point_at(sw: DegreePoint, idx: int) -> LatticePoint {
    LatticePoint {
        x: Angle { degrees: sw.x, steps: column_of(idx) as u16 },
        y: Angle { degrees: sw.y, steps: row_of(idx) as u16 },
    }
}

/// Whether `p` is the southwest corner of one of the cells of the tile
/// anchored at `sw`.
pub open spec fn on_tile(sw: DegreePoint, p: LatticePoint) -> bool {
    &&& p.x.degrees == sw.x
    &&& p.y.degrees == sw.y
    &&& p.x.steps <= 3600
    &&& p.y.steps <= 3600
}

/// Storage index of the cell whose southwest corner is `p`.
pub open spec fn index_at(p: LatticePoint) -> int {
    (3600 - p.y.steps) * 3601 + p.x.steps
}

/// Southwest corner of the cell stored at `idx`.
pub fn idx_to_pont(sw_corner: &DegreePoint, idx: usize) -> (p: LatticePoint)
    requires
        idx < SAMPLES,
    ensures
        p == point_at(*sw_corner, idx as int),
{
    let row: usize = SIDE - 1 - idx / SIDE;
    let column: usize = idx % SIDE;
    LatticePoint {
        x: Angle { degrees: sw_corner.x, steps: column as u16 },
        y: Angle { degrees: sw_corner.y, steps: row as u16 },
    }
}

/// Every index names a cell corner on the tile, and the corner leads back to
/// the index.
pub proof fn lemma_index_round_trip(sw: DegreePoint, idx: int)
    requires
        0 <= idx < SAMPLES,
    ensures
        on_tile(sw, point_at(sw, idx)),
        index_at(point_at(sw, idx)) == idx,
{
}

/// Every cell corner on the tile has an index, and the index leads back to the
/// corner.
pub proof fn lemma_point_round_trip(sw: DegreePoint, p: LatticePoint)
    requires
        on_tile(sw, p),
    ensures
        0 <= index_at(p) < SAMPLES,
        point_at(sw, index_at(p)) == p,
{
}

/// Every cell lies within the square degree of its tile: its southwest corner
/// is not west or south of the anchor, and its northeast corner, one step
/// further on along both axes, is not east or north of the next whole degree.
pub proof fn lemma_cell_within_tile(sw: DegreePoint, idx: int)
    requires
        0 <= idx < SAMPLES,
    ensures
        sw.x * 3601 <= point_at(sw, idx).x.units() < (sw.x + 1) * 3601,
        sw.y * 3601 <= point_at(sw, idx).y.units() < (sw.y + 1) * 3601,
        point_at(sw, idx).x.succ().units() == point_at(sw, idx).x.units() + 1,
        point_at(sw, idx).y.succ().units() == point_at(sw, idx).y.units() + 1,
        point_at(sw, idx).x.succ().units() <= (sw.x + 1) * 3601,
        point_at(sw, idx).y.succ().units() <= (sw.y + 1) * 3601,
{
}

/// Distinct indices name distinct cell corners.
pub proof fn lemma_point_at_injective(sw: DegreePoint, i: int, j: int)
    requires
        0 <= i < SAMPLES,
        0 <= j < SAMPLES,
        point_at(sw, i) == point_at(sw, j),
    ensures
        i == j,
{
    lemma_index_round_trip(sw, i);
    lemma_index_round_trip(sw, j);
}

} // verus!
