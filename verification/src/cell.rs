//! One cell of a tile: the square of one lattice step that a sample stands
//! for, with the values loaded for it.

use crate::lattice::Angle;
use crate::lattice::LatticePoint;
use vstd::prelude::*;

verus! {

/// What a cell holds.
pub struct CellView {
    pub southwest_corner: LatticePoint,
    pub elevation: Option<u16>,
    pub is_water: Option<bool>,
}

/// A polygon on the lattice: an outer ring and the rings of its holes.
#[derive(Debug, PartialEq, Eq)]
pub struct Polygon {
    pub exterior: Vec<LatticePoint>,
    pub interiors: Vec<Vec<LatticePoint>>,
}

/// One cell of a tile.
pub struct DEMBox {
    southwest_corner: LatticePoint,
    elevation: Option<u16>,
    is_water: Option<bool>,
}

/// The outline of the cell whose southwest corner is `sw`: southwest,
/// southeast, northeast, northwest, and the southwest corner again.
pub open spec fn ring_of(sw: LatticePoint) -> Seq<LatticePoint> {
    seq![sw, sw.east(), sw.east().north(), sw.north(), sw]
}

impl View for DEMBox {
    type V = CellView;

    closed spec fn view(&self) -> CellView {
        CellView {
            southwest_corner: self.southwest_corner,
            elevation: self.elevation,
            is_water: self.is_water,
        }
    }
}

impl DEMBox {
    /// The corner of a cell lies on a tile, so both neighbours are one step
    /// away.
    #[verifier::type_invariant]
    closed spec fn inv(&self) -> bool {
        self.southwest_corner.x.steps <= 3600 && self.southwest_corner.y.steps <= 3600
    }

    pub(crate) fn new(
        southwest_corner: LatticePoint,
        elevation: Option<u16>,
        is_water: Option<bool>,
    ) -> (cell: DEMBox)
        requires
            southwest_corner.x.steps <= 3600,
            southwest_corner.y.steps <= 3600,
        ensures
            cell@ == (CellView { southwest_corner, elevation, is_water }),
    {
        DEMBox { southwest_corner, elevation, is_water }
    }

    /// The outline of the cell, a closed ring without holes. Its far corners
    /// lie one step east and north of the southwest corner.
    pub fn polygon(&self) -> (p: Polygon)
        ensures
            p.exterior@ == ring_of(self@.southwest_corner),
            p.interiors@.len() == 0,
            self@.southwest_corner.x.steps <= 3600,
            self@.southwest_corner.y.steps <= 3600,
    {
        proof {
            use_type_invariant(self);
        }
        let west: Angle = self.southwest_corner.x;
        let south: Angle = self.southwest_corner.y;
        let east: Angle = Angle { degrees: west.degrees, steps: west.steps + 1 };
        let north: Angle = Angle { degrees: south.degrees, steps: south.steps + 1 };
        let mut exterior: Vec<LatticePoint> = Vec::with_capacity(5);
        exterior.push(LatticePoint { x: west, y: south });
        exterior.push(LatticePoint { x: east, y: south });
        exterior.push(LatticePoint { x: east, y: north });
        exterior.push(LatticePoint { x: west, y: north });
        exterior.push(LatticePoint { x: west, y: south });
        Polygon { exterior, interiors: Vec::new() }
    }

    /// The southwest corner of the cell, which is a cell corner of some tile.
    pub fn southwest_corner(&self) -> (p: &LatticePoint)
        ensures
            *p == self@.southwest_corner,
            p.x.steps <= 3600,
            p.y.steps <= 3600,
    {
        proof {
            use_type_invariant(self);
        }
        &self.southwest_corner
    }

    /// The elevation sample of the cell, if the tile holds an elevation grid.
    pub fn elevation(&self) -> (e: Option<u16>)
        ensures
            e == self@.elevation,
    {
        self.elevation
    }

    /// Whether the cell is water, if the tile holds a water grid.
    pub fn is_water(&self) -> (w: Option<bool>)
        ensures
            w == self@.is_water,
    {
        self.is_water
    }
}

/// The outline of a cell is a closed ring of five points whose four corners
/// are distinct and form a square with sides of one lattice step along the
/// axes.
pub proof fn lemma_ring_is_unit_square(sw: LatticePoint)
    requires
        sw.x.steps <= 3600,
        sw.y.steps <= 3600,
    ensures
        ring_of(sw).len() == 5,
        ring_of(sw)[0] == sw,
        ring_of(sw)[4] == ring_of(sw)[0],
        ring_of(sw)[1].y == ring_of(sw)[0].y,
        ring_of(sw)[1].x.units() == ring_of(sw)[0].x.units() + 1,
        ring_of(sw)[2].x == ring_of(sw)[1].x,
        ring_of(sw)[2].y.units() == ring_of(sw)[1].y.units() + 1,
        ring_of(sw)[3].y == ring_of(sw)[2].y,
        ring_of(sw)[3].x == ring_of(sw)[0].x,
        forall|i: int, j: int|
            0 <= i < j < 4 ==> ring_of(sw)[i].x.units() != ring_of(sw)[j].x.units() || ring_of(
                sw,
            )[i].y.units() != ring_of(sw)[j].y.units(),
{
}

} // verus!
