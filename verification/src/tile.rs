//! A tile, its loaders, and the cursor over its cells.

use crate::cell::CellView;
use crate::cell::DEMBox;
use crate::lattice::idx_to_pont;
use crate::lattice::point_at;
use crate::lattice::DegreePoint;
use crate::lattice::LatticePoint;
use crate::lattice::SAMPLES;
use crate::samples::be_u16;
use crate::samples::elevation_grid;
use crate::samples::first_invalid;
use crate::samples::is_sentinel;
use crate::samples::parse_elevation;
use crate::samples::parse_water;
use crate::samples::read_u16_be;
use crate::samples::sentinels_before;
use crate::samples::water_grid;
use crate::samples::LoadError;
use crate::samples::LAND;
use crate::samples::WATER;
use vstd::prelude::*;
use vstd::slice::slice_subrange;

verus! {

/// What a tile holds: its anchor and the grids loaded so far, each in storage
/// order.
pub struct TileView {
    pub southwest_corner: DegreePoint,
    pub elevation: Option<Seq<u16>>,
    pub water: Option<Seq<bool>>,
}

impl TileView {
    /// A grid that is present holds one value per sample.
    pub open spec fn wf(self) -> bool {
        &&& self.elevation matches Some(grid) ==> grid.len() == SAMPLES
        &&& self.water matches Some(grid) ==> grid.len() == SAMPLES
    }

    /// The tile with its elevation grid replaced.
    pub open spec fn with_elevation(self, grid: Seq<u16>) -> TileView {
        TileView { elevation: Some(grid), ..self }
    }

    /// The tile with its water grid replaced.
    pub open spec fn with_water(self, grid: Seq<bool>) -> TileView {
        TileView { water: Some(grid), ..self }
    }

    /// The cell of the sample stored at `idx`.
    pub open spec fn cell(self, idx: int) -> CellView {
        CellView {
            southwest_corner: point_at(self.southwest_corner, idx),
            elevation: match self.elevation {
                Some(grid) => Some(grid[idx]),
                None => None,
            },
            is_water: match self.water {
                Some(grid) => Some(grid[idx]),
                None => None,
            },
        }
    }

    /// All cells of the tile in storage order.
    pub open spec fn cells(self) -> Seq<CellView> {
        Seq::new(SAMPLES as nat, |idx: int| self.cell(idx))
    }
}

/// One tile: a square of one degree by one degree, named by its southwest
/// corner, with the grids loaded for it.
#[derive(Debug)]
pub struct NASADEM {
    southwest_corner: DegreePoint,
    elevation: Option<Vec<u16>>,
    water: Option<Vec<bool>>,
}

impl View for NASADEM {
    type V = TileView;

    closed spec fn view(&self) -> TileView {
        TileView {
            southwest_corner: self.southwest_corner,
            elevation: match self.elevation {
                Some(grid) => Some(grid@),
                None => None,
            },
            water: match self.water {
                Some(grid) => Some(grid@),
                None => None,
            },
        }
    }
}

impl NASADEM {
    #[verifier::type_invariant]
    closed spec fn inv(&self) -> bool {
        self@.wf()
    }

    /// A tile without grids.
    pub fn new(southwest_corner: DegreePoint) -> (tile: NASADEM)
        ensures
            tile@ == (TileView { southwest_corner, elevation: None, water: None }),
    {
        NASADEM { southwest_corner, elevation: None, water: None }
    }

    /// Decodes an elevation stream and makes it the tile's elevation grid.
    /// Bytes after the last sample are left unread. A stream that is too
    /// short leaves the tile as it was.
    pub fn add_elevation(&mut self, src: &[u8]) -> (r: Result<&mut Self, LoadError>)
        ensures
            match parse_elevation(src@) {
                Ok(grid) => r matches Ok(tile) && tile@ == old(self)@.with_elevation(grid)
                    && *final(self) == *final(tile),
                Err(e) => r matches Err(err) && err == e && final(self)@ == old(self)@,
            },
    {
        if src.len() < 2 * SAMPLES {
            return Err(LoadError::Truncated);
        }
        let mut elev_samples: Vec<u16> = Vec::with_capacity(SAMPLES);
        let mut idx: usize = 0;
        while idx < SAMPLES
            invariant
                idx <= SAMPLES,
                src@.len() >= 2 * SAMPLES,
                elev_samples@.len() == idx,
                forall|i: int| 0 <= i < idx ==> elev_samples@[i] == elevation_grid(src@)[i],
            decreases SAMPLES - idx,
        {
            let pair = slice_subrange(src, 2 * idx, 2 * idx + 2);
            let sample: u16 = read_u16_be(pair);
            elev_samples.push(sample);
            idx += 1;
        }
        proof {
            use_type_invariant(&*self);
            assert(elev_samples@ =~= elevation_grid(src@));
        }
        self.elevation = Some(elev_samples);
        Ok(self)
    }

    /// Decodes a water stream and makes it the tile's water grid. Bytes after
    /// the last sample are left unread. A stream that is too short, or holds
    /// a byte that is no sentinel, leaves the tile as it was.
    pub fn add_water(&mut self, src: &[u8]) -> (r: Result<&mut Self, LoadError>)
        ensures
            match parse_water(src@) {
                Ok(grid) => r matches Ok(tile) && tile@ == old(self)@.with_water(grid)
                    && *final(self) == *final(tile),
                Err(e) => r matches Err(err) && err == e && final(self)@ == old(self)@,
            },
    {
        let mut water_samples: Vec<bool> = Vec::with_capacity(SAMPLES);
        let mut idx: usize = 0;
        while idx < SAMPLES
            invariant
                idx <= SAMPLES,
                idx <= src@.len(),
                *self == *old(self),
                water_samples@.len() == idx,
                sentinels_before(src@, idx as int),
                forall|i: int| 0 <= i < idx ==> water_samples@[i] == water_grid(src@)[i],
            decreases SAMPLES - idx,
        {
            if idx >= src.len() {
                return Err(LoadError::Truncated);
            }
            let sample: u8 = src[idx];
            if sample != LAND && sample != WATER {
                proof {
                    assert(first_invalid(src@, idx as int));
                }
                return Err(LoadError::InvalidWater { index: idx, value: sample });
            }
            water_samples.push(sample == WATER);
            idx += 1;
        }
        proof {
            use_type_invariant(&*self);
            assert(water_samples@ =~= water_grid(src@));
        }
        self.water = Some(water_samples);
        Ok(self)
    }

    /// A cursor at the first cell of the tile.
    pub fn iter(&self) -> (cursor: Iter<'_>)
        ensures
            cursor.tile() == self@,
            cursor.position() == 0,
    {
        Iter { dem: self, idx: 0 }
    }
}

/// A cursor over the cells of a tile in storage order: row by row from the
/// northern edge, each row from west to east.
pub struct Iter<'a> {
    dem: &'a NASADEM,
    idx: usize,
}

impl<'a> View for Iter<'a> {
    type V = Seq<CellView>;

    /// The cells still to come.
    open spec fn view(&self) -> Seq<CellView> {
        self.tile().cells().skip(self.position())
    }
}

impl<'a> Iter<'a> {
    #[verifier::type_invariant]
    closed spec fn inv(&self) -> bool {
        self.idx <= SAMPLES
    }

    /// The tile that the cursor walks.
    pub closed spec fn tile(&self) -> TileView {
        self.dem@
    }

    /// The number of cells handed out so far.
    pub closed spec fn position(&self) -> int {
        self.idx as int
    }

    /// Hands out the cell at the cursor and moves on, or `None` once every
    /// cell has been handed out.
    pub fn next(&mut self) -> (r: Option<DEMBox>)
        ensures
            final(self).tile() == old(self).tile(),
            0 <= old(self).position() <= SAMPLES,
            match r {
                Some(cell) => {
                    &&& old(self).position() < SAMPLES
                    &&& cell@ == old(self).tile().cell(old(self).position())
                    &&& final(self).position() == old(self).position() + 1
                    &&& cell@ == old(self)@.first()
                    &&& final(self)@ == old(self)@.drop_first()
                },
                None => {
                    &&& old(self).position() == SAMPLES
                    &&& final(self).position() == SAMPLES
                    &&& old(self)@.len() == 0
                },
            },
    {
        proof {
            use_type_invariant(&*self);
            use_type_invariant(self.dem);
        }
        if self.idx < SAMPLES {
            let southwest_corner: LatticePoint = idx_to_pont(&self.dem.southwest_corner, self.idx);
            let elevation: Option<u16> = match &self.dem.elevation {
                Some(grid) => Some(grid[self.idx]),
                None => None,
            };
            let is_water: Option<bool> = match &self.dem.water {
                Some(grid) => Some(grid[self.idx]),
                None => None,
            };
            self.idx += 1;
            Some(DEMBox::new(southwest_corner, elevation, is_water))
        } else {
            None
        }
    }
}

/// After an elevation stream has been decoded the grid is full: the tile
/// holds one elevation per sample, and its cells, one per sample, each carry
/// the elevation spelled at their place in the stream.
pub proof fn lemma_elevation_load_fills_grid(tile: TileView, bytes: Seq<u8>)
    requires
        tile.wf(),
        parse_elevation(bytes) is Ok,
    ensures
        ({
            let loaded = tile.with_elevation(parse_elevation(bytes)->Ok_0);
            &&& loaded.wf()
            &&& loaded.elevation matches Some(grid) && grid.len() == SAMPLES
            &&& loaded.cells().len() == SAMPLES
            &&& forall|idx: int|
                0 <= idx < SAMPLES ==> (#[trigger] loaded.cells()[idx]).elevation == Some(
                    be_u16(bytes[2 * idx], bytes[2 * idx + 1]),
                )
        }),
{
}

/// An elevation stream that is too short is refused, and a tile that held no
/// elevation grid before still has a cell without elevation for every sample.
pub proof fn lemma_truncated_elevation_leaves_none(tile: TileView, bytes: Seq<u8>)
    requires
        bytes.len() < 2 * SAMPLES,
        tile.elevation is None,
    ensures
        parse_elevation(bytes) == Err::<Seq<u16>, LoadError>(LoadError::Truncated),
        forall|idx: int|
            0 <= idx < SAMPLES ==> (#[trigger] tile.cells()[idx]).elevation is None,
{
}

/// A water stream that repeats one sentinel for every sample is accepted, and
/// every cell of the tile then says water where the sentinel is `WATER` and
/// land where it is `LAND`.
pub proof fn lemma_uniform_water(tile: TileView, bytes: Seq<u8>, sentinel: u8)
    requires
        is_sentinel(sentinel),
        bytes.len() >= SAMPLES,
        forall|i: int| 0 <= i < SAMPLES ==> bytes[i] == sentinel,
    ensures
        parse_water(bytes) == Ok::<Seq<bool>, LoadError>(water_grid(bytes)),
        forall|idx: int|
            0 <= idx < SAMPLES ==> (#[trigger] tile.with_water(
                water_grid(bytes),
            ).cells()[idx]).is_water == Some(sentinel == WATER),
{
}

/// A cursor that has handed out nothing yet has every cell of its tile
/// still to come, one per sample.
pub proof fn lemma_fresh_cursor_yields_all<'a>(cursor: Iter<'a>)
    requires
        cursor.position() == 0,
    ensures
        cursor@ == cursor.tile().cells(),
        cursor@.len() == SAMPLES,
{
}

/// Iteration can be started again: two cursors that have handed out nothing
/// yet, on tiles that hold the same, have the same cells to come in the same
/// order.
pub proof fn lemma_iteration_restarts<'a, 'b>(first: Iter<'a>, second: Iter<'b>)
    requires
        first.tile() == second.tile(),
        first.position() == 0,
        second.position() == 0,
    ensures
        first@ == second@,
{
}

} // verus!
