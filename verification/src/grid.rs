//! The voxel grid: a dense store of cells, laid out with `x` varying
//! fastest, then `y`, then `z`.

use crate::cell::Cell;
use crate::coord::{contains, coord_to_screen, fits_screen, in_bounds, projects, screen_of, Vec3};
use crate::draw::Draw;
use ruscii::spatial::Vec2;
use vstd::prelude::*;

verus! {

/// The error of a write outside the grid.
#[derive(Debug, Clone, Copy, PartialEq, Eq, Structural)]
pub struct OutOfBounds;

/// Whether every dimension is positive.
pub open spec fn valid_dimensions(dimensions: Vec3) -> bool {
    dimensions.0 > 0 && dimensions.1 > 0 && dimensions.2 > 0
}

/// The number of voxels in a grid of the given dimensions.
pub open spec fn volume(dimensions: Vec3) -> int {
    dimensions.0 * dimensions.1 * dimensions.2
}

/// The place of a voxel in the flat store: `z * my * mx + y * mx + x`.
pub open spec fn index_of(dimensions: Vec3, coord: Vec3) -> int {
    coord.2 * dimensions.1 * dimensions.0 + coord.1 * dimensions.0 + coord.0
}

/// The voxel that is stored at place `index`.
pub open spec fn coord_of(dimensions: Vec3, index: int) -> Vec3 {
    (
        (index % (dimensions.0 as int)) as isize,
        ((index / (dimensions.0 as int)) % (dimensions.1 as int)) as isize,
        (index / (dimensions.0 * dimensions.1)) as isize,
    )
}

/// What a grid is, mathematically: its dimensions and its cells in storage
/// order.
pub struct GridView {
    pub dimensions: Vec3,
    pub cells: Seq<Cell>,
}

impl GridView {
    /// The dimensions are positive, there is one cell per voxel, and the
    /// number of voxels fits the signed index arithmetic.
    pub open spec fn wf(self) -> bool {
        &&& valid_dimensions(self.dimensions)
        &&& volume(self.dimensions) <= isize::MAX
        &&& self.cells.len() == volume(self.dimensions)
    }

    /// The cell stored for `coord`, meaningful for a coordinate in bounds.
    pub open spec fn cell_at(self, coord: Vec3) -> Cell {
        self.cells[index_of(self.dimensions, coord)]
    }

    /// What a read at `coord` gives: nothing outside the bounds and nothing
    /// for a `Void` cell, else the cell.
    pub open spec fn get(self, coord: Vec3) -> Option<Cell> {
        if in_bounds(coord, self.dimensions) && self.cell_at(coord) != Cell::Void {
            Some(self.cell_at(coord))
        } else {
            None
        }
    }

    /// Whether every voxel of the grid has a position on the screen.
    pub open spec fn drawable(self) -> bool {
        forall|coord: Vec3| #[trigger] in_bounds(coord, self.dimensions) ==> projects(coord)
    }

    /// One character per stored cell, `Void` cells too, in storage order,
    /// each at the screen position of its voxel.
    pub open spec fn glyphs(self) -> Seq<(char, Vec2)> {
        Seq::new(
            self.cells.len(),
            |i: int| (self.cells[i].glyph(), screen_of(coord_of(self.dimensions, i))),
        )
    }

    /// The grid after `cell` was written at `coord`.
    pub open spec fn set(self, coord: Vec3, cell: Cell) -> GridView {
        GridView {
            dimensions: self.dimensions,
            cells: self.cells.update(index_of(self.dimensions, coord), cell),
        }
    }
}

/// A product of three positive factors bounds the product of the first two.
pub proof fn lemma_layer_within_volume(dimensions: Vec3)
    requires
        valid_dimensions(dimensions),
    ensures
        0 < dimensions.0 * dimensions.1 <= volume(dimensions),
{
    let (mx, my, mz) = dimensions;
    assert(0 < mx * my <= mx * my * mz) by (nonlinear_arith)
        requires
            mx > 0,
            my > 0,
            mz > 0,
    ;
}

/// Every voxel in bounds has a place in the store, and the place leads back
/// to the voxel.
pub proof fn lemma_coord_round_trip(dimensions: Vec3, coord: Vec3)
    requires
        valid_dimensions(dimensions),
        in_bounds(coord, dimensions),
    ensures
        0 <= index_of(dimensions, coord) < volume(dimensions),
        coord_of(dimensions, index_of(dimensions, coord)) == coord,
{
    let (mx, my, mz) = (dimensions.0 as int, dimensions.1 as int, dimensions.2 as int);
    let (x, y, z) = (coord.0 as int, coord.1 as int, coord.2 as int);
    let layer = mx * my;
    let i = index_of(dimensions, coord);
    assert(i == z * layer + (y * mx + x) && 0 <= y * mx + x < layer && layer > 0 && z * layer
        + layer <= layer * mz && layer * mz == mx * my * mz && z * my * mx == z * layer)
        by (nonlinear_arith)
        requires
            0 <= x < mx,
            0 <= y < my,
            0 <= z < mz,
            layer == mx * my,
            i == z * my * mx + y * mx + x,
    ;
    vstd::arithmetic::div_mod::lemma_fundamental_div_mod_converse(i, layer, z, y * mx + x);
    assert(i == mx * (z * my + y) + x) by (nonlinear_arith)
        requires
            i == z * my * mx + y * mx + x,
    ;
    vstd::arithmetic::div_mod::lemma_fundamental_div_mod_converse(i, mx, z * my + y, x);
    vstd::arithmetic::div_mod::lemma_fundamental_div_mod_converse(z * my + y, my, z, y);
    assert(z * my + y == my * z + y) by (nonlinear_arith);
}

/// Every place of the store belongs to a voxel in bounds, which is stored
/// there, and to no other.
pub proof fn lemma_index_round_trip(dimensions: Vec3, index: int)
    requires
        valid_dimensions(dimensions),
        0 <= index < volume(dimensions),
    ensures
        in_bounds(coord_of(dimensions, index), dimensions),
        index_of(dimensions, coord_of(dimensions, index)) == index,
        forall|coord: Vec3|
            in_bounds(coord, dimensions) && index_of(dimensions, coord) == index ==> coord
                == coord_of(dimensions, index),
{
    let (mx, my, mz) = (dimensions.0 as int, dimensions.1 as int, dimensions.2 as int);
    let layer = mx * my;
    lemma_layer_within_volume(dimensions);
    let x = index % mx;
    let row = index / mx;
    let y = row % my;
    let z = index / layer;
    vstd::arithmetic::div_mod::lemma_fundamental_div_mod(index, mx);
    vstd::arithmetic::div_mod::lemma_fundamental_div_mod(row, my);
    vstd::arithmetic::div_mod::lemma_div_denominator(index, mx, my);
    assert(row / my == z);
    assert(0 <= z < mz) by (nonlinear_arith)
        requires
            0 <= index < layer * mz,
            layer > 0,
            z == index / layer,
    ;
    assert(layer * mz == mx * my * mz);
    assert(0 <= row) by (nonlinear_arith)
        requires
            0 <= index,
            mx > 0,
            row == index / mx,
    ;
    assert(z * my * mx + y * mx + x == index) by (nonlinear_arith)
        requires
            index == mx * row + x,
            row == my * z + y,
    ;
    assert forall|coord: Vec3|
        in_bounds(coord, dimensions) && index_of(dimensions, coord) == index implies coord
        == coord_of(dimensions, index) by {
        lemma_coord_round_trip(dimensions, coord);
    }
}

/// A `Void` cell reads like a voxel outside the grid: as nothing.
pub proof fn lemma_void_reads_as_outside(grid: GridView, void: Vec3, outside: Vec3)
    requires
        grid.wf(),
        in_bounds(void, grid.dimensions),
        grid.cell_at(void) == Cell::Void,
        !in_bounds(outside, grid.dimensions),
    ensures
        grid.get(void) == grid.get(outside),
        grid.get(void) == None::<Cell>,
{
}

/// A write in bounds is read back, shows at no other voxel, and keeps the
/// grid well formed.
pub proof fn lemma_write_then_read(grid: GridView, coord: Vec3, cell: Cell, other: Vec3)
    requires
        grid.wf(),
        in_bounds(coord, grid.dimensions),
    ensures
        grid.set(coord, cell).wf(),
        grid.set(coord, cell).cell_at(coord) == cell,
        other != coord ==> grid.set(coord, cell).get(other) == grid.get(other),
{
    lemma_coord_round_trip(grid.dimensions, coord);
    if in_bounds(other, grid.dimensions) {
        lemma_coord_round_trip(grid.dimensions, other);
    }
}

/// A place beyond the store belongs to no voxel in bounds.
pub proof fn lemma_index_beyond_store(dimensions: Vec3, index: int)
    requires
        valid_dimensions(dimensions),
        volume(dimensions) <= index <= isize::MAX,
    ensures
        !in_bounds(coord_of(dimensions, index), dimensions),
{
    let (mx, my, mz) = (dimensions.0 as int, dimensions.1 as int, dimensions.2 as int);
    let layer = mx * my;
    lemma_layer_within_volume(dimensions);
    assert(mz <= index / layer <= index) by (nonlinear_arith)
        requires
            layer * mz <= index,
            layer > 0,
            mz > 0,
    ;
    assert(layer * mz == mx * my * mz);
}

/// A dense three-dimensional store of cells with fixed, positive
/// dimensions.
#[derive(Debug)]
pub struct Grid {
    cells: Vec<Cell>,
    dimensions: Vec3,
}

impl View for Grid {
    type V = GridView;

    closed spec fn view(&self) -> GridView {
        GridView { dimensions: self.dimensions, cells: self.cells@ }
    }
}

impl Grid {
    /// What holds of every grid: see [`GridView::wf`].
    #[verifier::type_invariant]
    pub open spec fn wf(self) -> bool {
        self@.wf()
    }

    /// A grid of the given dimensions over the given cells, which stand in
    /// storage order.
    pub fn new(dimensions: Vec3, cells: Vec<Cell>) -> (grid: Grid)
        requires
            valid_dimensions(dimensions),
            volume(dimensions) <= isize::MAX,
            cells.len() == volume(dimensions),
        ensures
            grid@ == (GridView { dimensions, cells: cells@ }),
    {
        Grid { cells, dimensions }
    }

    /// A grid of the given dimensions in which every cell is `Empty`.
    pub fn empty(dimensions: Vec3) -> (grid: Grid)
        requires
            valid_dimensions(dimensions),
            volume(dimensions) <= isize::MAX,
        ensures
            grid@.dimensions == dimensions,
            grid@.cells == Seq::new(volume(dimensions) as nat, |i: int| Cell::Empty),
    {
        let (mx, my, mz) = dimensions;
        proof {
            lemma_layer_within_volume(dimensions);
        }
        let count = (mx * my * mz) as usize;
        let cells = vec![Cell::Empty; count];
        assert(cells@ =~= Seq::new(volume(dimensions) as nat, |i: int| Cell::Empty));
        Grid { cells, dimensions }
    }

    /// Reads the cell at `coord`. A coordinate outside the grid and a `Void`
    /// cell both read as nothing.
    pub fn get(&self, coord: Vec3) -> (found: Option<Cell>)
        ensures
            found == self@.get(coord),
    {
        proof {
            use_type_invariant(self);
        }
        if contains(coord, self.dimensions) {
            let cell = self.cells[self.coord_to_index(coord)];
            if cell != Cell::Void {
                return Some(cell);
            }
        }
        None
    }

    /// Writes `cell` at `coord`, or fails and changes nothing where `coord`
    /// lies outside the grid.
    pub fn set(&mut self, coord: Vec3, cell: Cell) -> (done: Result<(), OutOfBounds>)
        ensures
            in_bounds(coord, old(self)@.dimensions) ==> done == Ok::<(), OutOfBounds>(())
                && final(self)@ == old(self)@.set(coord, cell),
            !in_bounds(coord, old(self)@.dimensions) ==> done == Err::<(), OutOfBounds>(
                OutOfBounds,
            ) && final(self)@ == old(self)@,
    {
        proof {
            use_type_invariant(&*self);
        }
        if contains(coord, self.dimensions) {
            let idx = self.coord_to_index(coord);
            self.cells[idx] = cell;
            Ok(())
        } else {
            Err(OutOfBounds)
        }
    }

    /// The place of `coord` in the store. The coordinate must lie in the
    /// grid: nothing is checked here.
    pub fn coord_to_index(&self, coord: Vec3) -> (idx: usize)
        requires
            in_bounds(coord, self@.dimensions),
        ensures
            idx == index_of(self@.dimensions, coord),
            idx < self@.cells.len(),
    {
        proof {
            use_type_invariant(self);
            lemma_coord_round_trip(self.dimensions, coord);
        }
        let (x, y, z) = coord;
        let (mx, my, _) = self.dimensions;
        assert(0 <= z * my <= z * my * mx <= z * my * mx + y * mx <= index_of(
            self.dimensions,
            coord,
        )) by (nonlinear_arith)
            requires
                0 <= x < mx,
                0 <= y < my,
                0 <= z,
                index_of(self.dimensions, coord) == z * my * mx + y * mx + x,
        ;
        (z * my * mx + y * mx + x) as usize
    }

    /// The voxel stored at place `idx`.
    pub fn index_to_coord(&self, idx: usize) -> (coord: Vec3)
        requires
            idx <= isize::MAX,
        ensures
            coord == coord_of(self@.dimensions, idx as int),
            idx < self@.cells.len() <==> in_bounds(coord, self@.dimensions),
    {
        proof {
            use_type_invariant(self);
            lemma_layer_within_volume(self.dimensions);
            if idx < volume(self.dimensions) {
                lemma_index_round_trip(self.dimensions, idx as int);
            } else {
                lemma_index_beyond_store(self.dimensions, idx as int);
            }
        }
        let idx = idx as isize;
        let (mx, my, _) = self.dimensions;
        let x = idx % mx;
        let y = (idx / mx) % my;
        let z = idx / (mx * my);
        (x, y, z)
    }
}

impl Draw for Grid {
    open spec fn drawable(&self) -> bool {
        self@.drawable()
    }

    open spec fn glyphs(&self) -> Seq<(char, Vec2)> {
        self@.glyphs()
    }

    /// The whole grid projects if its four extreme voxels do.
    fn can_draw(&self) -> (ok: bool) {
        proof {
            use_type_invariant(self);
        }
        let (mx, my, mz) = self.dimensions;
        let ok = fits_screen((mx - 1, 0, 0)) && fits_screen((0, my - 1, 0)) && fits_screen(
            (mx - 1, my - 1, 0),
        ) && fits_screen((0, 0, mz - 1));
        proof {
            if !ok {
                assert(in_bounds(((mx - 1) as isize, 0, 0), self.dimensions));
                assert(in_bounds((0, (my - 1) as isize, 0), self.dimensions));
                assert(in_bounds(((mx - 1) as isize, (my - 1) as isize, 0), self.dimensions));
                assert(in_bounds((0, 0, (mz - 1) as isize), self.dimensions));
            }
        }
        ok
    }

    fn draw(&self) -> (out: Vec<(char, Vec2)>) {
        proof {
            use_type_invariant(self);
        }
        let mut out: Vec<(char, Vec2)> = Vec::new();
        let mut idx: usize = 0;
        while idx < self.cells.len()
            invariant
                self@.wf(),
                self@.drawable(),
                idx <= self.cells.len(),
                out@ == self@.glyphs().take(idx as int),
            decreases self.cells.len() - idx,
        {
            let coord = self.index_to_coord(idx);
            let screen_vec = coord_to_screen(coord);
            let c = self.cells[idx].to_char();
            out.push((c, screen_vec));
            idx += 1;
            assert(out@ =~= self@.glyphs().take(idx as int));
        }
        assert(self@.glyphs().take(idx as int) =~= self@.glyphs());
        out
    }
}

} // verus!
