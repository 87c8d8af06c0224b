//! Animation frames: the grid that tiles a texture into equal cells, and the
//! texture coordinates of each cell.
//!
//! Pixel positions are whole numbers. A texture coordinate is the exact
//! fraction of a pixel position over the texture's extent; whoever hands it to
//! the GPU performs the division.

use crate::vecmath::Vec2;
use vstd::arithmetic::div_mod::{
    lemma_fundamental_div_mod,
    lemma_fundamental_div_mod_converse,
    lemma_mod_bound,
};
use vstd::prelude::*;

verus! {

/// An exact fraction `num / den`. It is kept as written, not reduced.
#[derive(Clone, Copy, Debug, PartialEq, Eq, Structural)]
pub struct Ratio {
    pub num: i64,
    pub den: i64,
}

impl Ratio {
    /// The fraction lies in the unit interval: `0 <= num / den <= 1`.
    pub open spec fn normalized(self) -> bool {
        self.den > 0 && 0 <= self.num <= self.den
    }
}

/// The four corners of a frame in texture space.
#[derive(Clone, Copy, Debug, PartialEq, Eq)]
pub struct Texcoords {
    pub top_right: Vec2<Ratio>,
    pub bottom_right: Vec2<Ratio>,
    pub bottom_left: Vec2<Ratio>,
    pub top_left: Vec2<Ratio>,
}

impl Texcoords {
    /// All eight coordinates lie in the unit interval.
    pub open spec fn normalized(self) -> bool {
        &&& self.top_right.x.normalized() && self.top_right.y.normalized()
        &&& self.bottom_right.x.normalized() && self.bottom_right.y.normalized()
        &&& self.bottom_left.x.normalized() && self.bottom_left.y.normalized()
        &&& self.top_left.x.normalized() && self.top_left.y.normalized()
    }

    /// Overwrites `dest` with these coordinates.
    pub fn copy_to(&self, dest: &mut Texcoords)
        ensures
            *final(dest) == *self,
    {
        *dest = *self;
    }
}

/// The texture coordinates of the pixel rectangle with low corner `(x, y)` and
/// extent `(w, h)` on a texture of `tex_width` by `tex_height` pixels.
pub open spec fn texcoords_of(x: int, y: int, w: int, h: int, tex_width: int, tex_height: int)
    -> Texcoords {
    let left = Ratio { num: x as i64, den: tex_width as i64 };
    let right = Ratio { num: (x + w) as i64, den: tex_width as i64 };
    let low = Ratio { num: y as i64, den: tex_height as i64 };
    let high = Ratio { num: (y + h) as i64, den: tex_height as i64 };
    Texcoords {
        top_right: Vec2 { x: right, y: high },
        bottom_right: Vec2 { x: right, y: low },
        bottom_left: Vec2 { x: left, y: low },
        top_left: Vec2 { x: left, y: high },
    }
}

/// An animation frame: a rectangular section of a texture, in pixels, with the
/// texture coordinates derived from it.
#[derive(Clone, Copy, Debug, PartialEq, Eq)]
pub struct Frame {
    pub position: Vec2<i32>,
    pub size: Vec2<i32>,
    pub texcoords: Texcoords,
}

impl Frame {
    /// Derives the frame's texture coordinates from its pixel bounds and the
    /// texture's size. Position and size are left as they are.
    pub fn generate_texcoords(&mut self, tex_width: i32, tex_height: i32)
        ensures
            final(self).position == old(self).position,
            final(self).size == old(self).size,
            final(self).texcoords == texcoords_of(
                old(self).position.x as int,
                old(self).position.y as int,
                old(self).size.x as int,
                old(self).size.y as int,
                tex_width as int,
                tex_height as int,
            ),
    {
        let x: i64 = self.position.x as i64;
        let y: i64 = self.position.y as i64;
        let right: i64 = x + self.size.x as i64;
        let high: i64 = y + self.size.y as i64;
        let across: i64 = tex_width as i64;
        let up: i64 = tex_height as i64;
        self.texcoords = Texcoords {
            top_right: Vec2::new(Ratio { num: right, den: across }, Ratio { num: high, den: up }),
            bottom_right: Vec2::new(Ratio { num: right, den: across }, Ratio { num: y, den: up }),
            bottom_left: Vec2::new(Ratio { num: x, den: across }, Ratio { num: y, den: up }),
            top_left: Vec2::new(Ratio { num: x, den: across }, Ratio { num: high, den: up }),
        };
    }
}

/// A frame at the pixel origin spans from `(0, 0)` to `(w / W, h / H)` in
/// texture space.
pub proof fn lemma_texcoords_at_origin(w: i32, h: i32, tex_width: i32, tex_height: i32)
    ensures
        ({
            let t = texcoords_of(0, 0, w as int, h as int, tex_width as int, tex_height as int);
            &&& t.bottom_left.x == Ratio { num: 0, den: tex_width as i64 }
            &&& t.bottom_left.y == Ratio { num: 0, den: tex_height as i64 }
            &&& t.top_right.x == Ratio { num: w as i64, den: tex_width as i64 }
            &&& t.top_right.y == Ratio { num: h as i64, den: tex_height as i64 }
        }),
{
}

/// How many whole cells of extent `cell` fit side by side in `extent` pixels.
/// A cell without extent, or one larger than the texture, fits no times.
pub open spec fn cells_along(extent: int, cell: int) -> int {
    if cell > 0 && extent > 0 {
        extent / cell
    } else {
        0
    }
}

/// The number of cells of `w` by `h` pixels that a texture of `tex_width` by
/// `tex_height` pixels holds.
pub open spec fn grid_capacity(tex_width: int, tex_height: int, w: int, h: int) -> int {
    cells_along(tex_width, w) * cells_along(tex_height, h)
}

/// The column of the cell with the given index: cells run left to right.
pub open spec fn cell_column(tex_width: int, w: int, index: int) -> int {
    index % cells_along(tex_width, w)
}

/// The row of the cell with the given index: a row is complete before the
/// next one starts.
pub open spec fn cell_row(tex_width: int, w: int, index: int) -> int {
    index / cells_along(tex_width, w)
}

/// The left edge of the cell with the given index.
pub open spec fn cell_x(tex_width: int, w: int, index: int) -> int {
    cell_column(tex_width, w, index) * w
}

/// The low edge of the cell with the given index. Row 0 touches the texture's
/// high edge, `y = tex_height`, and each further row lies one cell lower.
pub open spec fn cell_y(tex_width: int, tex_height: int, w: int, h: int, index: int) -> int {
    tex_height - (cell_row(tex_width, w, index) + 1) * h
}

/// The frame that tiling puts at the given index.
pub open spec fn tiled_frame(tex_width: int, tex_height: int, w: int, h: int, index: int)
    -> Frame {
    let x = cell_x(tex_width, w, index);
    let y = cell_y(tex_width, tex_height, w, h, index);
    Frame {
        position: Vec2 { x: x as i32, y: y as i32 },
        size: Vec2 { x: w as i32, y: h as i32 },
        texcoords: texcoords_of(x, y, w, h, tex_width, tex_height),
    }
}

/// The frames that tiling produces for a request of `count` cells.
pub open spec fn tiled_frames(tex_width: int, tex_height: int, w: int, h: int, count: nat)
    -> Seq<Frame> {
    Seq::new(count, |i: int| tiled_frame(tex_width, tex_height, w, h, i))
}

/// `cells_along` is the whole quotient: that many cells fit, one more does not.
pub proof fn lemma_cells_along(extent: int, cell: int)
    requires
        cells_along(extent, cell) > 0,
    ensures
        cell > 0,
        cells_along(extent, cell) * cell <= extent,
        extent < (cells_along(extent, cell) + 1) * cell,
{
    lemma_fundamental_div_mod(extent, cell);
    lemma_mod_bound(extent, cell);
    let n = extent / cell;
    assert(cell * n == n * cell) by (nonlinear_arith);
    assert((n + 1) * cell == n * cell + cell) by (nonlinear_arith);
}

/// A grid that holds anything has at least one column and one row.
pub proof fn lemma_capacity_positive(tex_width: int, tex_height: int, w: int, h: int)
    requires
        grid_capacity(tex_width, tex_height, w, h) > 0,
    ensures
        cells_along(tex_width, w) > 0,
        cells_along(tex_height, h) > 0,
{
    let cols = cells_along(tex_width, w);
    let rows = cells_along(tex_height, h);
    assert(cols >= 0 && rows >= 0) by {
        if w > 0 && tex_width > 0 {
            lemma_fundamental_div_mod(tex_width, w);
            lemma_mod_bound(tex_width, w);
            assert(tex_width / w >= 0) by (nonlinear_arith)
                requires
                    tex_width == w * (tex_width / w) + tex_width % w,
                    0 <= tex_width % w < w,
                    tex_width > 0,
            ;
        }
        if h > 0 && tex_height > 0 {
            lemma_fundamental_div_mod(tex_height, h);
            lemma_mod_bound(tex_height, h);
            assert(tex_height / h >= 0) by (nonlinear_arith)
                requires
                    tex_height == h * (tex_height / h) + tex_height % h,
                    0 <= tex_height % h < h,
                    tex_height > 0,
            ;
        }
    }
    assert(cols > 0 && rows > 0) by (nonlinear_arith)
        requires
            cols >= 0,
            rows >= 0,
            cols * rows > 0,
    ;
}

/// Column and row of a cell below the grid's capacity: the index is
/// `row * columns + column`, with the column inside a row and the row inside
/// the grid.
pub proof fn lemma_cell_place(tex_width: int, tex_height: int, w: int, h: int, index: int)
    requires
        0 <= index < grid_capacity(tex_width, tex_height, w, h),
    ensures
        0 <= cell_column(tex_width, w, index) < cells_along(tex_width, w),
        0 <= cell_row(tex_width, w, index) < cells_along(tex_height, h),
        index == cell_row(tex_width, w, index) * cells_along(tex_width, w) + cell_column(
            tex_width,
            w,
            index,
        ),
{
    lemma_capacity_positive(tex_width, tex_height, w, h);
    let cols = cells_along(tex_width, w);
    let rows = cells_along(tex_height, h);
    let c = index % cols;
    let r = index / cols;
    lemma_fundamental_div_mod(index, cols);
    lemma_mod_bound(index, cols);
    assert(cols * r == r * cols) by (nonlinear_arith);
    assert(0 <= r < rows) by (nonlinear_arith)
        requires
            index == r * cols + c,
            0 <= c < cols,
            0 <= index < cols * rows,
    ;
}

/// Every frame below the grid's capacity lies within the texture.
pub proof fn lemma_tiling_within_bounds(
    tex_width: int,
    tex_height: int,
    w: int,
    h: int,
    index: int,
)
    requires
        0 <= index < grid_capacity(tex_width, tex_height, w, h),
    ensures
        w > 0,
        h > 0,
        0 <= cell_x(tex_width, w, index),
        cell_x(tex_width, w, index) + w <= tex_width,
        0 <= cell_y(tex_width, tex_height, w, h, index),
        cell_y(tex_width, tex_height, w, h, index) + h <= tex_height,
{
    lemma_capacity_positive(tex_width, tex_height, w, h);
    lemma_cell_place(tex_width, tex_height, w, h, index);
    lemma_cells_along(tex_width, w);
    lemma_cells_along(tex_height, h);
    let cols = cells_along(tex_width, w);
    let rows = cells_along(tex_height, h);
    let c = cell_column(tex_width, w, index);
    let r = cell_row(tex_width, w, index);
    assert(0 <= c * w && (c + 1) * w <= cols * w && (c + 1) * w == c * w + w)
        by (nonlinear_arith)
        requires
            0 <= c < cols,
            w > 0,
    ;
    assert(0 <= r * h && (r + 1) * h <= rows * h && (r + 1) * h == r * h + h)
        by (nonlinear_arith)
        requires
            0 <= r < rows,
            h > 0,
    ;
}

/// No two frames below the grid's capacity overlap: they are apart along one
/// axis at least.
pub proof fn lemma_tiling_disjoint(
    tex_width: int,
    tex_height: int,
    w: int,
    h: int,
    i: int,
    j: int,
)
    requires
        0 <= i < grid_capacity(tex_width, tex_height, w, h),
        0 <= j < grid_capacity(tex_width, tex_height, w, h),
        i != j,
    ensures
        ({
            let xi = cell_x(tex_width, w, i);
            let xj = cell_x(tex_width, w, j);
            let yi = cell_y(tex_width, tex_height, w, h, i);
            let yj = cell_y(tex_width, tex_height, w, h, j);
            xi + w <= xj || xj + w <= xi || yi + h <= yj || yj + h <= yi
        }),
{
    lemma_tiling_within_bounds(tex_width, tex_height, w, h, i);
    lemma_cell_place(tex_width, tex_height, w, h, i);
    lemma_cell_place(tex_width, tex_height, w, h, j);
    let ci = cell_column(tex_width, w, i);
    let cj = cell_column(tex_width, w, j);
    let ri = cell_row(tex_width, w, i);
    let rj = cell_row(tex_width, w, j);
    assert(ci != cj || ri != rj);
    if ci != cj {
        assert(ci * w + w <= cj * w || cj * w + w <= ci * w) by (nonlinear_arith)
            requires
                ci != cj,
                w > 0,
        ;
    } else {
        assert((ri + 1) * h + h <= (rj + 1) * h || (rj + 1) * h + h <= (ri + 1) * h)
            by (nonlinear_arith)
            requires
                ri != rj,
                h > 0,
        ;
    }
}

/// The frames cover the grid row by row: the cell in column `col` of row
/// `row` is the frame with index `row * columns + col`, and that index is
/// below the grid's capacity.
pub proof fn lemma_tiling_covers_grid(
    tex_width: int,
    tex_height: int,
    w: int,
    h: int,
    col: int,
    row: int,
)
    requires
        0 <= col < cells_along(tex_width, w),
        0 <= row < cells_along(tex_height, h),
    ensures
        ({
            let index = row * cells_along(tex_width, w) + col;
            &&& 0 <= index < grid_capacity(tex_width, tex_height, w, h)
            &&& cell_x(tex_width, w, index) == col * w
            &&& cell_y(tex_width, tex_height, w, h, index) == tex_height - (row + 1) * h
        }),
{
    let cols = cells_along(tex_width, w);
    let rows = cells_along(tex_height, h);
    let index = row * cols + col;
    assert(0 <= index < cols * rows) by (nonlinear_arith)
        requires
            index == row * cols + col,
            0 <= col < cols,
            0 <= row < rows,
    ;
    lemma_fundamental_div_mod_converse(index, cols, row, col);
}

/// Past the grid's capacity the tiling leaves the texture: with at least one
/// column, every index from the capacity on has its low edge below zero.
pub proof fn lemma_tiling_overflows(tex_width: int, tex_height: int, w: int, h: int, index: int)
    requires
        cells_along(tex_width, w) > 0,
        h > 0,
        tex_height >= 0,
        index >= grid_capacity(tex_width, tex_height, w, h),
    ensures
        cell_y(tex_width, tex_height, w, h, index) < 0,
{
    let cols = cells_along(tex_width, w);
    let rows = cells_along(tex_height, h);
    let r = index / cols;
    let c = index % cols;
    lemma_fundamental_div_mod(index, cols);
    lemma_mod_bound(index, cols);
    assert(r >= rows) by (nonlinear_arith)
        requires
            index == cols * r + c,
            0 <= c < cols,
            index >= cols * rows,
    ;
    if tex_height > 0 {
        lemma_fundamental_div_mod(tex_height, h);
        lemma_mod_bound(tex_height, h);
        assert(tex_height < (r + 1) * h) by (nonlinear_arith)
            requires
                tex_height == h * rows + tex_height % h,
                0 <= tex_height % h < h,
                r >= rows,
                h > 0,
        ;
    } else {
        assert(rows == 0);
        assert(0 < (r + 1) * h) by (nonlinear_arith)
            requires
                r >= 0,
                h > 0,
        ;
    }
}

/// Texture coordinates of a frame below the grid's capacity lie in the unit
/// square.
pub proof fn lemma_tiled_texcoords_normalized(
    tex_width: i32,
    tex_height: i32,
    w: int,
    h: int,
    index: int,
)
    requires
        0 <= index < grid_capacity(tex_width as int, tex_height as int, w, h),
    ensures
        tiled_frame(tex_width as int, tex_height as int, w, h, index).texcoords.normalized(),
{
    lemma_tiling_within_bounds(tex_width as int, tex_height as int, w, h, index);
}

} // verus!
