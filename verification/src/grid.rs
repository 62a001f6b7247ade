//! Grid descriptor, validation, and the shared index arithmetic that the
//! height field and the mesh builder both rely on.

use vstd::prelude::*;

verus! {

/// Why a generation request was rejected.
#[derive(Clone, Copy, Debug, PartialEq, Eq, Structural)]
pub enum GridError {
    /// The grid has no cells along at least one axis (`width == 0` or
    /// `depth == 0`); such a grid cannot form a single triangle.
    InvalidGridSpec,
    /// The injected noise-sampling capability misbehaved: it delivered the
    /// wrong number of samples, or a sample outside the supported range.
    NoiseSamplingFailure,
}

/// Immutable descriptor of the lattice: `width` cells along X and `depth`
/// cells along Z.  A valid grid has at least one cell per axis, giving a
/// `(width + 1) x (depth + 1)` lattice of vertices.
#[derive(Clone, Copy, Debug, PartialEq, Eq, Structural)]
pub struct GridSpec {
    pub width: u32,
    pub depth: u32,
}

impl GridSpec {
    /// A grid needs at least one cell per axis.
    pub open spec fn valid(self) -> bool {
        self.width >= 1 && self.depth >= 1
    }

    /// Number of lattice vertices.
    pub open spec fn spec_vertex_count(self) -> int {
        (self.width + 1) * (self.depth + 1)
    }

    /// Number of index-buffer entries: two triangles of three vertices for
    /// each cell.
    pub open spec fn spec_index_count(self) -> int {
        self.width * self.depth * 6
    }

    /// Machine limit: every vertex index must fit in a `u32` index-buffer
    /// entry and every buffer length must fit in a 32-bit `usize`.
    pub open spec fn counts_in_range(self) -> bool {
        &&& (self.width + 1) * (self.depth + 1) <= u32::MAX
        &&& self.width * self.depth * 6 <= u32::MAX
    }

    /// Validate a requested grid resolution.
    pub fn new(width: u32, depth: u32) -> (result: Result<GridSpec, GridError>)
        ensures
            match result {
                Ok(spec) => spec.width == width && spec.depth == depth && spec.valid(),
                Err(e) => e == GridError::InvalidGridSpec && (width == 0 || depth == 0),
            },
            (width >= 1 && depth >= 1) <==> result is Ok,
    {
        if width == 0 || depth == 0 {
            Err(GridError::InvalidGridSpec)
        } else {
            Ok(GridSpec { width, depth })
        }
    }

    /// `(width + 1) * (depth + 1)`, the length of each vertex-attribute
    /// buffer.
    pub fn vertex_count(&self) -> (n: usize)
        requires
            self.counts_in_range(),
        ensures
            n == self.spec_vertex_count(),
    {
        let w = self.width as u64;
        let d = self.depth as u64;
        ((w + 1) * (d + 1)) as usize
    }

    /// `width * depth * 6`, the length of the triangle index buffer.
    pub fn triangle_index_count(&self) -> (n: usize)
        requires
            self.counts_in_range(),
        ensures
            n == self.spec_index_count(),
    {
        let w = self.width as u64;
        let d = self.depth as u64;
        (w * d * 6) as usize
    }
}

/// Row-major flattening of lattice coordinates: lattice point `(col, row)`
/// lives at buffer offset `row * (width + 1) + col`.
pub open spec fn spec_lattice_to_index(col: int, row: int, width: int) -> int {
    row * (width + 1) + col
}

/// Executable counterpart of [`spec_lattice_to_index`].
pub fn lattice_to_index(col: u32, row: u32, width: u32) -> (i: u32)
    requires
        col <= width,
        spec_lattice_to_index(col as int, row as int, width as int) <= u32::MAX,
    ensures
        i == spec_lattice_to_index(col as int, row as int, width as int),
{
    ((row as u64) * ((width as u64) + 1) + (col as u64)) as u32
}

/// Row-major flattening with any positive stride is injective: distinct
/// `(offset, row)` pairs with the offset below the stride get distinct flat
/// positions.
pub proof fn lemma_flatten_injective(c1: int, r1: int, c2: int, r2: int, stride: int)
    requires
        0 <= c1 < stride,
        0 <= c2 < stride,
        0 <= r1,
        0 <= r2,
        r1 * stride + c1 == r2 * stride + c2,
    ensures
        c1 == c2,
        r1 == r2,
{
    assert(r1 == r2 && c1 == c2) by (nonlinear_arith)
        requires
            0 <= c1 < stride,
            0 <= c2 < stride,
            0 <= r1,
            0 <= r2,
            r1 * stride + c1 == r2 * stride + c2,
    ;
}

/// Row-major flattening with any positive stride decomposes: a flat position
/// below `stride * rows` splits into a unique offset and row recovered by
/// `%` and `/`.
pub proof fn lemma_flatten_decompose(i: int, stride: int, rows: int)
    requires
        stride >= 1,
        rows >= 1,
        0 <= i < stride * rows,
    ensures
        0 <= i % stride < stride,
        0 <= i / stride < rows,
        (i / stride) * stride + i % stride == i,
{
    assert(0 <= i % stride < stride && 0 <= i / stride < rows && (i / stride) * stride + i
        % stride == i) by (nonlinear_arith)
        requires
            stride >= 1,
            rows >= 1,
            0 <= i < stride * rows,
    ;
}

/// The flattening is injective on the lattice: distinct lattice points get
/// distinct buffer offsets.
pub proof fn lemma_lattice_to_index_injective(c1: int, r1: int, c2: int, r2: int, width: int)
    requires
        0 <= c1 <= width,
        0 <= c2 <= width,
        0 <= r1,
        0 <= r2,
        spec_lattice_to_index(c1, r1, width) == spec_lattice_to_index(c2, r2, width),
    ensures
        c1 == c2,
        r1 == r2,
{
    lemma_flatten_injective(c1, r1, c2, r2, width + 1);
}

/// Every lattice point of a valid grid flattens to an offset below the
/// vertex count.
pub proof fn lemma_lattice_to_index_bound(col: int, row: int, width: int, depth: int)
    requires
        0 <= col <= width,
        0 <= row <= depth,
    ensures
        0 <= spec_lattice_to_index(col, row, width) < (width + 1) * (depth + 1),
{
    assert(0 <= row * (width + 1) + col < (width + 1) * (depth + 1)) by (nonlinear_arith)
        requires
            0 <= col <= width,
            0 <= row <= depth,
    ;
}

/// Column of the lattice point stored at buffer offset `i`.
pub open spec fn spec_col_of_index(i: int, width: int) -> int {
    i % (width + 1)
}

/// Row of the lattice point stored at buffer offset `i`.
pub open spec fn spec_row_of_index(i: int, width: int) -> int {
    i / (width + 1)
}

/// Every buffer offset below the vertex count decomposes into a unique
/// lattice point that flattens back to it.
pub proof fn lemma_vertex_index_decompose(i: int, width: int, depth: int)
    requires
        width >= 1,
        depth >= 1,
        0 <= i < (width + 1) * (depth + 1),
    ensures
        0 <= spec_col_of_index(i, width) <= width,
        0 <= spec_row_of_index(i, width) <= depth,
        spec_lattice_to_index(spec_col_of_index(i, width), spec_row_of_index(i, width), width)
            == i,
{
    let w1 = width + 1;
    assert(0 <= i % w1 < w1 && i / w1 * w1 + i % w1 == i && 0 <= i / w1 <= depth)
        by (nonlinear_arith)
        requires
            w1 == width + 1,
            width >= 1,
            depth >= 1,
            0 <= i < w1 * (depth + 1),
    ;
}

} // verus!
