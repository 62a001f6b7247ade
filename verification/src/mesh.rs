//! The mesh builder: walks a height field and emits vertex positions,
//! per-vertex normals, texture coordinates and a triangle index buffer.
//!
//! All coordinates are exact.  A position or texture coordinate is a
//! rational number (`num / den`, `den > 0`); a normal is an integer vector
//! that points along the true surface normal (derived from central
//! differences of the neighbouring elevations) but is not yet scaled to
//! unit length.  Converting a rational to floating point and dividing a
//! normal by its length are the renderer-facing caller's final step; every
//! value below is pinned exactly by a contract.

use vstd::prelude::*;

use crate::grid::GridError;
use crate::grid::GridSpec;
use crate::grid::lattice_to_index;
use crate::grid::lemma_flatten_injective;
use crate::grid::lemma_lattice_to_index_bound;
use crate::grid::lemma_lattice_to_index_injective;
use crate::grid::spec_lattice_to_index;
use crate::heights::HeightField;
use crate::heights::SAMPLE_LIMIT;
use crate::heights::samples_in_range;

verus! {

/// Machine limit on cells per axis: keeps every position and normal
/// numerator inside `i64`.
pub const AXIS_LIMIT: u32 = 0x1_0000;

/// Machine limit on the physical scale of the surface.
pub const SCALE_LIMIT: u32 = 0x1_0000;

/// Machine limit on the magnitude of the vertical-scale numerator.
pub const HEIGHT_NUM_LIMIT: i64 = 0x10_0000;

/// Machine limit on the vertical-scale denominator.
pub const HEIGHT_DEN_LIMIT: i64 = 0x4000_0000;

/// An exact rational coordinate: the value `num / den`, with `den > 0`
/// wherever this crate emits one.
#[derive(Clone, Copy, Debug, PartialEq, Eq, Structural)]
pub struct Frac {
    pub num: i64,
    pub den: i64,
}

impl Frac {
    /// The rational is exactly zero.
    pub open spec fn is_zero(self) -> bool {
        self.num == 0 && self.den >= 1
    }

    /// The rational is exactly one.
    pub open spec fn is_one(self) -> bool {
        self.num == self.den && self.den >= 1
    }
}

/// A model-space vertex position.
#[derive(Clone, Copy, Debug, PartialEq, Eq, Structural)]
pub struct Position {
    pub x: Frac,
    pub y: Frac,
    pub z: Frac,
}

/// An unnormalized per-vertex surface normal.  Its direction is exact; its
/// `y` component is always positive, so dividing by the Euclidean length
/// (the caller's floating-point step) is always possible and yields an
/// upward-facing unit normal.
#[derive(Clone, Copy, Debug, PartialEq, Eq, Structural)]
pub struct Normal {
    pub x: i64,
    pub y: i64,
    pub z: i64,
}

/// A texture coordinate in `[0, 1]^2`.
#[derive(Clone, Copy, Debug, PartialEq, Eq, Structural)]
pub struct TexCoord {
    pub u: Frac,
    pub v: Frac,
}

/// Everything the mesh builder needs beyond the grid resolution.
///
/// `physical_scale` is the surface's model-space extent `S`: the surface
/// spans `[-S/2, S/2]` along X and Z.  It is deliberately independent of
/// the noise-sampling extent.  `height_num / height_den` is the vertical
/// scale applied uniformly to every elevation sample; a caller folds its
/// fixed-point sample unit and any terrain exaggeration into this one
/// rational factor.
#[derive(Clone, Copy, Debug, PartialEq, Eq, Structural)]
pub struct MeshParams {
    pub physical_scale: u32,
    pub height_num: i64,
    pub height_den: i64,
}

impl MeshParams {
    /// Machine limits that keep all emitted numerators inside `i64`.
    pub open spec fn valid(self) -> bool {
        &&& 1 <= self.physical_scale <= SCALE_LIMIT
        &&& 1 <= self.height_den <= HEIGHT_DEN_LIMIT
        &&& -HEIGHT_NUM_LIMIT <= self.height_num <= HEIGHT_NUM_LIMIT
    }
}

impl Default for MeshParams {
    /// The defaults: a surface spanning `[-5, 5]` along X and Z, and
    /// elevation samples taken as-is.
    fn default() -> (params: MeshParams)
        ensures
            params == (MeshParams { physical_scale: 10, height_num: 1, height_den: 1 }),
            params.valid(),
    {
        MeshParams { physical_scale: 10, height_num: 1, height_den: 1 }
    }
}

/// The finished mesh: three parallel vertex-attribute buffers and the
/// triangle index buffer, ready for a renderer after the caller's exact ->
/// floating-point conversion.
#[derive(Debug, PartialEq, Eq)]
pub struct MeshData {
    pub positions: Vec<Position>,
    pub normals: Vec<Normal>,
    pub uvs: Vec<TexCoord>,
    pub indices: Vec<u32>,
}

/// Machine limit on the grid resolution the mesh builder accepts.
pub open spec fn dims_supported(width: int, depth: int) -> bool {
    &&& 1 <= width <= AXIS_LIMIT
    &&& 1 <= depth <= AXIS_LIMIT
}

/// The texture coordinate stored for lattice point `(col, row)` is exactly
/// `(col / width, row / depth)`.
pub open spec fn uv_matches(
    uvs: Seq<TexCoord>,
    width: int,
    depth: int,
    col: int,
    row: int,
) -> bool {
    let t = uvs[spec_lattice_to_index(col, row, width)];
    &&& t.u.num == col
    &&& t.u.den == width
    &&& t.v.num == row
    &&& t.v.den == depth
}

/// The position stored for lattice point `(col, row)` is exactly
/// `((col - width/2) * S / width, sample * height scale,
/// (row - depth/2) * S / depth)`, written with integer numerators.
pub open spec fn position_matches(
    ps: Seq<Position>,
    field: HeightField,
    params: MeshParams,
    col: int,
    row: int,
) -> bool {
    let w = field.width as int;
    let d = field.depth as int;
    let s = params.physical_scale as int;
    let p = ps[spec_lattice_to_index(col, row, w)];
    &&& p.x.num == (2 * col - w) * s
    &&& p.x.den == 2 * w
    &&& p.y.num == field.sample_at(col, row) * params.height_num
    &&& p.y.den == params.height_den
    &&& p.z.num == (2 * row - d) * s
    &&& p.z.den == 2 * d
}

/// Elevation difference across lattice point `(col, row)` along columns:
/// a central difference in the interior, a doubled one-sided difference at
/// the first and last column, so that every value shares the denominator
/// `2 * sample spacing`.
pub open spec fn spec_col_diff(field: HeightField, col: int, row: int) -> int {
    let w = field.width as int;
    if col == 0 {
        2 * (field.sample_at(1, row) - field.sample_at(0, row))
    } else if col == w {
        2 * (field.sample_at(w, row) - field.sample_at(w - 1, row))
    } else {
        field.sample_at(col + 1, row) - field.sample_at(col - 1, row)
    }
}

/// Elevation difference across lattice point `(col, row)` along rows; see
/// [`spec_col_diff`].
pub open spec fn spec_row_diff(field: HeightField, col: int, row: int) -> int {
    let d = field.depth as int;
    if row == 0 {
        2 * (field.sample_at(col, 1) - field.sample_at(col, 0))
    } else if row == d {
        2 * (field.sample_at(col, d) - field.sample_at(col, d - 1))
    } else {
        field.sample_at(col, row + 1) - field.sample_at(col, row - 1)
    }
}

/// The normal stored for lattice point `(col, row)` is exactly the surface
/// gradient normal `(-dh/dx, 1, -dh/dz)`, scaled by the positive factor
/// `2 * height_den * S` so that it has integer components.
pub open spec fn normal_matches(
    ns: Seq<Normal>,
    field: HeightField,
    params: MeshParams,
    col: int,
    row: int,
) -> bool {
    let w = field.width as int;
    let d = field.depth as int;
    let s = params.physical_scale as int;
    let n = ns[spec_lattice_to_index(col, row, w)];
    &&& n.x == -spec_col_diff(field, col, row) * params.height_num * w
    &&& n.y == 2 * params.height_den * s
    &&& n.z == -spec_row_diff(field, col, row) * params.height_num * d
}

/// Column of the `j`-th corner (of six) emitted for cell `(col, row)`:
/// the two triangles `(col,row) (col,row+1) (col+1,row+1)` and
/// `(col,row) (col+1,row+1) (col+1,row)`.
pub open spec fn spec_corner_col(col: int, j: int) -> int {
    if j == 2 || j == 4 || j == 5 {
        col + 1
    } else {
        col
    }
}

/// Row of the `j`-th corner emitted for cell `(col, row)`; see
/// [`spec_corner_col`].
pub open spec fn spec_corner_row(row: int, j: int) -> int {
    if j == 1 || j == 2 || j == 4 {
        row + 1
    } else {
        row
    }
}

/// The `j`-th index-buffer entry of cell `(col, row)` references exactly
/// the vertex of the corresponding quad corner.
pub open spec fn index_entry_matches(
    indices: Seq<u32>,
    width: int,
    depth: int,
    col: int,
    row: int,
    j: int,
) -> bool {
    indices[(row * width + col) * 6 + j] == spec_lattice_to_index(
        spec_corner_col(col, j),
        spec_corner_row(row, j),
        width,
    )
}

/// Bound on a product from bounds on its factors.
proof fn lemma_mul_bound(a: int, b: int, ab: int, bb: int)
    requires
        -ab <= a <= ab,
        -bb <= b <= bb,
        0 <= ab,
        0 <= bb,
    ensures
        -(ab * bb) <= a * b <= ab * bb,
{
    assert(-(ab * bb) <= a * b <= ab * bb) by (nonlinear_arith)
        requires
            -ab <= a <= ab,
            -bb <= b <= bb,
            0 <= ab,
            0 <= bb,
    ;
}

/// Emit the texture-coordinate buffer: `(col / width, row / depth)` for
/// each lattice point, row-major.
pub fn build_uvs(spec: &GridSpec) -> (uvs: Vec<TexCoord>)
    requires
        spec.valid(),
        spec.counts_in_range(),
    ensures
        uvs@.len() == spec.spec_vertex_count(),
        forall|col: int, row: int|
            0 <= col <= spec.width && 0 <= row <= spec.depth ==> #[trigger] uv_matches(
                uvs@,
                spec.width as int,
                spec.depth as int,
                col,
                row,
            ),
{
    let w = spec.width;
    let d = spec.depth;
    proof {
        assert(w + 1 <= u32::MAX && d + 1 <= u32::MAX) by (nonlinear_arith)
            requires
                w >= 1,
                d >= 1,
                (w + 1) * (d + 1) <= u32::MAX,
        ;
    }
    let mut uvs: Vec<TexCoord> = Vec::new();
    let mut row: u32 = 0;
    while row <= d
        invariant
            w == spec.width,
            d == spec.depth,
            spec.valid(),
            spec.counts_in_range(),
            w + 1 <= u32::MAX,
            d + 1 <= u32::MAX,
            row <= d + 1,
            uvs@.len() == row * (w + 1),
            forall|c2: int, r2: int|
                0 <= c2 <= w && 0 <= r2 <= d && spec_lattice_to_index(c2, r2, w as int)
                    < uvs@.len() ==> #[trigger] uv_matches(uvs@, w as int, d as int, c2, r2),
        decreases d + 1 - row,
    {
        let mut col: u32 = 0;
        while col <= w
            invariant
                w == spec.width,
                d == spec.depth,
                spec.valid(),
                spec.counts_in_range(),
                w + 1 <= u32::MAX,
                d + 1 <= u32::MAX,
                row <= d,
                col <= w + 1,
                uvs@.len() == spec_lattice_to_index(col as int, row as int, w as int),
                forall|c2: int, r2: int|
                    0 <= c2 <= w && 0 <= r2 <= d && spec_lattice_to_index(c2, r2, w as int)
                        < uvs@.len() ==> #[trigger] uv_matches(uvs@, w as int, d as int, c2, r2),
            decreases w + 1 - col,
        {
            let ghost prev = uvs@;
            uvs.push(
                TexCoord {
                    u: Frac { num: col as i64, den: w as i64 },
                    v: Frac { num: row as i64, den: d as i64 },
                },
            );
            proof {
                assert forall|c2: int, r2: int|
                    0 <= c2 <= w && 0 <= r2 <= d && spec_lattice_to_index(c2, r2, w as int)
                        < uvs@.len() implies #[trigger] uv_matches(
                    uvs@,
                    w as int,
                    d as int,
                    c2,
                    r2,
                ) by {
                    if spec_lattice_to_index(c2, r2, w as int) < prev.len() {
                        assert(uv_matches(prev, w as int, d as int, c2, r2));
                    } else {
                        lemma_lattice_to_index_injective(c2, r2, col as int, row as int, w as int);
                    }
                }
            }
            col = col + 1;
        }
        proof {
            assert((row + 1) * (w + 1) == row * (w + 1) + (w + 1)) by (nonlinear_arith);
        }
        row = row + 1;
    }
    proof {
        assert((d + 1) * (w + 1) == (w + 1) * (d + 1)) by (nonlinear_arith);
        assert forall|c2: int, r2: int| 0 <= c2 <= w && 0 <= r2 <= d implies spec_lattice_to_index(
            c2,
            r2,
            w as int,
        ) < uvs@.len() by {
            lemma_lattice_to_index_bound(c2, r2, w as int, d as int);
        }
    }
    uvs
}

/// Emit the position buffer: one exact rational triple per lattice point,
/// row-major.
pub fn build_positions(field: &HeightField, params: &MeshParams) -> (positions: Vec<Position>)
    requires
        field.wf(),
        params.valid(),
        dims_supported(field.width as int, field.depth as int),
    ensures
        positions@.len() == field.grid().spec_vertex_count(),
        forall|col: int, row: int|
            0 <= col <= field.width && 0 <= row <= field.depth ==> #[trigger] position_matches(
                positions@,
                *field,
                *params,
                col,
                row,
            ),
{
    let w = field.width;
    let d = field.depth;
    let wl = w as i64;
    let dl = d as i64;
    let sc = params.physical_scale as i64;
    let mut positions: Vec<Position> = Vec::new();
    let mut row: u32 = 0;
    while row <= d
        invariant
            w == field.width,
            d == field.depth,
            wl == w as i64,
            dl == d as i64,
            sc == params.physical_scale as i64,
            field.wf(),
            params.valid(),
            dims_supported(w as int, d as int),
            row <= d + 1,
            positions@.len() == row * (w + 1),
            forall|c2: int, r2: int|
                0 <= c2 <= w && 0 <= r2 <= d && spec_lattice_to_index(c2, r2, w as int)
                    < positions@.len() ==> #[trigger] position_matches(
                    positions@,
                    *field,
                    *params,
                    c2,
                    r2,
                ),
        decreases d + 1 - row,
    {
        let mut col: u32 = 0;
        while col <= w
            invariant
                w == field.width,
                d == field.depth,
                wl == w as i64,
                dl == d as i64,
                sc == params.physical_scale as i64,
                field.wf(),
                params.valid(),
                dims_supported(w as int, d as int),
                row <= d,
                col <= w + 1,
                positions@.len() == spec_lattice_to_index(col as int, row as int, w as int),
                forall|c2: int, r2: int|
                    0 <= c2 <= w && 0 <= r2 <= d && spec_lattice_to_index(c2, r2, w as int)
                        < positions@.len() ==> #[trigger] position_matches(
                        positions@,
                        *field,
                        *params,
                        c2,
                        r2,
                    ),
            decreases w + 1 - col,
        {
            let sl = field.sample(col, row);
            proof {
                lemma_mul_bound(
                    2 * (col as int) - w,
                    sc as int,
                    2 * AXIS_LIMIT,
                    SCALE_LIMIT as int,
                );
                lemma_mul_bound(
                    2 * (row as int) - d,
                    sc as int,
                    2 * AXIS_LIMIT,
                    SCALE_LIMIT as int,
                );
                lemma_mul_bound(sl as int, params.height_num as int, SAMPLE_LIMIT as int,
                    HEIGHT_NUM_LIMIT as int);
            }
            let xn = (2 * (col as i64) - wl) * sc;
            let yn = sl * params.height_num;
            let zn = (2 * (row as i64) - dl) * sc;
            let ghost prev = positions@;
            positions.push(
                Position {
                    x: Frac { num: xn, den: 2 * wl },
                    y: Frac { num: yn, den: params.height_den },
                    z: Frac { num: zn, den: 2 * dl },
                },
            );
            proof {
                assert forall|c2: int, r2: int|
                    0 <= c2 <= w && 0 <= r2 <= d && spec_lattice_to_index(c2, r2, w as int)
                        < positions@.len() implies #[trigger] position_matches(
                    positions@,
                    *field,
                    *params,
                    c2,
                    r2,
                ) by {
                    if spec_lattice_to_index(c2, r2, w as int) < prev.len() {
                        assert(position_matches(prev, *field, *params, c2, r2));
                    } else {
                        lemma_lattice_to_index_injective(c2, r2, col as int, row as int, w as int);
                    }
                }
            }
            col = col + 1;
        }
        proof {
            assert((row + 1) * (w + 1) == row * (w + 1) + (w + 1)) by (nonlinear_arith);
        }
        row = row + 1;
    }
    proof {
        assert((d + 1) * (w + 1) == (w + 1) * (d + 1)) by (nonlinear_arith);
        assert forall|c2: int, r2: int| 0 <= c2 <= w && 0 <= r2 <= d implies spec_lattice_to_index(
            c2,
            r2,
            w as int,
        ) < positions@.len() by {
            lemma_lattice_to_index_bound(c2, r2, w as int, d as int);
        }
    }
    positions
}

/// Emit the normal buffer: one exact, unnormalized finite-difference
/// surface normal per lattice point, row-major.
pub fn build_normals(field: &HeightField, params: &MeshParams) -> (normals: Vec<Normal>)
    requires
        field.wf(),
        params.valid(),
        dims_supported(field.width as int, field.depth as int),
    ensures
        normals@.len() == field.grid().spec_vertex_count(),
        forall|col: int, row: int|
            0 <= col <= field.width && 0 <= row <= field.depth ==> #[trigger] normal_matches(
                normals@,
                *field,
                *params,
                col,
                row,
            ),
{
    let w = field.width;
    let d = field.depth;
    let wl = w as i64;
    let dl = d as i64;
    let sc = params.physical_scale as i64;
    let mut normals: Vec<Normal> = Vec::new();
    let mut row: u32 = 0;
    while row <= d
        invariant
            w == field.width,
            d == field.depth,
            wl == w as i64,
            dl == d as i64,
            sc == params.physical_scale as i64,
            field.wf(),
            params.valid(),
            dims_supported(w as int, d as int),
            row <= d + 1,
            normals@.len() == row * (w + 1),
            forall|c2: int, r2: int|
                0 <= c2 <= w && 0 <= r2 <= d && spec_lattice_to_index(c2, r2, w as int)
                    < normals@.len() ==> #[trigger] normal_matches(normals@, *field, *params, c2, r2),
        decreases d + 1 - row,
    {
        let mut col: u32 = 0;
        while col <= w
            invariant
                w == field.width,
                d == field.depth,
                wl == w as i64,
                dl == d as i64,
                sc == params.physical_scale as i64,
                field.wf(),
                params.valid(),
                dims_supported(w as int, d as int),
                row <= d,
                col <= w + 1,
                normals@.len() == spec_lattice_to_index(col as int, row as int, w as int),
                forall|c2: int, r2: int|
                    0 <= c2 <= w && 0 <= r2 <= d && spec_lattice_to_index(c2, r2, w as int)
                        < normals@.len() ==> #[trigger] normal_matches(
                        normals@,
                        *field,
                        *params,
                        c2,
                        r2,
                    ),
            decreases w + 1 - col,
        {
            let dsx: i64 = if col == 0 {
                2 * (field.sample(1, row) - field.sample(0, row))
            } else if col == w {
                2 * (field.sample(w, row) - field.sample(w - 1, row))
            } else {
                field.sample(col + 1, row) - field.sample(col - 1, row)
            };
            let dsz: i64 = if row == 0 {
                2 * (field.sample(col, 1) - field.sample(col, 0))
            } else if row == d {
                2 * (field.sample(col, d) - field.sample(col, d - 1))
            } else {
                field.sample(col, row + 1) - field.sample(col, row - 1)
            };
            proof {
                assert(dsx == spec_col_diff(*field, col as int, row as int));
                assert(dsz == spec_row_diff(*field, col as int, row as int));
                lemma_mul_bound(-(dsx as int), params.height_num as int, 4 * SAMPLE_LIMIT,
                    HEIGHT_NUM_LIMIT as int);
                lemma_mul_bound(-(dsx as int) * params.height_num, wl as int, 4 * SAMPLE_LIMIT
                    * HEIGHT_NUM_LIMIT, AXIS_LIMIT as int);
                lemma_mul_bound(-(dsz as int), params.height_num as int, 4 * SAMPLE_LIMIT,
                    HEIGHT_NUM_LIMIT as int);
                lemma_mul_bound(-(dsz as int) * params.height_num, dl as int, 4 * SAMPLE_LIMIT
                    * HEIGHT_NUM_LIMIT, AXIS_LIMIT as int);
                lemma_mul_bound(2 * (params.height_den as int), sc as int, 2 * HEIGHT_DEN_LIMIT,
                    SCALE_LIMIT as int);
            }
            let nx = (-dsx) * params.height_num * wl;
            let ny = 2 * params.height_den * sc;
            let nz = (-dsz) * params.height_num * dl;
            let ghost prev = normals@;
            normals.push(Normal { x: nx, y: ny, z: nz });
            proof {
                assert forall|c2: int, r2: int|
                    0 <= c2 <= w && 0 <= r2 <= d && spec_lattice_to_index(c2, r2, w as int)
                        < normals@.len() implies #[trigger] normal_matches(
                    normals@,
                    *field,
                    *params,
                    c2,
                    r2,
                ) by {
                    if spec_lattice_to_index(c2, r2, w as int) < prev.len() {
                        assert(normal_matches(prev, *field, *params, c2, r2));
                    } else {
                        lemma_lattice_to_index_injective(c2, r2, col as int, row as int, w as int);
                    }
                }
            }
            col = col + 1;
        }
        proof {
            assert((row + 1) * (w + 1) == row * (w + 1) + (w + 1)) by (nonlinear_arith);
        }
        row = row + 1;
    }
    proof {
        assert((d + 1) * (w + 1) == (w + 1) * (d + 1)) by (nonlinear_arith);
        assert forall|c2: int, r2: int| 0 <= c2 <= w && 0 <= r2 <= d implies spec_lattice_to_index(
            c2,
            r2,
            w as int,
        ) < normals@.len() by {
            lemma_lattice_to_index_bound(c2, r2, w as int, d as int);
        }
    }
    normals
}

/// Emit the triangle index buffer: six entries per cell, two
/// counter-clockwise (seen from above) triangles covering the cell's quad,
/// cells row-major.
pub fn build_indices(spec: &GridSpec) -> (indices: Vec<u32>)
    requires
        spec.valid(),
        spec.counts_in_range(),
    ensures
        indices@.len() == spec.spec_index_count(),
        forall|col: int, row: int, j: int|
            0 <= col < spec.width && 0 <= row < spec.depth && 0 <= j < 6
                ==> #[trigger] index_entry_matches(
                indices@,
                spec.width as int,
                spec.depth as int,
                col,
                row,
                j,
            ),
        forall|k: int|
            0 <= k < indices@.len() ==> #[trigger] indices@[k] < spec.spec_vertex_count(),
{
    let w = spec.width;
    let d = spec.depth;
    proof {
        assert(w + 1 <= u32::MAX && d + 1 <= u32::MAX) by (nonlinear_arith)
            requires
                w >= 1,
                d >= 1,
                (w + 1) * (d + 1) <= u32::MAX,
        ;
    }
    let mut indices: Vec<u32> = Vec::new();
    let mut row: u32 = 0;
    while row < d
        invariant
            w == spec.width,
            d == spec.depth,
            spec.valid(),
            spec.counts_in_range(),
            w + 1 <= u32::MAX,
            d + 1 <= u32::MAX,
            row <= d,
            indices@.len() == (row * w) * 6,
            forall|c2: int, r2: int, j2: int|
                0 <= c2 < w && 0 <= r2 < d && 0 <= j2 < 6 && (r2 * w + c2) * 6 + j2
                    < indices@.len() ==> #[trigger] index_entry_matches(
                    indices@,
                    w as int,
                    d as int,
                    c2,
                    r2,
                    j2,
                ),
            forall|k: int|
                0 <= k < indices@.len() ==> #[trigger] indices@[k] < spec.spec_vertex_count(),
        decreases d - row,
    {
        let mut col: u32 = 0;
        while col < w
            invariant
                w == spec.width,
                d == spec.depth,
                spec.valid(),
                spec.counts_in_range(),
                w + 1 <= u32::MAX,
                d + 1 <= u32::MAX,
                row < d,
                col <= w,
                indices@.len() == (row * w + col) * 6,
                forall|c2: int, r2: int, j2: int|
                    0 <= c2 < w && 0 <= r2 < d && 0 <= j2 < 6 && (r2 * w + c2) * 6 + j2
                        < indices@.len() ==> #[trigger] index_entry_matches(
                        indices@,
                        w as int,
                        d as int,
                        c2,
                        r2,
                        j2,
                    ),
                forall|k: int|
                    0 <= k < indices@.len() ==> #[trigger] indices@[k] < spec.spec_vertex_count(),
            decreases w - col,
        {
            proof {
                lemma_lattice_to_index_bound(col as int, row as int, w as int, d as int);
                lemma_lattice_to_index_bound(col as int, row as int + 1, w as int, d as int);
                lemma_lattice_to_index_bound(col as int + 1, row as int + 1, w as int, d as int);
                lemma_lattice_to_index_bound(col as int + 1, row as int, w as int, d as int);
            }
            let i00 = lattice_to_index(col, row, w);
            let i01 = lattice_to_index(col, row + 1, w);
            let i11 = lattice_to_index(col + 1, row + 1, w);
            let i10 = lattice_to_index(col + 1, row, w);
            let ghost prev = indices@;
            indices.push(i00);
            indices.push(i01);
            indices.push(i11);
            indices.push(i00);
            indices.push(i11);
            indices.push(i10);
            proof {
                assert forall|c2: int, r2: int, j2: int|
                    0 <= c2 < w && 0 <= r2 < d && 0 <= j2 < 6 && (r2 * w + c2) * 6 + j2
                        < indices@.len() implies #[trigger] index_entry_matches(
                    indices@,
                    w as int,
                    d as int,
                    c2,
                    r2,
                    j2,
                ) by {
                    let pos = (r2 * (w as int) + c2) * 6 + j2;
                    if pos < prev.len() {
                        assert(index_entry_matches(prev, w as int, d as int, c2, r2, j2));
                        assert(indices@[pos] == prev[pos]);
                    } else {
                        lemma_flatten_injective(
                            j2,
                            r2 * (w as int) + c2,
                            pos - prev.len(),
                            row as int * (w as int) + col as int,
                            6,
                        );
                        lemma_flatten_injective(c2, r2, col as int, row as int, w as int);
                    }
                }
            }
            col = col + 1;
        }
        proof {
            assert(((row + 1) * w) * 6 == (row * w + w) * 6) by (nonlinear_arith);
        }
        row = row + 1;
    }
    proof {
        assert((d * w) * 6 == w * d * 6) by (nonlinear_arith);
        assert forall|c2: int, r2: int, j2: int|
            0 <= c2 < w && 0 <= r2 < d && 0 <= j2 < 6 implies #[trigger] index_entry_matches(
            indices@,
            w as int,
            d as int,
            c2,
            r2,
            j2,
        ) by {
            assert((r2 * (w as int) + c2) * 6 + j2 < ((d as int) * (w as int)) * 6)
                by (nonlinear_arith)
                requires
                    0 <= c2 < w as int,
                    0 <= r2 < d as int,
                    0 <= j2 < 6,
            ;
        }
    }
    indices
}

/// The finished mesh is exactly the one the contracts of the four builders
/// describe: every buffer has its required length, every vertex attribute
/// and every index-buffer entry is pinned, and every index references a
/// valid vertex.
pub open spec fn mesh_matches(mesh: MeshData, field: HeightField, params: MeshParams) -> bool {
    let w = field.width as int;
    let d = field.depth as int;
    &&& mesh.positions@.len() == field.grid().spec_vertex_count()
    &&& mesh.normals@.len() == field.grid().spec_vertex_count()
    &&& mesh.uvs@.len() == field.grid().spec_vertex_count()
    &&& mesh.indices@.len() == field.grid().spec_index_count()
    &&& forall|col: int, row: int|
        0 <= col <= w && 0 <= row <= d ==> #[trigger] position_matches(
            mesh.positions@,
            field,
            params,
            col,
            row,
        )
    &&& forall|col: int, row: int|
        0 <= col <= w && 0 <= row <= d ==> #[trigger] normal_matches(
            mesh.normals@,
            field,
            params,
            col,
            row,
        )
    &&& forall|col: int, row: int|
        0 <= col <= w && 0 <= row <= d ==> #[trigger] uv_matches(mesh.uvs@, w, d, col, row)
    &&& forall|col: int, row: int, j: int|
        0 <= col < w && 0 <= row < d && 0 <= j < 6 ==> #[trigger] index_entry_matches(
            mesh.indices@,
            w,
            d,
            col,
            row,
            j,
        )
    &&& forall|k: int|
        0 <= k < mesh.indices@.len() ==> #[trigger] mesh.indices@[k]
            < field.grid().spec_vertex_count()
}

/// Build the complete mesh for a well-formed height field.
pub fn generate_mesh(field: &HeightField, params: &MeshParams) -> (mesh: MeshData)
    requires
        field.wf(),
        params.valid(),
        dims_supported(field.width as int, field.depth as int),
    ensures
        mesh_matches(mesh, *field, *params),
{
    let spec = GridSpec { width: field.width, depth: field.depth };
    let positions = build_positions(field, params);
    let normals = build_normals(field, params);
    let uvs = build_uvs(&spec);
    let indices = build_indices(&spec);
    MeshData { positions, normals, uvs, indices }
}

/// The whole generation pipeline after sampling: accept a delivery of
/// elevation samples for `spec` and build the mesh.
///
/// Succeeds exactly when the grid is valid and the delivery is complete
/// and in range; an invalid grid fails fast with `InvalidGridSpec` and a
/// bad delivery with `NoiseSamplingFailure`, allocating no buffers either
/// way.
pub fn generate_from_samples(spec: &GridSpec, params: &MeshParams, samples: Vec<i64>) -> (result:
    Result<MeshData, GridError>)
    requires
        spec.counts_in_range(),
        spec.width <= AXIS_LIMIT,
        spec.depth <= AXIS_LIMIT,
        params.valid(),
    ensures
        result is Ok <==> (spec.valid() && samples@.len() == spec.spec_vertex_count()
            && samples_in_range(samples@)),
        match result {
            Ok(mesh) => mesh_matches(
                mesh,
                (HeightField { width: spec.width, depth: spec.depth, samples }),
                *params,
            ),
            Err(e) => {
                &&& (e == GridError::InvalidGridSpec <==> !spec.valid())
                &&& (e == GridError::NoiseSamplingFailure ==> spec.valid())
            },
        },
{
    match HeightField::from_samples(spec, samples) {
        Ok(field) => {
            let mesh = generate_mesh(&field, params);
            Ok(mesh)
        },
        Err(e) => Err(e),
    }
}

} // verus!
