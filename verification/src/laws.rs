//! Crate-wide laws: properties that relate several mesh-builder contracts,
//! stated and proved once so a reader does not have to derive them.

use vstd::prelude::*;

use crate::grid::lemma_flatten_decompose;
use crate::grid::lemma_vertex_index_decompose;
use crate::grid::spec_col_of_index;
use crate::grid::spec_lattice_to_index;
use crate::grid::spec_row_of_index;
use crate::heights::HeightField;
use crate::mesh::MeshData;
use crate::mesh::MeshParams;
use crate::mesh::Position;
use crate::mesh::index_entry_matches;
use crate::mesh::mesh_matches;
use crate::mesh::normal_matches;
use crate::mesh::position_matches;
use crate::mesh::spec_col_diff;
use crate::mesh::spec_corner_col;
use crate::mesh::spec_corner_row;
use crate::mesh::spec_row_diff;
use crate::mesh::uv_matches;

verus! {

/// Generation is deterministic: two meshes built for the same height field
/// and parameters have bit-identical buffers.
pub proof fn lemma_generation_deterministic(
    m1: MeshData,
    m2: MeshData,
    field: HeightField,
    params: MeshParams,
)
    requires
        field.wf(),
        mesh_matches(m1, field, params),
        mesh_matches(m2, field, params),
    ensures
        m1.positions@ == m2.positions@,
        m1.normals@ == m2.normals@,
        m1.uvs@ == m2.uvs@,
        m1.indices@ == m2.indices@,
{
    let w = field.width as int;
    let d = field.depth as int;
    assert forall|i: int| 0 <= i < m1.positions@.len() implies m1.positions@[i]
        == m2.positions@[i] by {
        lemma_vertex_index_decompose(i, w, d);
        let c = spec_col_of_index(i, w);
        let r = spec_row_of_index(i, w);
        assert(position_matches(m1.positions@, field, params, c, r));
        assert(position_matches(m2.positions@, field, params, c, r));
    }
    assert(m1.positions@ =~= m2.positions@);
    assert forall|i: int| 0 <= i < m1.normals@.len() implies m1.normals@[i] == m2.normals@[i] by {
        lemma_vertex_index_decompose(i, w, d);
        let c = spec_col_of_index(i, w);
        let r = spec_row_of_index(i, w);
        assert(normal_matches(m1.normals@, field, params, c, r));
        assert(normal_matches(m2.normals@, field, params, c, r));
    }
    assert(m1.normals@ =~= m2.normals@);
    assert forall|i: int| 0 <= i < m1.uvs@.len() implies m1.uvs@[i] == m2.uvs@[i] by {
        lemma_vertex_index_decompose(i, w, d);
        let c = spec_col_of_index(i, w);
        let r = spec_row_of_index(i, w);
        assert(uv_matches(m1.uvs@, w, d, c, r));
        assert(uv_matches(m2.uvs@, w, d, c, r));
    }
    assert(m1.uvs@ =~= m2.uvs@);
    assert forall|k: int| 0 <= k < m1.indices@.len() implies m1.indices@[k] == m2.indices@[k] by {
        assert(w * d * 6 == 6 * (w * d)) by (nonlinear_arith);
        lemma_flatten_decompose(k, 6, w * d);
        let cell = k / 6;
        let j = k % 6;
        lemma_flatten_decompose(cell, w, d);
        let c = cell % w;
        let r = cell / w;
        assert(index_entry_matches(m1.indices@, w, d, c, r, j));
        assert(index_entry_matches(m2.indices@, w, d, c, r, j));
    }
    assert(m1.indices@ =~= m2.indices@);
}

/// Every emitted normal has a strictly positive vertical component: it
/// points upward, is never the zero vector, and can therefore always be
/// scaled to a unit normal.
pub proof fn lemma_normals_point_upward(mesh: MeshData, field: HeightField, params: MeshParams)
    requires
        field.wf(),
        params.valid(),
        mesh_matches(mesh, field, params),
    ensures
        forall|k: int| 0 <= k < mesh.normals@.len() ==> (#[trigger] mesh.normals@[k]).y > 0,
{
    let w = field.width as int;
    let d = field.depth as int;
    assert forall|k: int| 0 <= k < mesh.normals@.len() implies (#[trigger] mesh.normals@[k]).y
        > 0 by {
        lemma_vertex_index_decompose(k, w, d);
        let c = spec_col_of_index(k, w);
        let r = spec_row_of_index(k, w);
        assert(normal_matches(mesh.normals@, field, params, c, r));
        assert(2 * (params.height_den as int) * (params.physical_scale as int) > 0)
            by (nonlinear_arith)
            requires
                params.height_den >= 1,
                params.physical_scale >= 1,
        ;
    }
}

/// Over a flat height field every emitted normal is exactly vertical:
/// `(0, 2 * height_den * S, 0)`, a positive multiple of the up vector, so
/// scaling it to unit length yields exactly `(0, 1, 0)`.
pub proof fn lemma_flat_field_normals(
    mesh: MeshData,
    field: HeightField,
    params: MeshParams,
    level: int,
)
    requires
        field.wf(),
        params.valid(),
        mesh_matches(mesh, field, params),
        field.is_constant(level),
    ensures
        forall|k: int|
            0 <= k < mesh.normals@.len() ==> {
                let n = #[trigger] mesh.normals@[k];
                n.x == 0 && n.y == 2 * params.height_den * params.physical_scale && n.z == 0
            },
{
    let w = field.width as int;
    let d = field.depth as int;
    assert forall|k: int| 0 <= k < mesh.normals@.len() implies {
        let n = #[trigger] mesh.normals@[k];
        n.x == 0 && n.y == 2 * params.height_den * params.physical_scale && n.z == 0
    } by {
        lemma_vertex_index_decompose(k, w, d);
        let c = spec_col_of_index(k, w);
        let r = spec_row_of_index(k, w);
        assert(normal_matches(mesh.normals@, field, params, c, r));
        let n = mesh.normals@[spec_lattice_to_index(c, r, w)];
        let dx = spec_col_diff(field, c, r);
        let dz = spec_row_diff(field, c, r);
        assert(dx == 0 && dz == 0);
        assert(n.x == 0 && n.z == 0) by (nonlinear_arith)
            requires
                dx == 0,
                dz == 0,
                n.x == -dx * params.height_num * w,
                n.z == -dz * params.height_num * d,
        ;
    }
}

/// Every emitted normal really is the surface normal of the
/// finite-difference slope: it is orthogonal to the surface tangent along
/// columns, `(2 * S * height_den, col diff * height_num * width, 0)`, and
/// to the tangent along rows, `(0, row diff * height_num * depth,
/// 2 * S * height_den)` -- both written with the integer scaling that
/// clears every denominator.  Together with its strictly positive vertical
/// component this pins the normal's direction exactly.
pub proof fn lemma_normal_orthogonal_to_slope(
    mesh: MeshData,
    field: HeightField,
    params: MeshParams,
    col: int,
    row: int,
)
    requires
        field.wf(),
        params.valid(),
        mesh_matches(mesh, field, params),
        0 <= col <= field.width,
        0 <= row <= field.depth,
    ensures
        ({
            let w = field.width as int;
            let d = field.depth as int;
            let s = params.physical_scale as int;
            let hn = params.height_num as int;
            let hd = params.height_den as int;
            let n = mesh.normals@[spec_lattice_to_index(col, row, w)];
            &&& 2 * s * hd * n.x + spec_col_diff(field, col, row) * hn * w * n.y == 0
            &&& spec_row_diff(field, col, row) * hn * d * n.y + 2 * s * hd * n.z == 0
        }),
{
    let w = field.width as int;
    let d = field.depth as int;
    let s = params.physical_scale as int;
    let hn = params.height_num as int;
    let hd = params.height_den as int;
    assert(normal_matches(mesh.normals@, field, params, col, row));
    let n = mesh.normals@[spec_lattice_to_index(col, row, w)];
    let dx = spec_col_diff(field, col, row);
    let dz = spec_row_diff(field, col, row);
    assert(2 * s * hd * n.x + dx * hn * w * n.y == 0 && dz * hn * d * n.y + 2 * s * hd * n.z
        == 0) by (nonlinear_arith)
        requires
            n.x == -dx * hn * w,
            n.y == 2 * hd * s,
            n.z == -dz * hn * d,
    ;
}

/// The texture coordinates at the four grid corners are exactly `(0, 0)`,
/// `(1, 0)`, `(0, 1)` and `(1, 1)`.
pub proof fn lemma_corner_uvs(mesh: MeshData, field: HeightField, params: MeshParams)
    requires
        field.wf(),
        mesh_matches(mesh, field, params),
    ensures
        ({
            let w = field.width as int;
            let d = field.depth as int;
            &&& mesh.uvs@[spec_lattice_to_index(0, 0, w)].u.is_zero()
            &&& mesh.uvs@[spec_lattice_to_index(0, 0, w)].v.is_zero()
            &&& mesh.uvs@[spec_lattice_to_index(w, 0, w)].u.is_one()
            &&& mesh.uvs@[spec_lattice_to_index(w, 0, w)].v.is_zero()
            &&& mesh.uvs@[spec_lattice_to_index(0, d, w)].u.is_zero()
            &&& mesh.uvs@[spec_lattice_to_index(0, d, w)].v.is_one()
            &&& mesh.uvs@[spec_lattice_to_index(w, d, w)].u.is_one()
            &&& mesh.uvs@[spec_lattice_to_index(w, d, w)].v.is_one()
        }),
{
    let w = field.width as int;
    let d = field.depth as int;
    assert(uv_matches(mesh.uvs@, w, d, 0, 0));
    assert(uv_matches(mesh.uvs@, w, d, w, 0));
    assert(uv_matches(mesh.uvs@, w, d, 0, d));
    assert(uv_matches(mesh.uvs@, w, d, w, d));
}

/// Every texture coordinate lies in the unit square: both components are
/// rationals with `0 <= num <= den` and positive `den`.
pub proof fn lemma_uvs_in_unit_square(mesh: MeshData, field: HeightField, params: MeshParams)
    requires
        field.wf(),
        mesh_matches(mesh, field, params),
    ensures
        forall|k: int|
            0 <= k < mesh.uvs@.len() ==> {
                let t = #[trigger] mesh.uvs@[k];
                &&& 0 <= t.u.num <= t.u.den
                &&& t.u.den >= 1
                &&& 0 <= t.v.num <= t.v.den
                &&& t.v.den >= 1
            },
{
    let w = field.width as int;
    let d = field.depth as int;
    assert forall|k: int| 0 <= k < mesh.uvs@.len() implies {
        let t = #[trigger] mesh.uvs@[k];
        &&& 0 <= t.u.num <= t.u.den
        &&& t.u.den >= 1
        &&& 0 <= t.v.num <= t.v.den
        &&& t.v.den >= 1
    } by {
        lemma_vertex_index_decompose(k, w, d);
        let c = spec_col_of_index(k, w);
        let r = spec_row_of_index(k, w);
        assert(uv_matches(mesh.uvs@, w, d, c, r));
    }
}

/// Every position lies within the surface's extent: `|x| <= S / 2` and
/// `|z| <= S / 2`, written as `|num| <= width * S` over the denominator
/// `2 * width` (and likewise for `z`).
pub proof fn lemma_positions_within_extent(mesh: MeshData, field: HeightField, params: MeshParams)
    requires
        field.wf(),
        params.valid(),
        mesh_matches(mesh, field, params),
    ensures
        forall|k: int|
            0 <= k < mesh.positions@.len() ==> {
                let w = field.width as int;
                let d = field.depth as int;
                let s = params.physical_scale as int;
                let p = #[trigger] mesh.positions@[k];
                &&& -(w * s) <= p.x.num <= w * s
                &&& p.x.den == 2 * w
                &&& -(d * s) <= p.z.num <= d * s
                &&& p.z.den == 2 * d
            },
{
    let w = field.width as int;
    let d = field.depth as int;
    let s = params.physical_scale as int;
    assert forall|k: int| 0 <= k < mesh.positions@.len() implies {
        let p = #[trigger] mesh.positions@[k];
        &&& -(w * s) <= p.x.num <= w * s
        &&& p.x.den == 2 * w
        &&& -(d * s) <= p.z.num <= d * s
        &&& p.z.den == 2 * d
    } by {
        lemma_vertex_index_decompose(k, w, d);
        let c = spec_col_of_index(k, w);
        let r = spec_row_of_index(k, w);
        assert(position_matches(mesh.positions@, field, params, c, r));
        assert(-(w * s) <= (2 * c - w) * s <= w * s && -(d * s) <= (2 * r - d) * s <= d * s)
            by (nonlinear_arith)
            requires
                0 <= c <= w,
                0 <= r <= d,
                s >= 1,
        ;
    }
}

/// Numerator of the `y` component of the cross product of the edges of
/// triangle `(a, b, c)` projected onto the XZ plane.  All emitted `x`
/// coordinates share the positive denominator `2 * width` and all `z`
/// coordinates share `2 * depth`, so its sign is the sign of the triangle's
/// signed area seen from above.
pub open spec fn cross_xz_num(a: Position, b: Position, c: Position) -> int {
    (b.z.num - a.z.num) * (c.x.num - a.x.num) - (b.x.num - a.x.num) * (c.z.num - a.z.num)
}

/// Winding consistency: every triangle of every cell, projected onto the
/// XZ plane, has positive signed area `(2 * S / (2 * width)) * (2 * S /
/// (2 * depth)) / 2` -- its vertices run counter-clockwise seen from
/// above, for every height field.
pub proof fn lemma_triangle_winding_ccw(
    mesh: MeshData,
    field: HeightField,
    params: MeshParams,
    col: int,
    row: int,
    t: int,
)
    requires
        field.wf(),
        params.valid(),
        mesh_matches(mesh, field, params),
        0 <= col < field.width,
        0 <= row < field.depth,
        0 <= t < 2,
    ensures
        ({
            let w = field.width as int;
            let a = mesh.positions@[mesh.indices@[(row * w + col) * 6 + 3 * t] as int];
            let b = mesh.positions@[mesh.indices@[(row * w + col) * 6 + 3 * t + 1] as int];
            let c = mesh.positions@[mesh.indices@[(row * w + col) * 6 + 3 * t + 2] as int];
            cross_xz_num(a, b, c) == 4 * params.physical_scale * params.physical_scale
                && cross_xz_num(a, b, c) > 0
        }),
{
    let w = field.width as int;
    let d = field.depth as int;
    let s = params.physical_scale as int;
    assert(index_entry_matches(mesh.indices@, w, d, col, row, 3 * t));
    assert(index_entry_matches(mesh.indices@, w, d, col, row, 3 * t + 1));
    assert(index_entry_matches(mesh.indices@, w, d, col, row, 3 * t + 2));
    let ca = spec_corner_col(col, 3 * t);
    let ra = spec_corner_row(row, 3 * t);
    let cb = spec_corner_col(col, 3 * t + 1);
    let rb = spec_corner_row(row, 3 * t + 1);
    let cc = spec_corner_col(col, 3 * t + 2);
    let rc = spec_corner_row(row, 3 * t + 2);
    assert(position_matches(mesh.positions@, field, params, ca, ra));
    assert(position_matches(mesh.positions@, field, params, cb, rb));
    assert(position_matches(mesh.positions@, field, params, cc, rc));
    let a = mesh.positions@[mesh.indices@[(row * w + col) * 6 + 3 * t] as int];
    let b = mesh.positions@[mesh.indices@[(row * w + col) * 6 + 3 * t + 1] as int];
    let c = mesh.positions@[mesh.indices@[(row * w + col) * 6 + 3 * t + 2] as int];
    assert((b.z.num - a.z.num) * (c.x.num - a.x.num) - (b.x.num - a.x.num) * (c.z.num - a.z.num)
        == 4 * s * s && 4 * s * s > 0) by (nonlinear_arith)
        requires
            s >= 1,
            a.x.num == (2 * ca - w) * s,
            a.z.num == (2 * ra - d) * s,
            b.x.num == (2 * cb - w) * s,
            b.z.num == (2 * rb - d) * s,
            c.x.num == (2 * cc - w) * s,
            c.z.num == (2 * rc - d) * s,
            cb == ca && rb == ra + 1 && cc == ca + 1 && rc == ra + 1 || cb == ca + 1 && rb == ra
                + 1 && cc == ca + 1 && rc == ra,
    ;
}

} // verus!
