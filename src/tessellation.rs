use vstd::prelude::*;
use vstd::arithmetic::div_mod::lemma_fundamental_div_mod_converse;
use vstd::arithmetic::mul::lemma_mul_inequality;

use crate::error::SurfaceError;

verus! {

/// Bound on the number of lattice vertices: every vertex index is a `u32`.
pub const MAX_VERTICES: u64 = 4294967296;

/// How densely a patch is sampled along each parametric axis.
#[derive(Debug, Clone, Copy, PartialEq, Eq, Structural)]
pub struct TessellationResolution {
    pub u_samples: usize,
    pub v_samples: usize,
}

impl TessellationResolution {
    pub fn new(u_samples: usize, v_samples: usize) -> (r: Self)
        ensures
            r.u_samples == u_samples,
            r.v_samples == v_samples,
    {
        TessellationResolution { u_samples, v_samples }
    }
}

impl Default for TessellationResolution {
    /// The density used for on-screen display: a hundred cells along each axis.
    fn default() -> (r: Self)
        ensures
            r.u_samples == 100,
            r.v_samples == 100,
    {
        TessellationResolution { u_samples: 100, v_samples: 100 }
    }
}

/// A vertex of the sampling lattice, by column and row.
///
/// With `u_samples` columns of cells and `v_samples` rows of cells, the vertex
/// at `(col, row)` samples the surface at the parameters
/// `u = 1 - col / u_samples` and `v = 1 - row / v_samples`.
#[derive(Debug, Clone, Copy, PartialEq, Eq, Structural)]
pub struct LatticePoint {
    pub col: u32,
    pub row: u32,
}

impl View for LatticePoint {
    type V = (int, int);

    open spec fn view(&self) -> (int, int) {
        (self.col as int, self.row as int)
    }
}

/// A triangle, as three indices into the vertex list.
#[derive(Debug, Clone, Copy, PartialEq, Eq, Structural)]
pub struct Triangle {
    pub a: u32,
    pub b: u32,
    pub c: u32,
}

impl View for Triangle {
    type V = (int, int, int);

    open spec fn view(&self) -> (int, int, int) {
        (self.a as int, self.b as int, self.c as int)
    }
}

/// The integer structure of a tessellated patch: where each vertex is sampled
/// and how the vertices are joined into triangles.
#[derive(Debug, Clone)]
pub struct PatchMesh {
    pub vertices: Vec<LatticePoint>,
    pub triangles: Vec<Triangle>,
}

/// What a `PatchMesh` holds, as mathematical sequences.
pub struct PatchMeshModel {
    pub vertices: Seq<(int, int)>,
    pub triangles: Seq<(int, int, int)>,
}

impl View for PatchMesh {
    type V = PatchMeshModel;

    open spec fn view(&self) -> PatchMeshModel {
        PatchMeshModel {
            vertices: self.vertices@.map_values(|p: LatticePoint| p@),
            triangles: self.triangles@.map_values(|t: Triangle| t@),
        }
    }
}

/// Vertex `k` of a lattice with `us` cells per row: vertices run along a row,
/// then row after row.
pub open spec fn lattice_point(us: int, k: int) -> (int, int) {
    (k % (us + 1), k / (us + 1))
}

/// Triangle `t` of a lattice with `us` cells per row. Cells run along a row,
/// then row after row; each cell gives two triangles, lower-left first, both
/// wound the same way.
pub open spec fn quad_triangle(us: int, t: int) -> (int, int, int) {
    let cell = t / 2;
    let r = cell / us;
    let c = cell % us;
    let w = us + 1;
    if t % 2 == 0 {
        ((r + 1) * w + c, r * w + c, (r + 1) * w + c + 1)
    } else {
        (r * w + c, r * w + c + 1, (r + 1) * w + c + 1)
    }
}

/// The mesh of a patch sampled with `us` by `vs` cells.
pub open spec fn lattice_mesh(us: int, vs: int) -> PatchMeshModel {
    PatchMeshModel {
        vertices: Seq::new(((us + 1) * (vs + 1)) as nat, |k: int| lattice_point(us, k)),
        triangles: Seq::new((2 * us * vs) as nat, |t: int| quad_triangle(us, t)),
    }
}

/// A grid of `len` control points forms an `nu` by `nv` patch that can be
/// sampled with `us` by `vs` cells.
pub open spec fn valid_patch(len: int, nu: int, nv: int, us: int, vs: int) -> bool {
    &&& nu >= 2
    &&& nv >= 2
    &&& us >= 1
    &&& vs >= 1
    &&& len == nu * nv
}

/// What tessellating `len` control points as an `nu` by `nv` grid yields.
pub open spec fn tessellation_outcome(
    len: int,
    nu: int,
    nv: int,
    resolution: TessellationResolution,
) -> Result<PatchMeshModel, SurfaceError> {
    let us = resolution.u_samples as int;
    let vs = resolution.v_samples as int;
    if valid_patch(len, nu, nv, us, vs) {
        Ok(lattice_mesh(us, vs))
    } else {
        Err(SurfaceError::InvalidGeometry)
    }
}

/// The model of a tessellation result.
pub open spec fn outcome_of(r: Result<PatchMesh, SurfaceError>) -> Result<PatchMeshModel, SurfaceError> {
    match r {
        Ok(m) => Ok(m@),
        Err(e) => Err(e),
    }
}

/// The resolution has few enough vertices for every index to be a `u32`.
pub open spec fn fits_index(resolution: TessellationResolution) -> bool {
    (resolution.u_samples + 1) * (resolution.v_samples + 1) <= MAX_VERTICES
}

/// `us + 1` and `vs + 1` are each at most their product.
proof fn lemma_factor_bounds(us: int, vs: int)
    requires
        us >= 1,
        vs >= 1,
    ensures
        us + 1 <= (us + 1) * (vs + 1),
        vs + 1 <= (us + 1) * (vs + 1),
{
    lemma_mul_inequality(1, vs + 1, us + 1);
    lemma_mul_inequality(1, us + 1, vs + 1);
    assert((us + 1) * (vs + 1) == (vs + 1) * (us + 1)) by (nonlinear_arith);
}

/// The vertices of a lattice with `us` by `vs` cells, row by row.
fn lattice_vertices(us: usize, vs: usize) -> (out: Vec<LatticePoint>)
    requires
        us >= 1,
        vs >= 1,
        (us + 1) * (vs + 1) <= MAX_VERTICES,
    ensures
        out@.map_values(|p: LatticePoint| p@) == lattice_mesh(us as int, vs as int).vertices,
{
    proof {
        lemma_factor_bounds(us as int, vs as int);
    }
    let w: u64 = us as u64 + 1;
    let h: u64 = vs as u64 + 1;
    let mut out: Vec<LatticePoint> = Vec::new();
    let mut row: u64 = 0;
    while row < h
        invariant
            w == us + 1,
            h == vs + 1,
            w <= MAX_VERTICES,
            h <= MAX_VERTICES,
            row <= h,
            out@.len() == row * w,
            forall|k: int| 0 <= k < out@.len() ==> #[trigger] out@[k]@ == lattice_point(us as int, k),
        decreases h - row,
    {
        let mut col: u64 = 0;
        while col < w
            invariant
                w == us + 1,
                h == vs + 1,
                w <= MAX_VERTICES,
                h <= MAX_VERTICES,
                row < h,
                col <= w,
                out@.len() == row * w + col,
                forall|k: int| 0 <= k < out@.len() ==> #[trigger] out@[k]@ == lattice_point(us as int, k),
            decreases w - col,
        {
            proof {
                lemma_fundamental_div_mod_converse(row * w + col, w as int, row as int, col as int);
            }
            out.push(LatticePoint { col: col as u32, row: row as u32 });
            col += 1;
        }
        assert(out@.len() == (row + 1) * w) by (nonlinear_arith)
            requires
                out@.len() == row * w + w,
        ;
        row += 1;
    }
    assert(out@.len() == (us + 1) * (vs + 1)) by (nonlinear_arith)
        requires
            out@.len() == h * w,
            w == us + 1,
            h == vs + 1,
    ;
    assert(out@.map_values(|p: LatticePoint| p@) =~= lattice_mesh(us as int, vs as int).vertices);
    out
}

/// The corner indices of cell `(r, c)` fit in a `u32`.
proof fn lemma_cell_corners(us: int, vs: int, r: int, c: int)
    requires
        0 <= r < vs,
        0 <= c < us,
        (us + 1) * (vs + 1) <= MAX_VERTICES,
    ensures
        r * (us + 1) + c + 1 <= (r + 1) * (us + 1) + c,
        (r + 1) * (us + 1) + c + 1 < MAX_VERTICES,
{
    lemma_mul_inequality(r + 1, vs, us + 1);
    assert((r + 1) * (us + 1) == r * (us + 1) + (us + 1)) by (nonlinear_arith);
    assert(vs * (us + 1) + (us + 1) == (us + 1) * (vs + 1)) by (nonlinear_arith);
}

/// Triangles `2 * cell` and `2 * cell + 1` belong to the cell `cell`, which lies
/// in row `r` and column `c`.
proof fn lemma_cell_triangles(us: int, r: int, c: int)
    requires
        us >= 1,
        r >= 0,
        0 <= c < us,
    ensures
        ({
            let t = 2 * (r * us + c);
            let w = us + 1;
            &&& quad_triangle(us, t) == ((r + 1) * w + c, r * w + c, (r + 1) * w + c + 1)
            &&& quad_triangle(us, t + 1) == (r * w + c, r * w + c + 1, (r + 1) * w + c + 1)
        }),
{
    let cell = r * us + c;
    assert(cell >= 0) by (nonlinear_arith)
        requires
            r >= 0,
            c >= 0,
            us >= 1,
            cell == r * us + c,
    ;
    lemma_fundamental_div_mod_converse(2 * cell, 2, cell, 0);
    lemma_fundamental_div_mod_converse(2 * cell + 1, 2, cell, 1);
    lemma_fundamental_div_mod_converse(cell, us, r, c);
}

/// The triangles of a lattice with `us` by `vs` cells, two per cell.
fn lattice_triangles(us: usize, vs: usize) -> (out: Vec<Triangle>)
    requires
        us >= 1,
        vs >= 1,
        (us + 1) * (vs + 1) <= MAX_VERTICES,
    ensures
        out@.map_values(|t: Triangle| t@) == lattice_mesh(us as int, vs as int).triangles,
{
    proof {
        lemma_factor_bounds(us as int, vs as int);
    }
    let w: u32 = (us + 1) as u32;
    let mut out: Vec<Triangle> = Vec::new();
    let mut r: usize = 0;
    while r < vs
        invariant
            us >= 1,
            vs >= 1,
            w == us + 1,
            (us + 1) * (vs + 1) <= MAX_VERTICES,
            us + 1 <= MAX_VERTICES,
            vs + 1 <= MAX_VERTICES,
            r <= vs,
            out@.len() == 2 * (r * us),
            forall|t: int| 0 <= t < out@.len() ==> #[trigger] out@[t]@ == quad_triangle(us as int, t),
        decreases vs - r,
    {
        let mut c: usize = 0;
        while c < us
            invariant
                us >= 1,
                vs >= 1,
                w == us + 1,
                (us + 1) * (vs + 1) <= MAX_VERTICES,
                us + 1 <= MAX_VERTICES,
                vs + 1 <= MAX_VERTICES,
                r < vs,
                c <= us,
                out@.len() == 2 * (r * us + c),
                forall|t: int| 0 <= t < out@.len() ==> #[trigger] out@[t]@ == quad_triangle(us as int, t),
            decreases us - c,
        {
            proof {
                lemma_cell_corners(us as int, vs as int, r as int, c as int);
                lemma_cell_triangles(us as int, r as int, c as int);
            }
            let lo: u32 = r as u32 * w + c as u32;
            let hi: u32 = (r as u32 + 1) * w + c as u32;
            out.push(Triangle { a: hi, b: lo, c: hi + 1 });
            out.push(Triangle { a: lo, b: lo + 1, c: hi + 1 });
            c += 1;
        }
        assert(2 * (r * us + us) == 2 * ((r + 1) * us)) by (nonlinear_arith);
        r += 1;
    }
    assert(2 * (vs * us) == 2 * us * vs) by (nonlinear_arith);
    assert(out@.map_values(|t: Triangle| t@) =~= lattice_mesh(us as int, vs as int).triangles);
    out
}

/// Tessellates the patch spanned by `control_points`, an `nu` by `nv` grid,
/// into a lattice of `resolution.u_samples` by `resolution.v_samples` cells.
///
/// Only the number of control points is read here: where each vertex lies is
/// the Bezier surface evaluated at the vertex's lattice parameters.
pub fn tessellate<T>(
    control_points: &[T],
    nu: usize,
    nv: usize,
    resolution: TessellationResolution,
) -> (r: Result<PatchMesh, SurfaceError>)
    requires
        fits_index(resolution),
    ensures
        outcome_of(r) == tessellation_outcome(control_points@.len() as int, nu as int, nv as int, resolution),
{
    let us = resolution.u_samples;
    let vs = resolution.v_samples;
    let len = control_points.len();
    if nu < 2 || nv < 2 || us < 1 || vs < 1 {
        return Err(SurfaceError::InvalidGeometry);
    }
    match nu.checked_mul(nv) {
        Some(n) => {
            if n != len {
                return Err(SurfaceError::InvalidGeometry);
            }
        },
        None => {
            return Err(SurfaceError::InvalidGeometry);
        },
    }
    let vertices = lattice_vertices(us, vs);
    let triangles = lattice_triangles(us, vs);
    let mesh = PatchMesh { vertices, triangles };
    Ok(mesh)
}

/// A valid patch sampled with `us` by `vs` cells has `(us + 1) * (vs + 1)`
/// vertices and `2 * us * vs` triangles, and every triangle joins three
/// distinct vertices of the mesh.
pub proof fn lemma_mesh_counts(us: int, vs: int)
    requires
        us >= 1,
        vs >= 1,
    ensures
        lattice_mesh(us, vs).vertices.len() == (us + 1) * (vs + 1),
        lattice_mesh(us, vs).triangles.len() == 2 * us * vs,
        forall|t: int|
            0 <= t < lattice_mesh(us, vs).triangles.len() ==> {
                let tri = #[trigger] lattice_mesh(us, vs).triangles[t];
                let n = lattice_mesh(us, vs).vertices.len();
                &&& 0 <= tri.0 < n
                &&& 0 <= tri.1 < n
                &&& 0 <= tri.2 < n
                &&& tri.0 != tri.1
                &&& tri.1 != tri.2
                &&& tri.0 != tri.2
            },
{
    let m = lattice_mesh(us, vs);
    assert((us + 1) * (vs + 1) >= 0 && 2 * us * vs >= 0) by (nonlinear_arith)
        requires
            us >= 1,
            vs >= 1,
    ;
    assert forall|t: int| 0 <= t < m.triangles.len() implies {
        let tri = #[trigger] m.triangles[t];
        let n = m.vertices.len();
        &&& 0 <= tri.0 < n
        &&& 0 <= tri.1 < n
        &&& 0 <= tri.2 < n
        &&& tri.0 != tri.1
        &&& tri.1 != tri.2
        &&& tri.0 != tri.2
    } by {
        let cell = t / 2;
        let r = cell / us;
        let c = cell % us;
        assert(0 <= cell < us * vs) by (nonlinear_arith)
            requires
                0 <= t < 2 * us * vs,
                cell == t / 2,
        ;
        assert(0 <= r < vs && 0 <= c < us) by (nonlinear_arith)
            requires
                0 <= cell < us * vs,
                r == cell / us,
                c == cell % us,
                us >= 1,
        ;
        lemma_mul_inequality(r + 1, vs, us + 1);
        assert((r + 1) * (us + 1) == r * (us + 1) + (us + 1)) by (nonlinear_arith);
        assert(vs * (us + 1) + (us + 1) == (us + 1) * (vs + 1)) by (nonlinear_arith);
        assert(0 <= r * (us + 1)) by (nonlinear_arith)
            requires
                0 <= r,
                us >= 1,
        ;
    }
}

/// Tessellation is a function of its inputs: two calls on the same control
/// points, grid shape and resolution give the same vertices and triangles, or
/// the same error.
pub proof fn lemma_tessellation_deterministic(
    len: int,
    nu: int,
    nv: int,
    resolution: TessellationResolution,
    first: Result<PatchMesh, SurfaceError>,
    second: Result<PatchMesh, SurfaceError>,
)
    requires
        outcome_of(first) == tessellation_outcome(len, nu, nv, resolution),
        outcome_of(second) == tessellation_outcome(len, nu, nv, resolution),
    ensures
        outcome_of(first) == outcome_of(second),
        first is Ok <==> second is Ok,
        first is Ok ==> first->Ok_0.vertices@ == second->Ok_0.vertices@,
        first is Ok ==> first->Ok_0.triangles@ == second->Ok_0.triangles@,
{
    if first is Ok {
        let (a, b) = (first->Ok_0, second->Ok_0);
        assert(a@.vertices.len() == a.vertices@.len() && b@.vertices.len() == b.vertices@.len());
        assert(a@.triangles.len() == a.triangles@.len() && b@.triangles.len() == b.triangles@.len());
        assert(a.vertices@ =~= b.vertices@) by {
            assert forall|k: int| 0 <= k < a.vertices@.len() implies a.vertices@[k] == b.vertices@[k] by {
                assert(a@.vertices[k] == a.vertices@[k]@ && b@.vertices[k] == b.vertices@[k]@);
            }
        }
        assert(a.triangles@ =~= b.triangles@) by {
            assert forall|k: int| 0 <= k < a.triangles@.len() implies a.triangles@[k] == b.triangles@[k] by {
                assert(a@.triangles[k] == a.triangles@[k]@ && b@.triangles[k] == b.triangles@[k]@);
            }
        }
    }
}

/// A grid whose length is not `nu * nv`, or with fewer than two control points
/// along either axis, is refused as invalid geometry.
pub proof fn lemma_degenerate_grid_rejected(
    len: int,
    nu: int,
    nv: int,
    resolution: TessellationResolution,
)
    requires
        len != nu * nv || nu < 2 || nv < 2,
    ensures
        tessellation_outcome(len, nu, nv, resolution) == Err::<PatchMeshModel, SurfaceError>(
            SurfaceError::InvalidGeometry,
        ),
{
}

} // verus!
