//! Primitive mesh builders and tangent-frame computation.
//!
//! A `Model` here is the geometry handed to the graphics API: a flat
//! vertex buffer, its attribute layout, optional indices, and the
//! resulting element count. Building the buffers — a quad, a reference
//! grid, a pyramid — and deriving tangent frames is plain arithmetic and
//! is specified exactly; uploading them is the caller's business.

use crate::fx::{
    div_safe, div_trunc, fxmul, sat, sat_i128, spec_div_safe, spec_fxmul, tdiv, SCALE,
};
use crate::vec3::{spec_minus, spec_minus2, Vec2, Vec3};
use vstd::prelude::*;

verus! {

/// Geometry ready for upload: vertex data, attribute layout, indices and
/// element count.
pub struct Model {
    pub vertices: Vec<i64>,
    pub indices: Vec<u32>,
    pub locations: Vec<i32>,
    pub triangles: i32,
}

/// The sum of the first `n` attribute widths: the vertex stride.
pub open spec fn spec_loc_sum(s: Seq<i32>, n: int) -> int
    decreases n,
{
    if n <= 0 {
        0
    } else {
        spec_loc_sum(s, n - 1) + s[n - 1]
    }
}

/// Prefix sums of nonnegative widths never exceed the total.
proof fn lemma_loc_sum_mono(s: Seq<i32>, i: int, n: int)
    requires
        0 <= i <= n <= s.len(),
        forall|k: int| 0 <= k < s.len() ==> 0 <= #[trigger] s[k],
    ensures
        0 <= spec_loc_sum(s, i) <= spec_loc_sum(s, n),
    decreases n - i,
{
    if i < n {
        lemma_loc_sum_mono(s, i + 1, n);
        lemma_loc_sum_nonneg(s, i);
    } else {
        lemma_loc_sum_nonneg(s, i);
    }
}

proof fn lemma_loc_sum_nonneg(s: Seq<i32>, n: int)
    requires
        n <= s.len(),
        forall|k: int| 0 <= k < s.len() ==> 0 <= #[trigger] s[k],
    ensures
        0 <= spec_loc_sum(s, n),
    decreases n,
{
    if n > 0 {
        lemma_loc_sum_nonneg(s, n - 1);
    }
}

/// The element count a vertex buffer draws as: the vertex count when the
/// stride is known, the raw length otherwise.
pub open spec fn spec_triangle_count(len: int, stride: int) -> int {
    if stride != 0 {
        len / stride
    } else {
        len
    }
}

/// Wrap a vertex buffer and its attribute layout, computing how many
/// elements it holds.
pub fn create(vertices: Vec<i64>, locations: Vec<i32>) -> (r: Model)
    requires
        vertices@.len() <= 0x7fff_ffff,
        forall|k: int| 0 <= k < locations@.len() ==> 0 <= #[trigger] locations@[k],
        spec_loc_sum(locations@, locations@.len() as int) <= 0x7fff_ffff,
    ensures
        r.vertices == vertices,
        r.indices@.len() == 0,
        r.locations == locations,
        r.triangles == spec_triangle_count(
            vertices@.len() as int,
            spec_loc_sum(locations@, locations@.len() as int),
        ),
        r.triangles >= 0,
{
    let mut stride: i32 = 0;
    let mut i: usize = 0;
    proof {
        lemma_loc_sum_mono(locations@, 0, locations@.len() as int);
    }
    while i < locations.len()
        invariant
            i <= locations@.len(),
            stride == spec_loc_sum(locations@, i as int),
            forall|k: int| 0 <= k < locations@.len() ==> 0 <= #[trigger] locations@[k],
            spec_loc_sum(locations@, locations@.len() as int) <= 0x7fff_ffff,
        decreases locations@.len() - i,
    {
        proof {
            lemma_loc_sum_mono(locations@, i + 1, locations@.len() as int);
        }
        stride = stride + locations[i];
        i = i + 1;
    }
    let mut triangles: i32 = vertices.len() as i32;
    if stride != 0 {
        triangles = triangles / stride;
    }
    Model { vertices, indices: Vec::new(), locations, triangles }
}

/// Wrap an indexed vertex buffer; the element count is the index count.
pub fn create_with_indices(vertices: Vec<i64>, indices: Vec<u32>, locations: Vec<i32>) -> (r:
    Model)
    requires
        indices@.len() <= 0x7fff_ffff,
    ensures
        r.vertices == vertices,
        r.indices == indices,
        r.locations == locations,
        r.triangles == indices@.len(),
{
    let triangles: i32 = indices.len() as i32;
    Model { vertices, indices, locations, triangles }
}

/// The tangent of one triangle: edge deltas against texture deltas, over
/// the texture determinant. A degenerate determinant behaves as a
/// division by zero would: it saturates.
pub open spec fn spec_tri_tangent(
    v0: Vec3,
    v1: Vec3,
    v2: Vec3,
    uv0: Vec2,
    uv1: Vec2,
    uv2: Vec2,
) -> Vec3 {
    let dp1 = spec_minus(v1, v0);
    let dp2 = spec_minus(v2, v0);
    let du1 = spec_minus2(uv1, uv0);
    let du2 = spec_minus2(uv2, uv0);
    let det = sat(spec_fxmul(du1.x as int, du2.y as int) - spec_fxmul(du2.x as int, du1.y as int));
    let r = spec_div_safe(SCALE as int, det);
    Vec3 {
        x: spec_fxmul(
            sat(
                spec_fxmul(du2.y as int, dp1.x as int) - spec_fxmul(du1.y as int, dp2.x as int),
            ),
            r,
        ) as i64,
        y: spec_fxmul(
            sat(
                spec_fxmul(du2.y as int, dp1.y as int) - spec_fxmul(du1.y as int, dp2.y as int),
            ),
            r,
        ) as i64,
        z: spec_fxmul(
            sat(
                spec_fxmul(du2.y as int, dp1.z as int) - spec_fxmul(du1.y as int, dp2.z as int),
            ),
            r,
        ) as i64,
    }
}

/// The bitangent of one triangle, the second leg of the tangent frame.
pub open spec fn spec_tri_bitangent(
    v0: Vec3,
    v1: Vec3,
    v2: Vec3,
    uv0: Vec2,
    uv1: Vec2,
    uv2: Vec2,
) -> Vec3 {
    let dp1 = spec_minus(v1, v0);
    let dp2 = spec_minus(v2, v0);
    let du1 = spec_minus2(uv1, uv0);
    let du2 = spec_minus2(uv2, uv0);
    let det = sat(spec_fxmul(du1.x as int, du2.y as int) - spec_fxmul(du2.x as int, du1.y as int));
    let r = spec_div_safe(SCALE as int, det);
    Vec3 {
        x: spec_fxmul(
            sat(
                -spec_fxmul(du2.x as int, dp1.x as int) - spec_fxmul(du1.x as int, dp2.x as int),
            ),
            r,
        ) as i64,
        y: spec_fxmul(
            sat(
                -spec_fxmul(du2.x as int, dp1.y as int) - spec_fxmul(du1.x as int, dp2.y as int),
            ),
            r,
        ) as i64,
        z: spec_fxmul(
            sat(
                -spec_fxmul(du2.x as int, dp1.z as int) - spec_fxmul(du1.x as int, dp2.z as int),
            ),
            r,
        ) as i64,
    }
}

fn tri_tangent_pair(v0: &Vec3, v1: &Vec3, v2: &Vec3, uv0: &Vec2, uv1: &Vec2, uv2: &Vec2) -> (r:
    (Vec3, Vec3))
    requires
        v0.wf(),
        v1.wf(),
        v2.wf(),
        uv0.wf(),
        uv1.wf(),
        uv2.wf(),
    ensures
        r.0 == spec_tri_tangent(*v0, *v1, *v2, *uv0, *uv1, *uv2),
        r.1 == spec_tri_bitangent(*v0, *v1, *v2, *uv0, *uv1, *uv2),
        r.0.wf(),
        r.1.wf(),
{
    let dp1 = v1.minus(v0);
    let dp2 = v2.minus(v0);
    let du1 = uv1.minus(uv0);
    let du2 = uv2.minus(uv0);
    let det = sat_i128(fxmul(du1.x, du2.y) as i128 - fxmul(du2.x, du1.y) as i128);
    let r = div_safe(SCALE, det);
    let tangent = Vec3 {
        x: fxmul(sat_i128(fxmul(du2.y, dp1.x) as i128 - fxmul(du1.y, dp2.x) as i128), r),
        y: fxmul(sat_i128(fxmul(du2.y, dp1.y) as i128 - fxmul(du1.y, dp2.y) as i128), r),
        z: fxmul(sat_i128(fxmul(du2.y, dp1.z) as i128 - fxmul(du1.y, dp2.z) as i128), r),
    };
    let bitangent = Vec3 {
        x: fxmul(sat_i128(-(fxmul(du2.x, dp1.x) as i128) - fxmul(du1.x, dp2.x) as i128), r),
        y: fxmul(sat_i128(-(fxmul(du2.x, dp1.y) as i128) - fxmul(du1.x, dp2.y) as i128), r),
        z: fxmul(sat_i128(-(fxmul(du2.x, dp1.z) as i128) - fxmul(du1.x, dp2.z) as i128), r),
    };
    (tangent, bitangent)
}

/// The tangent the vertex at position `k` of the index list receives: that
/// of its triangle.
pub open spec fn spec_tangent_at(
    idx: Seq<u32>,
    vs: Seq<Vec3>,
    uvs: Seq<Vec2>,
    k: int,
) -> Vec3 {
    let base = 3 * (k / 3);
    spec_tri_tangent(
        vs[idx[base] as int],
        vs[idx[base + 1] as int],
        vs[idx[base + 2] as int],
        uvs[idx[base] as int],
        uvs[idx[base + 1] as int],
        uvs[idx[base + 2] as int],
    )
}

/// The bitangent the vertex at position `k` of the index list receives.
pub open spec fn spec_bitangent_at(
    idx: Seq<u32>,
    vs: Seq<Vec3>,
    uvs: Seq<Vec2>,
    k: int,
) -> Vec3 {
    let base = 3 * (k / 3);
    spec_tri_bitangent(
        vs[idx[base] as int],
        vs[idx[base + 1] as int],
        vs[idx[base + 2] as int],
        uvs[idx[base] as int],
        uvs[idx[base + 1] as int],
        uvs[idx[base + 2] as int],
    )
}

/// Compute per-vertex tangent frames for indexed geometry: every corner
/// of a triangle carries that triangle's tangent and bitangent, in index
/// order.
pub fn compute_tangent(indices: &Vec<u32>, vertices: &Vec<Vec3>, uvs: &Vec<Vec2>) -> (r: (
    Vec<Vec3>,
    Vec<Vec3>,
))
    requires
        indices@.len() % 3 == 0,
        forall|k: int|
            0 <= k < indices@.len() ==> (#[trigger] indices@[k]) < vertices@.len(),
        forall|k: int| 0 <= k < indices@.len() ==> (#[trigger] indices@[k]) < uvs@.len(),
        forall|k: int| 0 <= k < vertices@.len() ==> (#[trigger] vertices@[k]).wf(),
        forall|k: int| 0 <= k < uvs@.len() ==> (#[trigger] uvs@[k]).wf(),
    ensures
        r.0@.len() == indices@.len(),
        r.1@.len() == indices@.len(),
        forall|k: int|
            0 <= k < indices@.len() ==> (#[trigger] r.0@[k]) == spec_tangent_at(
                indices@,
                vertices@,
                uvs@,
                k,
            ),
        forall|k: int|
            0 <= k < indices@.len() ==> (#[trigger] r.1@[k]) == spec_bitangent_at(
                indices@,
                vertices@,
                uvs@,
                k,
            ),
{
    let mut tangents: Vec<Vec3> = Vec::new();
    let mut bitangents: Vec<Vec3> = Vec::new();
    let mut i: usize = 0;
    while i < indices.len()
        invariant
            i % 3 == 0,
            i <= indices@.len(),
            indices@.len() % 3 == 0,
            forall|k: int|
                0 <= k < indices@.len() ==> (#[trigger] indices@[k]) < vertices@.len(),
            forall|k: int| 0 <= k < indices@.len() ==> (#[trigger] indices@[k]) < uvs@.len(),
            forall|k: int| 0 <= k < vertices@.len() ==> (#[trigger] vertices@[k]).wf(),
            forall|k: int| 0 <= k < uvs@.len() ==> (#[trigger] uvs@[k]).wf(),
            tangents@.len() == i,
            bitangents@.len() == i,
            forall|k: int|
                0 <= k < i ==> (#[trigger] tangents@[k]) == spec_tangent_at(
                    indices@,
                    vertices@,
                    uvs@,
                    k,
                ),
            forall|k: int|
                0 <= k < i ==> (#[trigger] bitangents@[k]) == spec_bitangent_at(
                    indices@,
                    vertices@,
                    uvs@,
                    k,
                ),
        decreases indices@.len() - i,
    {
        proof {
            assert((indices@.len() - i) % 3 == 0);
            assert(indices@.len() - i >= 3);
        }
        let i0 = indices[i] as usize;
        let i1 = indices[i + 1] as usize;
        let i2 = indices[i + 2] as usize;
        let (tangent, bitangent) = tri_tangent_pair(
            &vertices[i0],
            &vertices[i1],
            &vertices[i2],
            &uvs[i0],
            &uvs[i1],
            &uvs[i2],
        );
        tangents.push(tangent);
        tangents.push(tangent);
        tangents.push(tangent);
        bitangents.push(bitangent);
        bitangents.push(bitangent);
        bitangents.push(bitangent);
        proof {
            assert(3 * ((i as int) / 3) == i as int) by (nonlinear_arith)
                requires
                    (i as int) % 3 == 0,
                    i as int >= 0,
            ;
            assert(3 * ((i as int + 1) / 3) == i as int) by (nonlinear_arith)
                requires
                    (i as int) % 3 == 0,
                    i as int >= 0,
            ;
            assert(3 * ((i as int + 2) / 3) == i as int) by (nonlinear_arith)
                requires
                    (i as int) % 3 == 0,
                    i as int >= 0,
            ;
        }
        i = i + 3;
    }
    (tangents, bitangents)
}

/// The tangent the vertex at position `k` receives when the geometry is
/// unindexed: that of its triangle, read directly from the vertex order.
pub open spec fn spec_flat_tangent_at(vs: Seq<Vec3>, uvs: Seq<Vec2>, k: int) -> Vec3 {
    let base = 3 * (k / 3);
    spec_tri_tangent(vs[base], vs[base + 1], vs[base + 2], uvs[base], uvs[base + 1], uvs[base + 2])
}

/// The bitangent the vertex at position `k` receives when the geometry is
/// unindexed.
pub open spec fn spec_flat_bitangent_at(vs: Seq<Vec3>, uvs: Seq<Vec2>, k: int) -> Vec3 {
    let base = 3 * (k / 3);
    spec_tri_bitangent(
        vs[base],
        vs[base + 1],
        vs[base + 2],
        uvs[base],
        uvs[base + 1],
        uvs[base + 2],
    )
}

/// Compute per-vertex tangent frames for unindexed geometry: vertices
/// come three to a triangle, in draw order, paired with their texture
/// coordinates.
pub fn compute_tangent_without_indicies(vertices: &Vec<Vec3>, uvs: &Vec<Vec2>) -> (r: (
    Vec<Vec3>,
    Vec<Vec3>,
))
    requires
        vertices@.len() == uvs@.len(),
        vertices@.len() % 3 == 0,
        forall|k: int| 0 <= k < vertices@.len() ==> (#[trigger] vertices@[k]).wf(),
        forall|k: int| 0 <= k < uvs@.len() ==> (#[trigger] uvs@[k]).wf(),
    ensures
        r.0@.len() == vertices@.len(),
        r.1@.len() == vertices@.len(),
        forall|k: int|
            0 <= k < vertices@.len() ==> (#[trigger] r.0@[k]) == spec_flat_tangent_at(
                vertices@,
                uvs@,
                k,
            ),
        forall|k: int|
            0 <= k < vertices@.len() ==> (#[trigger] r.1@[k]) == spec_flat_bitangent_at(
                vertices@,
                uvs@,
                k,
            ),
{
    let mut tangents: Vec<Vec3> = Vec::new();
    let mut bitangents: Vec<Vec3> = Vec::new();
    let mut i: usize = 0;
    while i < vertices.len()
        invariant
            i % 3 == 0,
            i <= vertices@.len(),
            vertices@.len() % 3 == 0,
            vertices@.len() == uvs@.len(),
            forall|k: int| 0 <= k < vertices@.len() ==> (#[trigger] vertices@[k]).wf(),
            forall|k: int| 0 <= k < uvs@.len() ==> (#[trigger] uvs@[k]).wf(),
            tangents@.len() == i,
            bitangents@.len() == i,
            forall|k: int|
                0 <= k < i ==> (#[trigger] tangents@[k]) == spec_flat_tangent_at(
                    vertices@,
                    uvs@,
                    k,
                ),
            forall|k: int|
                0 <= k < i ==> (#[trigger] bitangents@[k]) == spec_flat_bitangent_at(
                    vertices@,
                    uvs@,
                    k,
                ),
        decreases vertices@.len() - i,
    {
        proof {
            assert((vertices@.len() - i) % 3 == 0);
            assert(vertices@.len() - i >= 3);
        }
        let (tangent, bitangent) = tri_tangent_pair(
            &vertices[i],
            &vertices[i + 1],
            &vertices[i + 2],
            &uvs[i],
            &uvs[i + 1],
            &uvs[i + 2],
        );
        tangents.push(tangent);
        tangents.push(tangent);
        tangents.push(tangent);
        bitangents.push(bitangent);
        bitangents.push(bitangent);
        bitangents.push(bitangent);
        proof {
            assert(3 * ((i as int) / 3) == i as int) by (nonlinear_arith)
                requires
                    (i as int) % 3 == 0,
                    i as int >= 0,
            ;
            assert(3 * ((i as int + 1) / 3) == i as int) by (nonlinear_arith)
                requires
                    (i as int) % 3 == 0,
                    i as int >= 0,
            ;
            assert(3 * ((i as int + 2) / 3) == i as int) by (nonlinear_arith)
                requires
                    (i as int) % 3 == 0,
                    i as int >= 0,
            ;
        }
        i = i + 3;
    }
    (tangents, bitangents)
}

/// One grid coordinate: position `k` of `steps`, stretched over the
/// interval from minus one to one.
pub open spec fn spec_grid_step(k: int, steps: int) -> i64 {
    sat(tdiv(2 * (SCALE as int) * k, steps) - SCALE) as i64
}

/// The twelve vertex values one grid position contributes: a line across
/// and a line along.
pub open spec fn spec_grid_block(k: int, steps: int) -> Seq<i64> {
    let s = spec_grid_step(k, steps);
    seq![
        s,
        0i64,
        SCALE,
        s,
        0i64,
        (-SCALE) as i64,
        SCALE,
        0i64,
        s,
        (-SCALE) as i64,
        0i64,
        s,
    ]
}

/// The grid buffer up to position `n`.
pub open spec fn spec_grid_seq(n: int, steps: int) -> Seq<i64>
    decreases n,
{
    if n <= 0 {
        Seq::empty()
    } else {
        spec_grid_seq(n - 1, steps) + spec_grid_block(n - 1, steps)
    }
}

/// Build the reference grid: `steps + 1` line pairs spanning the unit
/// square, three coordinates per vertex.
pub fn build_grid(steps: i32) -> (r: Model)
    requires
        1 <= steps <= 4096,
    ensures
        r.vertices@ == spec_grid_seq(steps + 1, steps as int),
        r.vertices@.len() == 12 * (steps + 1),
        r.indices@.len() == 0,
        r.locations@ =~= seq![3i32],
        r.triangles == 4 * (steps + 1),
{
    let mut lines: Vec<i64> = Vec::new();
    let mut i: i32 = 0;
    while i <= steps
        invariant
            0 <= i <= steps + 1,
            1 <= steps <= 4096,
            lines@ == spec_grid_seq(i as int, steps as int),
            lines@.len() == 12 * i,
        decreases steps + 1 - i,
    {
        let s = sat_i128(
            div_trunc(2 * (SCALE as i128) * (i as i128), steps as i128) - SCALE as i128,
        );
        lines.push(s);
        lines.push(0);
        lines.push(SCALE);
        lines.push(s);
        lines.push(0);
        lines.push(-SCALE);
        lines.push(SCALE);
        lines.push(0);
        lines.push(s);
        lines.push(-SCALE);
        lines.push(0);
        lines.push(s);
        proof {
            assert(lines@ =~= spec_grid_seq(i as int, steps as int) + spec_grid_block(
                i as int,
                steps as int,
            ));
        }
        i = i + 1;
    }
    let mut locations: Vec<i32> = Vec::new();
    locations.push(3);
    proof {
        reveal_with_fuel(spec_loc_sum, 4);
        assert(locations@ =~= seq![3i32]);
    }
    let model = create(lines, locations);
    proof {
        assert((12 * (steps + 1)) / 3 == 4 * (steps + 1)) by (nonlinear_arith)
            requires
                1 <= steps,
        ;
    }
    model
}

/// The quad's vertex buffer: two triangles covering the unit square, with
/// plane position and texture coordinates interleaved.
pub open spec fn spec_quad_vertices() -> Seq<i64> {
    seq![
        (-SCALE) as i64,
        SCALE,
        0i64,
        SCALE,
        (-SCALE) as i64,
        (-SCALE) as i64,
        0i64,
        0i64,
        SCALE,
        (-SCALE) as i64,
        SCALE,
        0i64,
        (-SCALE) as i64,
        SCALE,
        0i64,
        SCALE,
        SCALE,
        (-SCALE) as i64,
        SCALE,
        0i64,
        SCALE,
        SCALE,
        SCALE,
        SCALE,
    ]
}

/// Build a screen-covering quad with interleaved position and texture
/// coordinates.
pub fn build_quad() -> (r: Model)
    ensures
        r.vertices@ =~= spec_quad_vertices(),
        r.indices@.len() == 0,
        r.locations@ =~= seq![2i32, 2i32],
        r.triangles == 6,
{
    let mut quad: Vec<i64> = Vec::new();
    quad.push(-SCALE);
    quad.push(SCALE);
    quad.push(0);
    quad.push(SCALE);
    quad.push(-SCALE);
    quad.push(-SCALE);
    quad.push(0);
    quad.push(0);
    quad.push(SCALE);
    quad.push(-SCALE);
    quad.push(SCALE);
    quad.push(0);
    quad.push(-SCALE);
    quad.push(SCALE);
    quad.push(0);
    quad.push(SCALE);
    quad.push(SCALE);
    quad.push(-SCALE);
    quad.push(SCALE);
    quad.push(0);
    quad.push(SCALE);
    quad.push(SCALE);
    quad.push(SCALE);
    quad.push(SCALE);
    let mut locations: Vec<i32> = Vec::new();
    locations.push(2);
    locations.push(2);
    proof {
        reveal_with_fuel(spec_loc_sum, 4);
        assert(locations@ =~= seq![2i32, 2i32]);
    }
    let model = create(quad, locations);
    model
}

/// The normal component of the pyramid's slanted faces: one over the
/// square root of two, in fixed point.
pub const PYRAMID_UNIT: i64 = 46341;

/// The pyramid's vertex buffer: four slanted faces and a square base,
/// with position and normal interleaved.
pub open spec fn spec_pyramid_vertices() -> Seq<i64> {
    let h = 32768i64;
    let u = PYRAMID_UNIT;
    let nh = (-32768) as i64;
    let nu = (-PYRAMID_UNIT) as i64;
    let ns = (-SCALE) as i64;
    seq![
        nh, nh, h, 0i64, u, u, h, nh, h, 0i64, u, u, 0i64, h, 0i64, 0i64, u, u,
        h, nh, h, u, u, 0i64, h, nh, nh, u, u, 0i64, 0i64, h, 0i64, u, u, 0i64,
        h, nh, nh, 0i64, u, nu, nh, nh, nh, 0i64, u, nu, 0i64, h, 0i64, 0i64, u, nu,
        nh, nh, nh, nu, u, 0i64, nh, nh, h, nu, u, 0i64, 0i64, h, 0i64, nu, u, 0i64,
        h, nh, h, 0i64, ns, 0i64, nh, nh, h, 0i64, ns, 0i64, h, nh, nh, 0i64, ns, 0i64,
        h, nh, nh, 0i64, ns, 0i64, nh, nh, h, 0i64, ns, 0i64, nh, nh, nh, 0i64, ns, 0i64,
    ]
}

/// Build a unit pyramid with per-face normals.
pub fn build_pyramid() -> (r: Model)
    ensures
        r.vertices@ =~= spec_pyramid_vertices(),
        r.indices@.len() == 0,
        r.locations@ =~= seq![3i32, 3i32],
        r.triangles == 18,
{
    let h: i64 = 32768;
    let u: i64 = PYRAMID_UNIT;
    let mut data: Vec<i64> = Vec::new();
    // front face
    push3(&mut data, -h, -h, h);
    push3(&mut data, 0, u, u);
    push3(&mut data, h, -h, h);
    push3(&mut data, 0, u, u);
    push3(&mut data, 0, h, 0);
    push3(&mut data, 0, u, u);
    // right face
    push3(&mut data, h, -h, h);
    push3(&mut data, u, u, 0);
    push3(&mut data, h, -h, -h);
    push3(&mut data, u, u, 0);
    push3(&mut data, 0, h, 0);
    push3(&mut data, u, u, 0);
    // back face
    push3(&mut data, h, -h, -h);
    push3(&mut data, 0, u, -u);
    push3(&mut data, -h, -h, -h);
    push3(&mut data, 0, u, -u);
    push3(&mut data, 0, h, 0);
    push3(&mut data, 0, u, -u);
    // left face
    push3(&mut data, -h, -h, -h);
    push3(&mut data, -u, u, 0);
    push3(&mut data, -h, -h, h);
    push3(&mut data, -u, u, 0);
    push3(&mut data, 0, h, 0);
    push3(&mut data, -u, u, 0);
    // base
    push3(&mut data, h, -h, h);
    push3(&mut data, 0, -SCALE, 0);
    push3(&mut data, -h, -h, h);
    push3(&mut data, 0, -SCALE, 0);
    push3(&mut data, h, -h, -h);
    push3(&mut data, 0, -SCALE, 0);
    push3(&mut data, h, -h, -h);
    push3(&mut data, 0, -SCALE, 0);
    push3(&mut data, -h, -h, h);
    push3(&mut data, 0, -SCALE, 0);
    push3(&mut data, -h, -h, -h);
    push3(&mut data, 0, -SCALE, 0);
    let mut locations: Vec<i32> = Vec::new();
    locations.push(3);
    locations.push(3);
    proof {
        reveal_with_fuel(spec_loc_sum, 4);
        assert(locations@ =~= seq![3i32, 3i32]);
    }
    let model = create(data, locations);
    model
}

fn push3(data: &mut Vec<i64>, a: i64, b: i64, c: i64)
    ensures
        final(data)@ == old(data)@ + seq![a, b, c],
{
    data.push(a);
    data.push(b);
    data.push(c);
}

} // verus!
