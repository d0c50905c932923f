//! The outline of a ring: two concentric regular polygons traced as one closed
//! line strip, out along the outer polygon and back along the inner one.
//!
//! Every vertex is kept in exact polar form, as a radius and a whole number of
//! angular steps, so that the shape of the outline can be stated and proved
//! without rounding. A renderer turns each vertex into coordinates with one
//! sine and one cosine.

use vstd::prelude::*;

verus! {

/// The largest number of sides for which every vertex index fits in a `u32`.
pub const MAX_SIDES: u32 = 0x8000_0000;

/// Why a ring was not built.
#[derive(Clone, Copy, Debug, PartialEq, Eq, Structural)]
pub enum GeometryError {
    /// Fewer than three sides, a radius that is not positive, or an inner
    /// radius that is not smaller than the outer one.
    InvalidGeometryParameters,
}

/// A point of the plane at distance `radius` from the centre, `step` angular
/// steps clockwise from straight up. One step is a full turn divided by the
/// number of sides of the ring the point belongs to, so the point lies at the
/// angle `π/2 − step · 2π / sides`.
#[derive(Clone, Copy, Debug, PartialEq, Eq, Structural)]
pub struct PolarPoint {
    pub radius: i64,
    pub step: u32,
}

/// What a ring mesh holds, as mathematical sequences.
pub struct RingModel {
    pub sides: int,
    pub outer_radius: int,
    pub inner_radius: int,
    /// The vertices of the outline, in drawing order.
    pub positions: Seq<PolarPoint>,
    /// One surface normal per vertex, as `(x, y, z)`.
    pub normals: Seq<(int, int, int)>,
    /// The vertex indices that each line of the strip joins.
    pub segments: Seq<(int, int)>,
}

/// The parameters from which a ring can be built.
pub open spec fn valid_parameters(sides: u32, outer_radius: i64, inner_radius: i64) -> bool {
    &&& sides >= 3
    &&& outer_radius > 0
    &&& inner_radius > 0
    &&& inner_radius < outer_radius
}

/// The number of vertices of a ring: one short of `sides` on each polygon, and
/// the closing vertex.
pub open spec fn vertex_count(sides: int) -> int {
    2 * (sides - 1) + 1
}

/// The `k`-th vertex of the outline. The first `sides - 1` vertices walk the
/// outer polygon clockwise from the top, the next `sides - 1` walk the inner
/// polygon back to the top, and the last one repeats the first.
pub open spec fn ring_point(sides: u32, outer_radius: i64, inner_radius: i64, k: int) -> PolarPoint {
    if k < sides - 1 {
        PolarPoint { radius: outer_radius, step: k as u32 }
    } else if k < 2 * (sides - 1) {
        PolarPoint { radius: inner_radius, step: (2 * sides - 3 - k) as u32 }
    } else {
        PolarPoint { radius: outer_radius, step: 0 }
    }
}

/// The ring with the given parameters.
pub open spec fn ring_model(sides: u32, outer_radius: i64, inner_radius: i64) -> RingModel {
    RingModel {
        sides: sides as int,
        outer_radius: outer_radius as int,
        inner_radius: inner_radius as int,
        positions: Seq::new(
            vertex_count(sides as int) as nat,
            |k: int| ring_point(sides, outer_radius, inner_radius, k),
        ),
        normals: Seq::new(vertex_count(sides as int) as nat, |k: int| (0int, 0int, 1int)),
        segments: Seq::new((vertex_count(sides as int) - 1) as nat, |k: int| (k, k + 1)),
    }
}

impl RingModel {
    /// This is the ring that its own parameters describe, and they are valid.
    pub open spec fn is_ring(self) -> bool {
        &&& 3 <= self.sides <= MAX_SIDES
        &&& 0 < self.inner_radius < self.outer_radius <= i64::MAX
        &&& self == ring_model(
            self.sides as u32,
            self.outer_radius as i64,
            self.inner_radius as i64,
        )
    }
}

/// The outline of a ring, ready to be drawn as a line strip or used as a
/// collision polyline.
pub struct RingMesh {
    sides: u32,
    outer_radius: i64,
    inner_radius: i64,
    positions: Vec<PolarPoint>,
    normals: Vec<[i32; 3]>,
    segments: Vec<[u32; 2]>,
}

impl View for RingMesh {
    type V = RingModel;

    closed spec fn view(&self) -> RingModel {
        RingModel {
            sides: self.sides as int,
            outer_radius: self.outer_radius as int,
            inner_radius: self.inner_radius as int,
            positions: self.positions@,
            normals: triples(self.normals@),
            segments: pairs(self.segments@),
        }
    }
}

/// The arrays of a normal buffer as triples of integers.
pub open spec fn triples(buffer: Seq<[i32; 3]>) -> Seq<(int, int, int)> {
    Seq::new(
        buffer.len(),
        |k: int| (buffer[k][0] as int, buffer[k][1] as int, buffer[k][2] as int),
    )
}

/// The arrays of an index buffer as pairs of integers.
pub open spec fn pairs(buffer: Seq<[u32; 2]>) -> Seq<(int, int)> {
    Seq::new(buffer.len(), |k: int| (buffer[k][0] as int, buffer[k][1] as int))
}

impl RingMesh {
    #[verifier::type_invariant]
    spec fn built_as_ring(self) -> bool {
        self@.is_ring()
    }

    /// Builds the outline of a ring with `sides` sides between the two radii.
    ///
    /// The parameters are rejected unless `sides` is at least three and
    /// `0 < inner_radius < outer_radius`. Beyond `MAX_SIDES` sides the vertex
    /// indices would no longer fit in a `u32`.
    pub fn generate(sides: u32, outer_radius: i64, inner_radius: i64) -> (result: Result<
        RingMesh,
        GeometryError,
    >)
        requires
            sides <= MAX_SIDES,
        ensures
            result is Ok <==> valid_parameters(sides, outer_radius, inner_radius),
            result matches Err(e) ==> e == GeometryError::InvalidGeometryParameters,
            result matches Ok(mesh) ==> mesh@ == ring_model(sides, outer_radius, inner_radius),
            // The outline is closed: it ends on the vertex it starts from.
            result matches Ok(mesh) ==> mesh@.positions.len() == 2 * (sides - 1) + 1
                && mesh@.positions.first() == mesh@.positions.last(),
            // The strip joins each vertex to the next, and nothing else.
            result matches Ok(mesh) ==> mesh@.segments.len() == mesh@.positions.len() - 1 && forall|
                k: int,
            |
                0 <= k < mesh@.segments.len() ==> #[trigger] mesh@.segments[k] == (k, k + 1),
            // Every vertex has a normal, and it points straight out of the plane.
            result matches Ok(mesh) ==> mesh@.normals.len() == mesh@.positions.len() && forall|
                k: int,
            |
                0 <= k < mesh@.normals.len() ==> #[trigger] mesh@.normals[k] == (0int, 0int, 1int),
    {
        if sides < 3 || outer_radius <= 0 || inner_radius <= 0 || inner_radius >= outer_radius {
            return Err(GeometryError::InvalidGeometryParameters);
        }
        let mut positions: Vec<PolarPoint> = Vec::new();
        let mut normals: Vec<[i32; 3]> = Vec::new();
        let mut segments: Vec<[u32; 2]> = Vec::new();

        // Out along the outer polygon, clockwise from the top.
        let mut i: u32 = 0;
        while i < sides - 1
            invariant
                3 <= sides <= MAX_SIDES,
                i <= sides - 1,
                positions@.len() == i,
                normals@.len() == i,
                forall|k: int|
                    0 <= k < i ==> positions@[k] == ring_point(
                        sides,
                        outer_radius,
                        inner_radius,
                        k,
                    ),
                forall|k: int|
                    0 <= k < i ==> (#[trigger] normals@[k])[0] == 0 && normals@[k][1] == 0
                        && normals@[k][2] == 1,
            decreases sides - 1 - i,
        {
            positions.push(PolarPoint { radius: outer_radius, step: i });
            normals.push([0, 0, 1]);
            i = i + 1;
        }

        // Back along the inner polygon, so that the strip does not cross itself.
        let mut i: u32 = 0;
        while i < sides - 1
            invariant
                3 <= sides <= MAX_SIDES,
                i <= sides - 1,
                positions@.len() == sides - 1 + i,
                normals@.len() == sides - 1 + i,
                forall|k: int|
                    0 <= k < sides - 1 + i ==> positions@[k] == ring_point(
                        sides,
                        outer_radius,
                        inner_radius,
                        k,
                    ),
                forall|k: int|
                    0 <= k < sides - 1 + i ==> (#[trigger] normals@[k])[0] == 0 && normals@[k][1]
                        == 0 && normals@[k][2] == 1,
            decreases sides - 1 - i,
        {
            let j: u32 = sides - 2 - i;
            positions.push(PolarPoint { radius: inner_radius, step: j });
            normals.push([0, 0, 1]);
            i = i + 1;
        }

        // The first vertex once more closes the loop.
        let first_position = positions[0];
        positions.push(first_position);
        let first_normal = normals[0];
        normals.push(first_normal);

        let count: usize = positions.len();
        let mut i: usize = 0;
        while i < count - 1
            invariant
                3 <= sides <= MAX_SIDES,
                count == vertex_count(sides as int),
                i <= count - 1,
                segments@.len() == i,
                forall|k: int|
                    0 <= k < i ==> (#[trigger] segments@[k])[0] == k && segments@[k][1] == k + 1,
            decreases count - 1 - i,
        {
            segments.push([i as u32, i as u32 + 1]);
            i = i + 1;
        }

        proof {
            let model = ring_model(sides, outer_radius, inner_radius);
            assert(positions@ =~= model.positions);
            assert(triples(normals@) =~= model.normals);
            assert(pairs(segments@) =~= model.segments);
        }
        Ok(RingMesh { sides, outer_radius, inner_radius, positions, normals, segments })
    }

    /// The number of sides of each polygon.
    pub fn sides(&self) -> (sides: u32)
        ensures
            sides == self@.sides,
            self@.is_ring(),
    {
        proof {
            use_type_invariant(self);
        }
        self.sides
    }

    /// The radius of the outer polygon.
    pub fn outer_radius(&self) -> (radius: i64)
        ensures
            radius == self@.outer_radius,
            self@.is_ring(),
    {
        proof {
            use_type_invariant(self);
        }
        self.outer_radius
    }

    /// The radius of the inner polygon.
    pub fn inner_radius(&self) -> (radius: i64)
        ensures
            radius == self@.inner_radius,
            self@.is_ring(),
    {
        proof {
            use_type_invariant(self);
        }
        self.inner_radius
    }

    /// The vertices of the outline, in drawing order. The same sequence serves
    /// as the points of the collision polyline.
    pub fn positions(&self) -> (positions: &Vec<PolarPoint>)
        ensures
            positions@ == self@.positions,
            self@.is_ring(),
    {
        proof {
            use_type_invariant(self);
        }
        &self.positions
    }

    /// One surface normal per vertex.
    pub fn normals(&self) -> (normals: &Vec<[i32; 3]>)
        ensures
            triples(normals@) == self@.normals,
            self@.is_ring(),
    {
        proof {
            use_type_invariant(self);
        }
        &self.normals
    }

    /// The pairs of vertex indices that the lines of the strip join.
    pub fn segments(&self) -> (segments: &Vec<[u32; 2]>)
        ensures
            pairs(segments@) == self@.segments,
            self@.is_ring(),
    {
        proof {
            use_type_invariant(self);
        }
        &self.segments
    }
}

/// The outer polygon is walked clockwise from the top and the inner polygon
/// back to the top: the vertex `sides - 1 + i` of the outline stands at the
/// same angle as the vertex `sides - 2 - i`, on the other radius.
pub proof fn lemma_inner_walk_mirrors_outer(
    sides: u32,
    outer_radius: i64,
    inner_radius: i64,
    i: int,
)
    requires
        valid_parameters(sides, outer_radius, inner_radius),
        0 <= i < sides - 1,
    ensures
        ring_model(sides, outer_radius, inner_radius).positions[sides - 2 - i] == (PolarPoint {
            radius: outer_radius,
            step: (sides - 2 - i) as u32,
        }),
        ring_model(sides, outer_radius, inner_radius).positions[sides - 1 + i] == (PolarPoint {
            radius: inner_radius,
            step: (sides - 2 - i) as u32,
        }),
{
}

/// Two meshes generated from the same parameters hold the same values.
pub proof fn lemma_generate_is_deterministic(
    first: RingMesh,
    second: RingMesh,
    sides: u32,
    outer_radius: i64,
    inner_radius: i64,
)
    requires
        first@ == ring_model(sides, outer_radius, inner_radius),
        second@ == ring_model(sides, outer_radius, inner_radius),
    ensures
        first@ == second@,
        first@.positions == second@.positions,
        first@.normals == second@.normals,
        first@.segments == second@.segments,
{
}

} // verus!
