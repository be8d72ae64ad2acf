//! Points and vectors with integer coordinates, and the dot product.
use vstd::prelude::*;

verus! {

/// Largest magnitude of a coordinate of a position (a sphere's center, a
/// ray's origin) and of a radius. With directions bounded by
/// `DIRECTION_LIMIT`, every product in the hit test fits in an `i128`.
pub const COORD_LIMIT: i64 = 16_777_216;

/// Largest magnitude of a component of a ray direction.
pub const DIRECTION_LIMIT: i64 = 68_719_476_736;

/// A triple of mathematical integers: the model of points and vectors.
pub type Triple = (int, int, int);

pub open spec fn dot(a: Triple, b: Triple) -> int {
    a.0 * b.0 + a.1 * b.1 + a.2 * b.2
}

pub open spec fn difference(a: Triple, b: Triple) -> Triple {
    (a.0 - b.0, a.1 - b.1, a.2 - b.2)
}

pub open spec fn scaled(k: int, a: Triple) -> Triple {
    (k * a.0, k * a.1, k * a.2)
}

pub open spec fn within(a: Triple, limit: int) -> bool {
    -limit <= a.0 <= limit && -limit <= a.1 <= limit && -limit <= a.2 <= limit
}

/// A position in scene space.
#[derive(Clone, Copy, Debug, PartialEq, Eq, Structural)]
pub struct Point3 {
    pub x: i64,
    pub y: i64,
    pub z: i64,
}

impl View for Point3 {
    type V = Triple;

    open spec fn view(&self) -> Triple {
        (self.x as int, self.y as int, self.z as int)
    }
}

impl Point3 {
    pub fn new(x: i64, y: i64, z: i64) -> (r: Point3)
        ensures
            r@ == (x as int, y as int, z as int),
    {
        Point3 { x, y, z }
    }
}

/// A displacement in scene space.
#[derive(Clone, Copy, Debug, PartialEq, Eq, Structural)]
pub struct Vector3 {
    pub x: i64,
    pub y: i64,
    pub z: i64,
}

impl View for Vector3 {
    type V = Triple;

    open spec fn view(&self) -> Triple {
        (self.x as int, self.y as int, self.z as int)
    }
}

impl Vector3 {
    pub fn new(x: i64, y: i64, z: i64) -> (r: Vector3)
        ensures
            r@ == (x as int, y as int, z as int),
    {
        Vector3 { x, y, z }
    }
}

proof fn lemma_square_of_difference(u: int, v: int) by (nonlinear_arith)
    ensures
        (u - v) * (u - v) == u * u - 2 * (u * v) + v * v,
        (u - v) * (u - v) >= 0,
{
}

proof fn lemma_rearrange(p: int, q: int, r: int, s: int) by (nonlinear_arith)
    ensures
        (p * q) * (r * s) == (p * s) * (r * q),
        (p * q) * (p * q) == (p * p) * (q * q),
{
}

proof fn lemma_square_of_sum(u: int, v: int, w: int) by (nonlinear_arith)
    ensures
        (u + v + w) * (u + v + w) == u * u + v * v + w * w + 2 * (u * v) + 2 * (u * w) + 2 * (v
            * w),
{
}

proof fn lemma_product_of_sums(u0: int, u1: int, u2: int, v0: int, v1: int, v2: int) by (nonlinear_arith)
    ensures
        (u0 + u1 + u2) * (v0 + v1 + v2) == u0 * v0 + u0 * v1 + u0 * v2 + u1 * v0 + u1 * v1 + u1
            * v2 + u2 * v0 + u2 * v1 + u2 * v2,
{
}

/// Lagrange's identity in three dimensions: `|a|^2 |b|^2 - (a.b)^2` is the
/// squared length of the cross product, so it is never negative.
pub proof fn lemma_cauchy_schwarz(a: Triple, b: Triple)
    ensures
        dot(a, a) * dot(b, b) - dot(a, b) * dot(a, b) >= 0,
        dot(b, b) >= 0,
{
    let (a0, a1, a2) = a;
    let (b0, b1, b2) = b;
    lemma_product_of_sums(a0 * a0, a1 * a1, a2 * a2, b0 * b0, b1 * b1, b2 * b2);
    lemma_square_of_sum(a0 * b0, a1 * b1, a2 * b2);
    lemma_rearrange(a0, b0, a0, b0);
    lemma_rearrange(a1, b1, a1, b1);
    lemma_rearrange(a2, b2, a2, b2);
    lemma_rearrange(a0, b1, a0, b1);
    lemma_rearrange(a0, b2, a0, b2);
    lemma_rearrange(a1, b0, a1, b0);
    lemma_rearrange(a1, b2, a1, b2);
    lemma_rearrange(a2, b0, a2, b0);
    lemma_rearrange(a2, b1, a2, b1);
    lemma_rearrange(a1, b2, a2, b1);
    lemma_rearrange(a2, b0, a0, b2);
    lemma_rearrange(a0, b1, a1, b0);
    lemma_square_of_difference(a1 * b2, a2 * b1);
    lemma_square_of_difference(a2 * b0, a0 * b2);
    lemma_square_of_difference(a0 * b1, a1 * b0);
    lemma_square_of_difference(b0, 0);
    lemma_square_of_difference(b1, 0);
    lemma_square_of_difference(b2, 0);
}

} // verus!
