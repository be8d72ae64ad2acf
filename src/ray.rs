//! Primary rays through pixel centres, and the ray-sphere hit test.
use vstd::prelude::*;
use crate::geometry::{
    difference, dot, lemma_cauchy_schwarz, scaled, within, Point3, Triple, Vector3,
    COORD_LIMIT, DIRECTION_LIMIT,
};
use crate::scene::{FieldOfView, Scene, Sphere};

verus! {

/// A ray from `origin` along `direction`. The direction stands for the unit
/// vector along it; its length plays no part in the hit test.
#[derive(Clone, Copy, Debug, PartialEq, Eq, Structural)]
pub struct Ray {
    pub origin: Point3,
    pub direction: Vector3,
}

impl Ray {
    /// The coordinates are small enough for the exact hit test.
    pub open spec fn wf(&self) -> bool {
        within(self.origin@, COORD_LIMIT as int) && within(self.direction@, DIRECTION_LIMIT as int)
    }
}

/// The direction of the primary ray through the centre of pixel `(x, y)`.
///
/// The pixel centre `(x + 1/2, y + 1/2)` is mapped to the sensor point
/// `sx = (2 (x + 1/2) / w - 1) t (w / h)` and `sy = -(2 (y + 1/2) / h - 1) t`,
/// with `t` the tangent of half the field of view; the direction is
/// `(sx, sy, -1)`. Multiplied by `h * tan_denominator > 0`, that is this
/// integer vector.
pub open spec fn prime_direction(x: int, y: int, width: int, height: int, fov: FieldOfView) -> Triple {
    (
        (2 * x + 1 - width) * fov.tan_numerator,
        (height - 2 * y - 1) * fov.tan_numerator,
        -(height * fov.tan_denominator),
    )
}

proof fn lemma_mul_within(a: int, b: int, bound_a: int, bound_b: int) by (nonlinear_arith)
    requires
        -bound_a <= a <= bound_a,
        -bound_b <= b <= bound_b,
    ensures
        -(bound_a * bound_b) <= a * b <= bound_a * bound_b,
{
}

impl Ray {
    /// The primary ray from the camera at the origin through the centre of
    /// pixel `(x, y)` of `scene`.
    pub fn create_prime(x: u32, y: u32, scene: &Scene) -> (r: Ray)
        requires
            scene.wf(),
            x < scene.width,
            y < scene.height,
        ensures
            r.origin@ == (0int, 0int, 0int),
            r.direction@ == prime_direction(
                x as int,
                y as int,
                scene.width as int,
                scene.height as int,
                scene.fov,
            ),
            r.direction.z < 0,
            r.wf(),
    {
        let num = scene.fov.tan_numerator as i64;
        let den = scene.fov.tan_denominator as i64;
        let sensor_x: i64 = 2 * (x as i64) + 1 - (scene.width as i64);
        let sensor_y: i64 = (scene.height as i64) - 2 * (y as i64) - 1;
        proof {
            lemma_mul_within(sensor_x as int, num as int, 1_048_576, 65_536);
            lemma_mul_within(sensor_y as int, num as int, 1_048_576, 65_536);
            lemma_mul_within(scene.height as int, den as int, 1_048_576, 65_536);
            assert(scene.height as int * den > 0) by (nonlinear_arith)
                requires
                    scene.height > 0,
                    den > 0,
            ;
        }
        Ray {
            origin: Point3 { x: 0, y: 0, z: 0 },
            direction: Vector3 {
                x: sensor_x * num,
                y: sensor_y * num,
                z: -((scene.height as i64) * den),
            },
        }
    }
}

/// Whether the line through `origin` along `direction` passes strictly
/// within `radius` of `center`.
///
/// With `l = center - origin`, the squared distance from the centre to the
/// line is `l.l - (l.u)^2` for the unit direction `u = d / |d|`; the test
/// `l.l - (l.u)^2 < radius^2` is written here multiplied by `d.d`. Which side
/// of the origin the sphere lies on is not looked at.
pub open spec fn line_hits_sphere(center: Triple, radius: int, origin: Triple, direction: Triple) -> bool {
    let l = difference(center, origin);
    dot(l, l) * dot(direction, direction) - dot(l, direction) * dot(l, direction) < radius * radius
        * dot(direction, direction)
}

/// Something a ray can hit.
pub trait Intersectable {
    /// The value is small enough for the exact hit test.
    spec fn in_range(&self) -> bool;

    /// Whether `ray` hits the value.
    spec fn hit_by(&self, ray: Ray) -> bool;

    fn intersect(&self, ray: &Ray) -> (r: bool)
        requires
            self.in_range(),
            ray.wf(),
        ensures
            r == self.hit_by(*ray),
    ;
}

impl Intersectable for Sphere {
    open spec fn in_range(&self) -> bool {
        self.wf()
    }

    open spec fn hit_by(&self, ray: Ray) -> bool {
        line_hits_sphere(self.center@, self.radius as int, ray.origin@, ray.direction@)
    }

    fn intersect(&self, ray: &Ray) -> (r: bool) {
        let lx = self.center.x as i128 - ray.origin.x as i128;
        let ly = self.center.y as i128 - ray.origin.y as i128;
        let lz = self.center.z as i128 - ray.origin.z as i128;
        let dx = ray.direction.x as i128;
        let dy = ray.direction.y as i128;
        let dz = ray.direction.z as i128;
        let radius = self.radius as i128;
        let l: Ghost<Triple> = Ghost((lx as int, ly as int, lz as int));
        let d: Ghost<Triple> = Ghost(ray.direction@);
        proof {
            let cl: int = 33_554_432;
            let cd: int = 68_719_476_736;
            lemma_mul_within(lx as int, lx as int, cl, cl);
            lemma_mul_within(ly as int, ly as int, cl, cl);
            lemma_mul_within(lz as int, lz as int, cl, cl);
            lemma_mul_within(dx as int, dx as int, cd, cd);
            lemma_mul_within(dy as int, dy as int, cd, cd);
            lemma_mul_within(dz as int, dz as int, cd, cd);
            lemma_mul_within(lx as int, dx as int, cl, cd);
            lemma_mul_within(ly as int, dy as int, cl, cd);
            lemma_mul_within(lz as int, dz as int, cl, cd);
            lemma_mul_within(radius as int, radius as int, cl, cl);
            let ll_bound: int = 3_377_699_720_527_872;
            let dd_bound: int = 14_167_099_448_608_935_641_088;
            let ld_bound: int = 6_917_529_027_641_081_856;
            assert(-ll_bound <= dot(l@, l@) <= ll_bound);
            assert(-dd_bound <= dot(d@, d@) <= dd_bound);
            assert(-ld_bound <= dot(l@, d@) <= ld_bound);
            lemma_mul_within(dot(l@, l@), dot(d@, d@), ll_bound, dd_bound);
            lemma_mul_within(dot(l@, d@), dot(l@, d@), ld_bound, ld_bound);
            lemma_mul_within(radius * radius, dot(d@, d@), 1_125_899_906_842_624, dd_bound);
            assert(ll_bound * dd_bound == 47_852_207_848_256_971_424_537_054_170_092_404_736);
            assert(ld_bound * ld_bound == 47_852_207_848_256_971_424_537_054_170_092_404_736);
        }
        let along = lx * dx + ly * dy + lz * dz;
        let l_squared = lx * lx + ly * ly + lz * lz;
        let d_squared = dx * dx + dy * dy + dz * dz;
        assert(along == dot(l@, d@) && l_squared == dot(l@, l@) && d_squared == dot(d@, d@));
        l_squared * d_squared - along * along < radius * radius * d_squared
    }
}

proof fn lemma_scaled_products(k: int, a: int, b: int) by (nonlinear_arith)
    ensures
        k * a - k * b == k * (a - b),
        (k * a) * (k * a) == k * k * (a * a),
        (k * a) * b == k * (a * b),
        b * (k * a) == k * (b * a),
{
}

proof fn lemma_factor_of_sum(k: int, a: int, b: int, c: int) by (nonlinear_arith)
    ensures
        k * a + k * b + k * c == k * (a + b + c),
{
}

proof fn lemma_scaled_triples(k: int, a: Triple, b: Triple)
    ensures
        difference(scaled(k, a), scaled(k, b)) == scaled(k, difference(a, b)),
        dot(scaled(k, a), scaled(k, a)) == k * k * dot(a, a),
        dot(scaled(k, a), b) == k * dot(a, b),
        dot(b, scaled(k, a)) == k * dot(b, a),
{
    lemma_scaled_products(k, a.0, b.0);
    lemma_scaled_products(k, a.1, b.1);
    lemma_scaled_products(k, a.2, b.2);
    lemma_factor_of_sum(k * k, a.0 * a.0, a.1 * a.1, a.2 * a.2);
    lemma_factor_of_sum(k, a.0 * b.0, a.1 * b.1, a.2 * b.2);
    lemma_factor_of_sum(k, b.0 * a.0, b.1 * a.1, b.2 * a.2);
}

proof fn lemma_positive_factor_keeps_order(f: int, a: int, b: int) by (nonlinear_arith)
    requires
        f > 0,
    ensures
        (f * a < f * b) == (a < b),
{
}

proof fn lemma_scaled_test(k: int, ll: int, ld: int, dd: int, r: int) by (nonlinear_arith)
    ensures
        (k * k * ll) * dd - (k * ld) * (k * ld) == k * k * (ll * dd - ld * ld),
        (k * r) * (k * r) * dd == k * k * (r * r * dd),
        ll * (k * k * dd) - (k * ld) * (k * ld) == k * k * (ll * dd - ld * ld),
        r * r * (k * k * dd) == k * k * (r * r * dd),
        k != 0 ==> k * k > 0,
{
}

/// Scaling the sphere's centre and radius and the ray's origin by the same
/// positive factor does not change whether the ray hits the sphere.
pub proof fn lemma_intersect_scale_invariant(
    center: Triple,
    radius: int,
    origin: Triple,
    direction: Triple,
    factor: int,
)
    requires
        factor > 0,
    ensures
        line_hits_sphere(scaled(factor, center), factor * radius, scaled(factor, origin), direction)
            == line_hits_sphere(center, radius, origin, direction),
{
    let l = difference(center, origin);
    lemma_scaled_triples(factor, center, origin);
    lemma_scaled_triples(factor, l, direction);
    lemma_scaled_test(factor, dot(l, l), dot(l, direction), dot(direction, direction), radius);
    lemma_positive_factor_keeps_order(
        factor * factor,
        dot(l, l) * dot(direction, direction) - dot(l, direction) * dot(l, direction),
        radius * radius * dot(direction, direction),
    );
}

/// Only the direction of a ray counts, not its length: scaling the
/// direction by a positive factor does not change whether the ray hits the
/// sphere. In particular the test gives the same answer on the unit vector
/// along the direction.
pub proof fn lemma_intersect_ignores_direction_length(
    center: Triple,
    radius: int,
    origin: Triple,
    direction: Triple,
    factor: int,
)
    requires
        factor > 0,
    ensures
        line_hits_sphere(center, radius, origin, scaled(factor, direction)) == line_hits_sphere(
            center,
            radius,
            origin,
            direction,
        ),
{
    let l = difference(center, origin);
    lemma_scaled_triples(factor, direction, l);
    lemma_scaled_test(factor, dot(l, l), dot(l, direction), dot(direction, direction), radius);
    lemma_positive_factor_keeps_order(
        factor * factor,
        dot(l, l) * dot(direction, direction) - dot(l, direction) * dot(l, direction),
        radius * radius * dot(direction, direction),
    );
}

/// No ray hits a sphere of radius zero: the squared distance from its centre
/// to a line is never below zero.
pub proof fn lemma_zero_radius_never_hit(center: Triple, origin: Triple, direction: Triple)
    ensures
        !line_hits_sphere(center, 0, origin, direction),
{
    let l = difference(center, origin);
    lemma_cauchy_schwarz(l, direction);
    let dd = dot(direction, direction);
    assert(0 * 0 * dd == 0) by (nonlinear_arith);
}

/// With a right-angle field of view, the primary ray through the centre
/// pixel `(w / 2, h / 2)` points down the negative z axis, up to at most one
/// part in `h` along each of x and y.
pub proof fn lemma_center_ray_on_axis(scene: Scene)
    requires
        scene.wf(),
        scene.height > 0,
        scene.fov.tan_numerator == scene.fov.tan_denominator,
    ensures
        ({
            let d = prime_direction(
                scene.width as int / 2,
                scene.height as int / 2,
                scene.width as int,
                scene.height as int,
                scene.fov,
            );
            &&& d.2 < 0
            &&& d.2 <= d.0 * scene.height <= -d.2
            &&& d.2 <= d.1 * scene.height <= -d.2
        }),
{
    let w = scene.width as int;
    let h = scene.height as int;
    let t = scene.fov.tan_numerator as int;
    let sx = 2 * (w / 2) + 1 - w;
    let sy = h - 2 * (h / 2) - 1;
    assert(0 <= sx <= 1 && -1 <= sy <= 0);
    assert(t == scene.fov.tan_denominator);
    assert(-(h * t) <= (sx * t) * h <= h * t && -(h * t) <= (sy * t) * h <= h * t && h * t > 0)
        by (nonlinear_arith)
        requires
            0 <= sx <= 1,
            -1 <= sy <= 0,
            h > 0,
            t > 0,
    ;
    let d = prime_direction(w / 2, h / 2, w, h, scene.fov);
    assert(d.0 == sx * t && d.1 == sy * t && d.2 == -(h * t));
}

} // verus!
