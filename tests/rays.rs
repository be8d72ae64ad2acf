use raytrace::{
    EncodedColor, FieldOfView, Intersectable, Point3, Ray, Scene, Sphere, Vector3,
};

fn sphere(x: i64, y: i64, z: i64, radius: i64) -> Sphere {
    Sphere {
        center: Point3 { x, y, z },
        radius,
        color: EncodedColor { red: 255, green: 255, blue: 255 },
    }
}

fn scene(width: u32, height: u32, tan_numerator: u16, tan_denominator: u16) -> Scene {
    Scene {
        width,
        height,
        fov: FieldOfView { tan_numerator, tan_denominator },
        sphere: sphere(0, 0, -5, 1),
    }
}

fn ray(origin: (i64, i64, i64), direction: (i64, i64, i64)) -> Ray {
    Ray {
        origin: Point3::new(origin.0, origin.1, origin.2),
        direction: Vector3::new(direction.0, direction.1, direction.2),
    }
}

#[test]
fn prime_ray_starts_at_origin() {
    let s = scene(800, 600, 1, 1);
    for (x, y) in [(0, 0), (799, 599), (400, 300), (13, 421)] {
        let r = Ray::create_prime(x, y, &s);
        assert_eq!(r.origin, Point3 { x: 0, y: 0, z: 0 });
        assert!(r.direction.z < 0);
    }
}

#[test]
fn prime_ray_directions_exact() {
    let s = scene(800, 600, 1, 1);
    assert_eq!(Ray::create_prime(400, 300, &s).direction, Vector3 { x: 1, y: -1, z: -600 });
    assert_eq!(Ray::create_prime(0, 0, &s).direction, Vector3 { x: -799, y: 599, z: -600 });
    assert_eq!(Ray::create_prime(799, 599, &s).direction, Vector3 { x: 799, y: -599, z: -600 });
    let narrow = scene(4, 2, 1, 2);
    assert_eq!(Ray::create_prime(3, 0, &narrow).direction, Vector3 { x: 3, y: 1, z: -4 });
}

#[test]
fn centre_ray_is_close_to_negative_z() {
    for (w, h) in [(800u32, 600u32), (641, 480), (3, 2), (1000, 999)] {
        let r = Ray::create_prime(w / 2, h / 2, &scene(w, h, 7, 7));
        let d = r.direction;
        assert!(d.z < 0);
        assert!(d.x.abs() * (h as i64) <= -d.z);
        assert!(d.y.abs() * (h as i64) <= -d.z);
    }
}

#[test]
fn centre_ray_hits_and_corner_ray_misses() {
    let s = scene(800, 600, 1, 1);
    assert!(s.sphere.intersect(&Ray::create_prime(400, 300, &s)));
    assert!(!s.sphere.intersect(&Ray::create_prime(0, 0, &s)));
}

#[test]
fn hit_test_on_axis_and_off_axis() {
    let s = sphere(0, 0, -5, 1);
    assert!(s.intersect(&ray((0, 0, 0), (0, 0, -1))));
    assert!(!s.intersect(&ray((0, 0, 0), (0, 1, 0))));
    // A line at distance exactly the radius does not count as a hit.
    assert!(!s.intersect(&ray((1, 0, 0), (0, 0, -1))));
    assert!(s.intersect(&ray((0, 0, 0), (1, 0, -10))));
}

#[test]
fn sphere_behind_the_origin_still_counts_as_hit() {
    let s = sphere(0, 0, 5, 1);
    assert!(s.intersect(&ray((0, 0, 0), (0, 0, -1))));
}

#[test]
fn hit_test_ignores_direction_length() {
    let s = sphere(3, -2, -9, 2);
    for d in [(1, 0, -3), (0, -1, -4), (2, 2, -1), (5, -3, -14)] {
        let short = s.intersect(&ray((0, 0, 0), d));
        let long = s.intersect(&ray((0, 0, 0), (d.0 * 1000, d.1 * 1000, d.2 * 1000)));
        assert_eq!(short, long);
    }
}

#[test]
fn hit_test_is_scale_invariant() {
    let rays = [(0, 0, -1), (1, 0, -5), (1, 1, -2), (0, 3, -1)];
    for d in rays {
        let small = sphere(1, 2, -8, 3).intersect(&ray((1, -1, 0), d));
        let large = sphere(10, 20, -80, 30).intersect(&ray((10, -10, 0), d));
        assert_eq!(small, large);
    }
}

#[test]
fn zero_radius_is_never_hit() {
    let s = sphere(0, 0, -5, 0);
    for d in [(0, 0, -1), (0, 0, 1), (1, 1, -5)] {
        assert!(!s.intersect(&ray((0, 0, 0), d)));
    }
    assert!(!s.intersect(&ray((0, 0, -5), (0, 0, -1))));
}

#[test]
fn negative_radius_behaves_as_its_magnitude() {
    let s = sphere(0, 0, -5, -1);
    assert!(s.intersect(&ray((0, 0, 0), (0, 0, -1))));
}

#[test]
fn hit_test_at_coordinate_limits() {
    let far = sphere(16_777_216, -16_777_216, -16_777_216, 16_777_216);
    let r = ray((-16_777_216, 16_777_216, 16_777_216), (68_719_476_736, -68_719_476_736, -68_719_476_736));
    assert!(far.intersect(&r));
    let r2 = ray((-16_777_216, 16_777_216, 16_777_216), (-68_719_476_736, 0, 0));
    assert!(!far.intersect(&r2));
}
