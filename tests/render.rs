use image::{DynamicImage, GenericImageView, Rgba};
use raytrace::{render, EncodedColor, FieldOfView, Point3, Scene, Sphere};

/// Gamma-encodes a linear channel in [0, 1] to eight bits.
fn encode(linear: f32) -> u8 {
    (linear.powf(1.0 / 2.2) * 255.0) as u8
}

fn right_angle() -> FieldOfView {
    FieldOfView { tan_numerator: 1, tan_denominator: 1 }
}

fn green_sphere_scene() -> Scene {
    Scene {
        width: 800,
        height: 600,
        fov: right_angle(),
        sphere: Sphere {
            center: Point3 { x: 0, y: 0, z: -5 },
            radius: 1,
            color: EncodedColor { red: encode(0.4), green: encode(1.0), blue: encode(0.4) },
        },
    }
}

#[test]
fn test_can_render_scene() {
    let scene = green_sphere_scene();
    let img: DynamicImage = render(&scene);
    assert_eq!(scene.width, img.width());
    assert_eq!(scene.height, img.height());
}

#[test]
fn centre_pixel_is_sphere_colour_and_corner_is_black() {
    let scene = green_sphere_scene();
    let img = render(&scene);
    assert_eq!(encode(0.4), 168);
    assert_eq!(img.get_pixel(400, 300), Rgba([168, 255, 168, 255]));
    assert_eq!(img.get_pixel(0, 0), Rgba([0, 0, 0, 255]));
    assert_eq!(img.get_pixel(799, 599), Rgba([0, 0, 0, 255]));
}

#[test]
fn rendered_size_matches_scene_for_several_sizes() {
    for (w, h) in [(2u32, 1u32), (17, 16), (320, 7), (5, 0)] {
        let mut scene = green_sphere_scene();
        scene.width = w;
        scene.height = h;
        let img = render(&scene);
        assert_eq!((img.width(), img.height()), (w, h));
    }
}

#[test]
fn small_render_has_sphere_in_the_middle_only() {
    let scene = Scene {
        width: 5,
        height: 3,
        fov: right_angle(),
        sphere: Sphere {
            center: Point3 { x: 0, y: 0, z: -10 },
            radius: 1,
            color: EncodedColor { red: 10, green: 20, blue: 30 },
        },
    };
    let img = render(&scene);
    for x in 0..5 {
        for y in 0..3 {
            let expected = if x == 2 && y == 1 { Rgba([10, 20, 30, 255]) } else { Rgba([0, 0, 0, 255]) };
            assert_eq!(img.get_pixel(x, y), expected, "pixel ({}, {})", x, y);
        }
    }
}

#[test]
fn zero_radius_sphere_leaves_image_black() {
    let mut scene = green_sphere_scene();
    scene.width = 40;
    scene.height = 30;
    scene.sphere.radius = 0;
    let img = render(&scene);
    for x in 0..40 {
        for y in 0..30 {
            assert_eq!(img.get_pixel(x, y), Rgba([0, 0, 0, 255]));
        }
    }
}
