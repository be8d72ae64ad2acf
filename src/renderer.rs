//! Rendering: one primary ray per pixel, coloured by whether it hits the sphere.
use vstd::prelude::*;
use image::DynamicImage;
use crate::canvas::{image_pixels, image_size, new_rgb8, put_pixel};
use crate::ray::{line_hits_sphere, prime_direction, Intersectable, Ray};
use crate::scene::Scene;

verus! {

/// Whether the primary ray through pixel `(x, y)` hits the scene's sphere.
pub open spec fn pixel_is_hit(scene: Scene, x: int, y: int) -> bool {
    line_hits_sphere(
        scene.sphere.center@,
        scene.sphere.radius as int,
        (0, 0, 0),
        prime_direction(x, y, scene.width as int, scene.height as int, scene.fov),
    )
}

/// The channels of pixel `(x, y)`: the sphere's colour on a hit, black
/// otherwise.
pub open spec fn pixel_channels(scene: Scene, x: int, y: int) -> Seq<u8> {
    if pixel_is_hit(scene, x, y) {
        seq![scene.sphere.color.red, scene.sphere.color.green, scene.sphere.color.blue]
    } else {
        seq![0u8, 0u8, 0u8]
    }
}

/// Renders `scene` into a new RGB image of its width and height.
pub fn render(scene: &Scene) -> (r: DynamicImage)
    requires
        scene.wf(),
        3 * (scene.width as int) * (scene.height as int) <= usize::MAX,
    ensures
        image_size(r) == (scene.width, scene.height),
        forall|x: u32, y: u32| #[trigger]
            image_pixels(r).contains_key((x, y)) <==> (x < scene.width && y < scene.height),
        forall|x: u32, y: u32|
            x < scene.width && y < scene.height ==> #[trigger] image_pixels(r)[(x, y)]
                == pixel_channels(*scene, x as int, y as int),
{
    let width = scene.width;
    let height = scene.height;
    let color = scene.sphere.color;
    let mut image = new_rgb8(width, height);
    let mut x: u32 = 0;
    while x < width
        invariant
            scene.wf(),
            width == scene.width,
            height == scene.height,
            color == scene.sphere.color,
            x <= width,
            image_size(image) == (width, height),
            forall|px: u32, py: u32| #[trigger]
                image_pixels(image).contains_key((px, py)) <==> (px < width && py < height),
            forall|px: u32, py: u32|
                px < width && py < height ==> #[trigger] image_pixels(image)[(px, py)] == if px
                    < x {
                    pixel_channels(*scene, px as int, py as int)
                } else {
                    seq![0u8, 0u8, 0u8]
                },
        decreases width - x,
    {
        let mut y: u32 = 0;
        while y < height
            invariant
                scene.wf(),
                width == scene.width,
                height == scene.height,
                color == scene.sphere.color,
                x < width,
                y <= height,
                image_size(image) == (width, height),
                forall|px: u32, py: u32| #[trigger]
                    image_pixels(image).contains_key((px, py)) <==> (px < width && py < height),
                forall|px: u32, py: u32|
                    px < width && py < height ==> #[trigger] image_pixels(image)[(px, py)] == if px
                        < x || (px == x && py < y) {
                        pixel_channels(*scene, px as int, py as int)
                    } else {
                        seq![0u8, 0u8, 0u8]
                    },
            decreases height - y,
        {
            let ray = Ray::create_prime(x, y, scene);
            if scene.sphere.intersect(&ray) {
                put_pixel(&mut image, x, y, color.red, color.green, color.blue, 255);
            } else {
                put_pixel(&mut image, x, y, 0, 0, 0, 0);
            }
            y = y + 1;
        }
        x = x + 1;
    }
    image
}

} // verus!
