//! The output image: `image::DynamicImage`, seen through the two things the
//! renderer needs of it, its size and its pixels.
use vstd::prelude::*;
use image::{DynamicImage, GenericImage, Rgba};

verus! {

#[verifier::external_type_specification]
#[verifier::external_body]
pub struct ExDynamicImage(DynamicImage);

/// The width and height that `width()` and `height()` report.
pub uninterp spec fn image_size(img: DynamicImage) -> (u32, u32);

/// The channels of each pixel in bounds, in the image's own eight-bit
/// layout (three channels, red, green and blue, for an RGB image).
pub uninterp spec fn image_pixels(img: DynamicImage) -> Map<(u32, u32), Seq<u8>>;

/// Relies on `DynamicImage::new_rgb8`: a `w` by `h` RGB image whose channels
/// are all zero. It panics where `3 * w * h` overflows `usize`.
#[verifier::external_body]
pub(crate) fn new_rgb8(w: u32, h: u32) -> (r: DynamicImage)
    requires
        3 * (w as int) * (h as int) <= usize::MAX,
    ensures
        image_size(r) == (w, h),
        forall|x: u32, y: u32| #[trigger]
            image_pixels(r).contains_key((x, y)) <==> (x < w && y < h),
        forall|x: u32, y: u32|
            x < w && y < h ==> #[trigger] image_pixels(r)[(x, y)] == seq![0u8, 0u8, 0u8],
{
    DynamicImage::new_rgb8(w, h)
}

/// Relies on `GenericImage::put_pixel` of `DynamicImage`: on an RGB image it
/// stores the red, green and blue channels of the colour and drops its
/// alpha. It panics where `(x, y)` is out of bounds.
#[verifier::external_body]
pub(crate) fn put_pixel(img: &mut DynamicImage, x: u32, y: u32, red: u8, green: u8, blue: u8, alpha: u8)
    requires
        x < image_size(*old(img)).0,
        y < image_size(*old(img)).1,
        image_pixels(*old(img))[(x, y)].len() == 3,
    ensures
        image_size(*final(img)) == image_size(*old(img)),
        image_pixels(*final(img)) == image_pixels(*old(img)).insert((x, y), seq![red, green, blue]),
{
    img.put_pixel(x, y, Rgba([red, green, blue, alpha]))
}

} // verus!
