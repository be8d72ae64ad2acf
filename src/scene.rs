//! The scene: image size, field of view and one flat-coloured sphere.
use vstd::prelude::*;
use crate::geometry::{within, Point3, COORD_LIMIT};

verus! {

/// Largest image width (and so height) that the renderer accepts: it keeps
/// every ray direction within `DIRECTION_LIMIT`.
pub const MAX_DIMENSION: u32 = 1_048_576;

/// A colour already encoded for display: eight bits per channel, after
/// clamping and gamma encoding.
#[derive(Clone, Copy, Debug, PartialEq, Eq, Structural)]
pub struct EncodedColor {
    pub red: u8,
    pub green: u8,
    pub blue: u8,
}

/// The field of view, held as the tangent of half its angle, a ratio
/// `tan_numerator / tan_denominator`. A right angle is `1 / 1`.
#[derive(Clone, Copy, Debug, PartialEq, Eq, Structural)]
pub struct FieldOfView {
    pub tan_numerator: u16,
    pub tan_denominator: u16,
}

impl FieldOfView {
    pub open spec fn wf(&self) -> bool {
        self.tan_denominator > 0
    }
}

/// A sphere with a flat colour. The radius is in scene units.
#[derive(Clone, Copy, Debug, PartialEq, Eq, Structural)]
pub struct Sphere {
    pub center: Point3,
    pub radius: i64,
    pub color: EncodedColor,
}

impl Sphere {
    /// The sphere's coordinates are small enough for the exact hit test.
    pub open spec fn wf(&self) -> bool {
        within(self.center@, COORD_LIMIT as int) && -COORD_LIMIT <= self.radius <= COORD_LIMIT
    }
}

/// What is rendered: a `width` by `height` image of one sphere seen from
/// the origin, looking down the negative z axis.
#[derive(Clone, Copy, Debug, PartialEq, Eq, Structural)]
pub struct Scene {
    pub width: u32,
    pub height: u32,
    pub fov: FieldOfView,
    pub sphere: Sphere,
}

impl Scene {
    /// The image is wider than it is tall, and all values are in range.
    pub open spec fn wf(&self) -> bool {
        &&& self.height < self.width
        &&& self.width <= MAX_DIMENSION
        &&& self.fov.wf()
        &&& self.sphere.wf()
    }
}

} // verus!
