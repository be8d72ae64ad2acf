//! A pinhole-camera renderer of a single sphere, on exact integer geometry.
//!
//! Positions and lengths are integers in scene units. A ray direction is an
//! integer vector that stands for the unit vector along it: the hit test is
//! stated for the line through the ray and does not depend on the length of
//! the direction (see `ray::lemma_intersect_ignores_direction_length`).
pub mod canvas;
pub mod geometry;
pub mod ray;
pub mod renderer;
pub mod scene;

pub use geometry::{Point3, Vector3};
pub use ray::{Intersectable, Ray};
pub use renderer::render;
pub use scene::{EncodedColor, FieldOfView, Scene, Sphere};
