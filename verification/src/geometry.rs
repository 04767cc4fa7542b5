use vstd::prelude::*;

verus! {

/// A single-precision number, carried by its IEEE 754 bit pattern. The
/// session core moves such numbers between the device and the content side
/// and never computes with them.
pub type Scalar = u32;

/// A rotation followed by a translation.
#[derive(Clone, Copy, Debug, PartialEq, Eq)]
pub struct RigidTransform {
    /// The rotation as a quaternion: i, j, k, r.
    pub rotation: [Scalar; 4],
    /// The translation: x, y, z.
    pub translation: [Scalar; 3],
}

/// A width and a height in pixels.
#[derive(Clone, Copy, Debug, PartialEq, Eq)]
pub struct Size {
    pub width: i32,
    pub height: i32,
}

/// A rectangle of a framebuffer, in pixels.
#[derive(Clone, Copy, Debug, PartialEq, Eq)]
pub struct Viewport {
    pub x: i32,
    pub y: i32,
    pub size: Size,
}

/// One eye: where it is relative to the viewer, how it projects, and which
/// part of the framebuffer it draws to.
#[derive(Clone, Copy, Debug, PartialEq, Eq)]
pub struct View {
    pub transform: RigidTransform,
    /// The projection matrix, row by row.
    pub projection: [Scalar; 16],
    pub viewport: Viewport,
}

/// The view configuration of a device.
#[derive(Clone, Copy, Debug, PartialEq, Eq)]
pub enum Views {
    Mono(View),
    Stereo(View, View),
}

} // verus!
