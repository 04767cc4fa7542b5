use vstd::prelude::*;
use crate::geometry::RigidTransform;

verus! {

/// The name of an input source within its session.
#[derive(Clone, Copy, Debug, PartialEq, Eq)]
pub struct InputId(pub u32);

/// The hand an input source is held in.
#[derive(Clone, Copy, Debug, PartialEq, Eq)]
pub enum Handedness {
    Neither,
    Left,
    Right,
}

/// How the target ray of an input source is produced.
#[derive(Clone, Copy, Debug, PartialEq, Eq)]
pub enum TargetRayMode {
    Gaze,
    TrackedPointer,
    Screen,
}

/// An input source as it is announced to the content side.
#[derive(Clone, Copy, Debug, PartialEq, Eq)]
pub struct InputSource {
    pub id: InputId,
    pub handedness: Handedness,
    pub target_ray_mode: TargetRayMode,
    pub supports_grip: bool,
}

/// The state of one input source in one animation frame.
#[derive(Clone, Copy, Debug, PartialEq, Eq)]
pub struct InputFrame {
    pub id: InputId,
    pub target_ray_origin: Option<RigidTransform>,
    pub grip_origin: Option<RigidTransform>,
    pub pressed: bool,
    pub squeezed: bool,
}

} // verus!
