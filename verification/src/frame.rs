use vstd::prelude::*;
use crate::geometry::RigidTransform;
use crate::geometry::Views;
use crate::input::InputFrame;
use crate::input::InputId;
use crate::input::InputSource;

verus! {

/// A change of what the content side has cached about its session. It
/// travels inside a frame, so the handle never has to ask the worker.
#[derive(Clone, Copy, Debug, PartialEq, Eq)]
pub enum FrameUpdateEvent {
    UpdateViews(Views),
    UpdateFloorTransform(Option<RigidTransform>),
}

/// What the device hands out for one animation frame. A frame is produced
/// once by the device and consumed once by the content side.
#[derive(Clone, Debug, PartialEq, Eq)]
pub struct Frame {
    /// Where the viewer is, if the device knows.
    pub transform: Option<RigidTransform>,
    /// The input sources, in the device's order.
    pub inputs: Vec<InputFrame>,
    /// Changes to apply to the cached session state.
    pub events: Vec<FrameUpdateEvent>,
    /// When the device made the frame, in nanoseconds.
    pub time_ns: u64,
    /// When the worker handed the frame to the content side, in nanoseconds.
    pub sent_time: u64,
}

/// The kind of a selection.
#[derive(Clone, Copy, Debug, PartialEq, Eq)]
pub enum SelectKind {
    Select,
    Squeeze,
}

/// The phase of a selection.
#[derive(Clone, Copy, Debug, PartialEq, Eq)]
pub enum SelectEvent {
    Start,
    End,
    Select,
}

/// A notification that the device pushes to the content side on its own
/// channel, in no fixed order relative to the frames.
#[derive(Clone, Copy, Debug, PartialEq, Eq)]
pub enum Event {
    /// An input source was added.
    AddInput(InputSource),
    /// The session has ended.
    SessionEnd,
    /// A selection was started, ended or performed.
    Select(InputId, SelectKind, SelectEvent),
}

/// The frame `frame` with `now` as the time it was handed over.
pub open spec fn stamped(frame: Frame, now: u64) -> Frame {
    Frame {
        transform: frame.transform,
        inputs: frame.inputs,
        events: frame.events,
        time_ns: frame.time_ns,
        sent_time: now,
    }
}

/// Marks `frame` as handed over at `now`.
pub fn stamp(frame: Frame, now: u64) -> (r: Frame)
    ensures
        r == stamped(frame, now),
{
    let mut frame = frame;
    frame.sent_time = now;
    frame
}

} // verus!
