use vstd::prelude::*;
use std::sync::mpsc::Sender;
use crate::frame::Event;
use crate::frame::Frame;
use crate::geometry::RigidTransform;
use crate::geometry::Scalar;
use crate::geometry::Size;
use crate::geometry::Views;
use crate::input::InputSource;
use crate::model::SwapChainId;
use crate::session::EnvironmentBlendMode;
use crate::session::Quitter;

verus! {

/// A rotating pool of surfaces, as its consumer sees it.
pub trait SwapChainAPI<Surface> {
    /// Takes the current front buffer, if there is one.
    fn take_surface(&self) -> Option<Surface>;

    /// Gives a surface back to the pool.
    fn recycle_surface(&self, surface: Surface);
}

/// A registry of swap chains, as its consumer sees it.
pub trait SwapChainsAPI: Clone {
    type Surface;

    type SwapChain: SwapChainAPI<Self::Surface>;

    /// Looks a swap chain up by its name.
    fn get(&self, id: SwapChainId) -> Option<Self::SwapChain>;
}

/// What a session asks of its device. A backend implements this; the worker
/// owns exactly one device and is the only one to call it. This library
/// claims nothing of what a device answers.
pub trait DeviceAPI<Surface> {
    /// The transform from native space to floor space, if the device has one.
    fn floor_transform(&self) -> Option<RigidTransform>;

    /// The view configuration.
    fn views(&self) -> Views;

    /// The framebuffer size that the device would like, if it has a
    /// framebuffer at all.
    fn recommended_framebuffer_resolution(&self) -> Option<Size>;

    /// The input sources that are there from the start.
    fn initial_inputs(&self) -> Vec<InputSource>;

    /// How rendered content is blended with the surroundings.
    fn environment_blend_mode(&self) -> EnvironmentBlendMode;

    /// Blocks until the next frame is due. `None` means that the device will
    /// never have another frame.
    fn wait_for_animation_frame(&mut self) -> Option<Frame>;

    /// Renders to the surface and hands it back.
    fn render_animation_frame(&mut self, surface: Surface) -> Surface;

    /// Sets where the device sends its events from now on.
    fn set_event_dest(&mut self, dest: Sender<Event>);

    /// Gives the device the means to end its own session.
    fn set_quitter(&mut self, quitter: Quitter);

    /// Sets the clip planes.
    fn update_clip_planes(&mut self, near: Scalar, far: Scalar);

    /// Called once when the session is told to end.
    fn quit(&mut self);
}

} // verus!
