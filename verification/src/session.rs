use vstd::prelude::*;
use std::sync::mpsc::Sender;
use crate::channel::precise_time_ns;
use crate::channel::clock_showed;
use crate::channel::send;
use crate::channel::was_sent;
use crate::frame::Event;
use crate::frame::FrameUpdateEvent;
use crate::geometry::RigidTransform;
use crate::geometry::Scalar;
use crate::geometry::Size;
use crate::geometry::Views;
use crate::input::InputSource;
use crate::model::MsgKind;
use crate::model::SwapChainId;

verus! {

/// The kind of a session.
#[derive(Clone, Copy, Debug, Eq, PartialEq)]
pub enum SessionMode {
    Inline,
    ImmersiveVR,
    ImmersiveAR,
}

/// How rendered content is blended with the surroundings.
#[derive(Clone, Copy, Debug, Eq, PartialEq)]
pub enum EnvironmentBlendMode {
    Opaque,
    AlphaBlend,
    Additive,
}

/// The messages that the content side sends to the worker.
pub enum SessionMsg {
    SetSwapChain(Option<SwapChainId>),
    SetEventDest(Sender<Event>),
    UpdateClipPlanes(Scalar, Scalar),
    StartRenderLoop,
    RenderAnimationFrame(u64),
    Quit,
}

impl View for SessionMsg {
    type V = MsgKind;

    open spec fn view(&self) -> MsgKind {
        match *self {
            SessionMsg::SetSwapChain(id) => MsgKind::SetSwapChain(id),
            SessionMsg::SetEventDest(dest) => MsgKind::SetEventDest(dest),
            SessionMsg::UpdateClipPlanes(near, far) => MsgKind::UpdateClipPlanes(near, far),
            SessionMsg::StartRenderLoop => MsgKind::StartRenderLoop,
            SessionMsg::RenderAnimationFrame(sent_time) => MsgKind::RenderAnimationFrame(sent_time),
            SessionMsg::Quit => MsgKind::Quit,
        }
    }
}

/// The means to end a session from anywhere. It can be cloned and handed
/// around freely; it does not own the worker.
#[derive(Clone)]
pub struct Quitter {
    sender: Sender<SessionMsg>,
}

impl Quitter {
    /// The sending end that the quitter asks through.
    pub closed spec fn channel(&self) -> Sender<SessionMsg> {
        self.sender
    }

    /// A quitter for the worker at the other end of `sender`.
    pub fn new(sender: Sender<SessionMsg>) -> (quitter: Quitter)
        ensures
            quitter.channel() == sender,
    {
        Quitter { sender }
    }

    /// Asks the worker to quit. A worker that is already gone is not an
    /// error.
    pub fn quit(&self)
        ensures
            was_sent(self.channel(), SessionMsg::Quit),
    {
        let _ = send(&self.sender, SessionMsg::Quit);
    }
}

/// What the content side knows of its session.
pub struct SessionView {
    pub floor_transform: Option<RigidTransform>,
    pub views: Views,
    pub resolution: Option<Size>,
    pub environment_blend_mode: EnvironmentBlendMode,
    pub initial_inputs: Seq<InputSource>,
    /// The messages that this handle has sent so far, first to last.
    pub sent: Seq<MsgKind>,
}

/// An XR session as the content side holds it: what it has cached of the
/// device, and the sending end of the channel to the worker. Nothing is
/// shared with the worker but that channel.
pub struct Session {
    floor_transform: Option<RigidTransform>,
    views: Views,
    resolution: Option<Size>,
    sender: Sender<SessionMsg>,
    environment_blend_mode: EnvironmentBlendMode,
    initial_inputs: Vec<InputSource>,
    sent: Ghost<Seq<MsgKind>>,
}

impl View for Session {
    type V = SessionView;

    closed spec fn view(&self) -> SessionView {
        SessionView {
            floor_transform: self.floor_transform,
            views: self.views,
            resolution: self.resolution,
            environment_blend_mode: self.environment_blend_mode,
            initial_inputs: self.initial_inputs@,
            sent: self.sent@,
        }
    }
}

/// `v` after one more message was sent.
pub open spec fn after_sending(v: SessionView, msg: MsgKind) -> SessionView {
    SessionView { sent: v.sent.push(msg), ..v }
}

impl Session {
    /// The sending end that the handle sends its messages through.
    pub closed spec fn channel(&self) -> Sender<SessionMsg> {
        self.sender
    }

    /// A handle that has cached the given values and has sent nothing yet.
    pub fn new(
        floor_transform: Option<RigidTransform>,
        views: Views,
        resolution: Option<Size>,
        sender: Sender<SessionMsg>,
        environment_blend_mode: EnvironmentBlendMode,
        initial_inputs: Vec<InputSource>,
    ) -> (session: Session)
        ensures
            session@ == (SessionView {
                floor_transform,
                views,
                resolution,
                environment_blend_mode,
                initial_inputs: initial_inputs@,
                sent: Seq::empty(),
            }),
            session.channel() == sender,
    {
        Session {
            floor_transform,
            views,
            resolution,
            sender,
            environment_blend_mode,
            initial_inputs,
            sent: Ghost(Seq::empty()),
        }
    }

    pub fn floor_transform(&self) -> (r: Option<RigidTransform>)
        ensures
            r == self@.floor_transform,
    {
        self.floor_transform
    }

    pub fn initial_inputs(&self) -> (r: &[InputSource])
        ensures
            r@ == self@.initial_inputs,
    {
        self.initial_inputs.as_slice()
    }

    pub fn views(&self) -> (r: Views)
        ensures
            r == self@.views,
    {
        self.views
    }

    pub fn environment_blend_mode(&self) -> (r: EnvironmentBlendMode)
        ensures
            r == self@.environment_blend_mode,
    {
        self.environment_blend_mode
    }

    /// Whether the session has a framebuffer; an inline session has none.
    pub fn has_framebuffer(&self) -> (r: bool)
        ensures
            r == (self@.resolution is Some),
    {
        self.resolution.is_some()
    }

    /// The framebuffer size that the device would like. Only a session with
    /// a framebuffer has one.
    pub fn recommended_framebuffer_resolution(&self) -> (r: Size)
        requires
            self@.resolution is Some,
        ensures
            Some(r) == self@.resolution,
    {
        self.resolution.unwrap()
    }

    /// Sends `msg` to the worker. A worker that is already gone is not an
    /// error: the message is then dropped.
    fn post(&mut self, msg: SessionMsg)
        ensures
            final(self)@ == after_sending(old(self)@, msg@),
            final(self).channel() == old(self).channel(),
            was_sent(old(self).channel(), msg),
    {
        let ghost kind = msg@;
        let _ = send(&self.sender, msg);
        self.sent = Ghost(self.sent@.push(kind));
    }

    pub fn set_swap_chain(&mut self, swap_chain_id: Option<SwapChainId>)
        ensures
            final(self)@ == after_sending(old(self)@, MsgKind::SetSwapChain(swap_chain_id)),
            final(self).channel() == old(self).channel(),
            was_sent(old(self).channel(), SessionMsg::SetSwapChain(swap_chain_id)),
    {
        self.post(SessionMsg::SetSwapChain(swap_chain_id));
    }

    pub fn start_render_loop(&mut self)
        ensures
            final(self)@ == after_sending(old(self)@, MsgKind::StartRenderLoop),
            final(self).channel() == old(self).channel(),
            was_sent(old(self).channel(), SessionMsg::StartRenderLoop),
    {
        self.post(SessionMsg::StartRenderLoop);
    }

    pub fn update_clip_planes(&mut self, near: Scalar, far: Scalar)
        ensures
            final(self)@ == after_sending(old(self)@, MsgKind::UpdateClipPlanes(near, far)),
            final(self).channel() == old(self).channel(),
            was_sent(old(self).channel(), SessionMsg::UpdateClipPlanes(near, far)),
    {
        self.post(SessionMsg::UpdateClipPlanes(near, far));
    }

    pub fn set_event_dest(&mut self, dest: Sender<Event>)
        ensures
            final(self)@ == after_sending(old(self)@, MsgKind::SetEventDest(dest)),
            final(self).channel() == old(self).channel(),
            was_sent(old(self).channel(), SessionMsg::SetEventDest(dest)),
    {
        self.post(SessionMsg::SetEventDest(dest));
    }

    /// Asks for the next animation frame. The message carries the clock's
    /// reading at the time it is sent.
    pub fn render_animation_frame(&mut self)
        ensures
            final(self)@.sent.len() == old(self)@.sent.len() + 1,
            final(self)@.sent.last() is RenderAnimationFrame,
            final(self)@ == after_sending(old(self)@, final(self)@.sent.last()),
            final(self).channel() == old(self).channel(),
            was_sent(
                old(self).channel(),
                SessionMsg::RenderAnimationFrame(
                    final(self)@.sent.last()->RenderAnimationFrame_0,
                ),
            ),
            clock_showed(final(self)@.sent.last()->RenderAnimationFrame_0),
    {
        let now = precise_time_ns();
        self.post(SessionMsg::RenderAnimationFrame(now));
    }

    pub fn end_session(&mut self)
        ensures
            final(self)@ == after_sending(old(self)@, MsgKind::Quit),
            final(self).channel() == old(self).channel(),
            was_sent(old(self).channel(), SessionMsg::Quit),
    {
        self.post(SessionMsg::Quit);
    }

    /// Brings the cached values up to date. Nothing is sent.
    pub fn apply_event(&mut self, event: FrameUpdateEvent)
        ensures
            final(self)@ == match event {
                FrameUpdateEvent::UpdateViews(views) => (SessionView { views, ..old(self)@ }),
                FrameUpdateEvent::UpdateFloorTransform(floor) => (SessionView {
                    floor_transform: floor,
                    ..old(self)@
                }),
            },
            final(self).channel() == old(self).channel(),
    {
        match event {
            FrameUpdateEvent::UpdateViews(views) => self.views = views,
            FrameUpdateEvent::UpdateFloorTransform(floor) => self.floor_transform = floor,
        }
    }
}

} // verus!
