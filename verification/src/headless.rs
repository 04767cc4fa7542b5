use vstd::prelude::*;
use std::marker::PhantomData;
use std::sync::mpsc::Sender;
use crate::channel::clock_showed;
use crate::channel::precise_time_ns;
use crate::channel::send;
use crate::channel::was_sent;
use crate::device::DeviceAPI;
use crate::error::Error;
use crate::events::after_callback;
use crate::events::after_upgrade;
use crate::events::EventBuffer;
use crate::frame::Event;
use crate::frame::Frame;
use crate::frame::FrameUpdateEvent;
use crate::geometry::RigidTransform;
use crate::geometry::Scalar;
use crate::geometry::Size;
use crate::geometry::Views;
use crate::input::Handedness;
use crate::input::InputFrame;
use crate::input::InputId;
use crate::input::InputSource;
use crate::input::TargetRayMode;
use crate::session::EnvironmentBlendMode;
use crate::session::Quitter;
use crate::session::SessionMode;
use crate::session::SessionMsg;

verus! {

/// How a mock input source is set up.
#[derive(Clone, Copy, Debug, PartialEq, Eq)]
pub struct MockInputInit {
    pub source: InputSource,
    pub pointer_origin: RigidTransform,
}

/// What a test can tell a mock input source.
#[derive(Clone, Copy, Debug, PartialEq, Eq)]
pub enum MockInputMsg {
    SetHandedness(Handedness),
    SetTargetRayMode(TargetRayMode),
    SetPointerOrigin(RigidTransform),
    Disconnect,
    Reconnect,
}

/// What a test can tell the mock device.
pub enum MockDeviceMsg {
    SetViewerOrigin(RigidTransform),
    SetViews(Views),
    Focus,
    Blur,
    AddInputSource(MockInputInit),
    MessageInputSource(InputId, MockInputMsg),
    /// Disconnects the device; the sender is told when that is done.
    Disconnect(Sender<()>),
}

/// What the mock device sends on its own account when it is disconnected.
pub enum Notice {
    /// The session is asked to quit, through the quitter's sending end.
    Quit(Sender<SessionMsg>),
    /// Whoever disconnected the device is told that this is done.
    Done(Sender<()>),
}

/// An input source of the mock device.
#[derive(Clone, Copy, Debug, PartialEq, Eq)]
pub struct InputInfo {
    pub source: InputSource,
    /// A disconnected input source is kept, but left out of the frames.
    pub active: bool,
    pub pointer: RigidTransform,
}

/// The state of a device without hardware, which a test drives by messages.
pub struct HeadlessDeviceData<Surface> {
    pub floor_transform: RigidTransform,
    pub viewer_origin: RigidTransform,
    pub views: Views,
    pub inputs: Vec<InputInfo>,
    pub events: EventBuffer,
    pub quitter: Option<Quitter>,
    pub disconnected: bool,
    /// What the device has sent on its own account, first to last.
    pub notices: Ghost<Seq<Notice>>,
    /// The kind of surface that the device is handed to draw on. It holds
    /// none.
    pub surface: PhantomData<Surface>,
}

/// The input source `info` after it was told `msg`.
pub open spec fn told(info: InputInfo, msg: MockInputMsg) -> InputInfo {
    match msg {
        MockInputMsg::SetHandedness(handedness) => InputInfo {
            source: InputSource { handedness, ..info.source },
            ..info
        },
        MockInputMsg::SetTargetRayMode(target_ray_mode) => InputInfo {
            source: InputSource { target_ray_mode, ..info.source },
            ..info
        },
        MockInputMsg::SetPointerOrigin(pointer) => InputInfo { pointer, ..info },
        MockInputMsg::Disconnect => InputInfo { active: false, ..info },
        MockInputMsg::Reconnect => InputInfo { active: true, ..info },
    }
}

/// The place of the first input source from `from` on that is named `id`,
/// or the length of `inputs` if there is none.
pub open spec fn first_named(inputs: Seq<InputInfo>, id: InputId, from: int) -> int
    decreases inputs.len() - from,
{
    if from < 0 || from >= inputs.len() {
        inputs.len() as int
    } else if inputs[from].source.id == id {
        from
    } else {
        first_named(inputs, id, from + 1)
    }
}

/// The input sources after the device was told `msg`: a new one is added at
/// the end and is active; a message to an input source reaches the first
/// one of that name, and nobody if there is none.
pub open spec fn inputs_after(inputs: Seq<InputInfo>, msg: MockDeviceMsg) -> Seq<InputInfo> {
    match msg {
        MockDeviceMsg::AddInputSource(init) => inputs.push(
            InputInfo { source: init.source, active: true, pointer: init.pointer_origin },
        ),
        MockDeviceMsg::MessageInputSource(id, msg) => {
            let i = first_named(inputs, id, 0);
            if i < inputs.len() {
                inputs.update(i, told(inputs[i], msg))
            } else {
                inputs
            }
        },
        _ => inputs,
    }
}

/// What the device sends on its own account when it is told `msg`: on a
/// disconnect it first asks its session to quit, if it has one, and then
/// tells the sender of the message that it is done.
pub open spec fn notices_of(quitter: Option<Quitter>, msg: MockDeviceMsg) -> Seq<Notice> {
    match msg {
        MockDeviceMsg::Disconnect(done) => match quitter {
            Some(quitter) => seq![Notice::Quit(quitter.channel()), Notice::Done(done)],
            None => seq![Notice::Done(done)],
        },
        _ => Seq::empty(),
    }
}

/// What a frame says of the input source `info`.
pub open spec fn input_frame(info: InputInfo) -> InputFrame {
    InputFrame {
        id: info.source.id,
        target_ray_origin: Some(info.pointer),
        grip_origin: None,
        pressed: false,
        squeezed: false,
    }
}

/// What a frame says of `inputs`: the active ones, in their order.
pub open spec fn active_frames(inputs: Seq<InputInfo>) -> Seq<InputFrame>
    decreases inputs.len(),
{
    if inputs.len() == 0 {
        Seq::empty()
    } else if inputs.last().active {
        active_frames(inputs.drop_last()).push(input_frame(inputs.last()))
    } else {
        active_frames(inputs.drop_last())
    }
}

/// Whether a device offers sessions of kind `mode`: inline ones always,
/// immersive ones if it supports them.
pub open spec fn supported(mode: SessionMode, supports_immersive: bool) -> bool {
    mode is Inline || supports_immersive
}

/// Whether a device offers sessions of kind `mode`.
pub fn supports_session(mode: SessionMode, supports_immersive: bool) -> (r: bool)
    ensures
        r == supported(mode, supports_immersive),
{
    match mode {
        SessionMode::Inline => true,
        _ => supports_immersive,
    }
}

impl<Surface> HeadlessDeviceData<Surface> {
    /// A connected device without input sources, events or a quitter.
    pub fn new(floor_transform: RigidTransform, viewer_origin: RigidTransform, views: Views) -> (data:
        HeadlessDeviceData<Surface>)
        ensures
            data.floor_transform == floor_transform,
            data.viewer_origin == viewer_origin,
            data.views == views,
            data.inputs@ == Seq::<InputInfo>::empty(),
            data.events@.buffered == Seq::<Event>::empty(),
            data.events@.forwarded == Seq::<(Sender<Event>, Event)>::empty(),
            data.events@.destination is None,
            data.quitter is None,
            !data.disconnected,
            data.notices@ == Seq::<Notice>::empty(),
    {
        HeadlessDeviceData {
            floor_transform,
            viewer_origin,
            views,
            inputs: Vec::new(),
            events: EventBuffer::new(),
            quitter: None,
            disconnected: false,
            notices: Ghost(Seq::empty()),
            surface: PhantomData,
        }
    }

    /// Whether a session of kind `mode` may be asked of this device: not
    /// once it is disconnected, and not of a kind that it does not offer.
    pub fn request(&self, mode: SessionMode, supports_immersive: bool) -> (r: Result<(), Error>)
        ensures
            r is Ok <==> !self.disconnected && supported(mode, supports_immersive),
            r is Err ==> r->Err_0 == Error::NoMatchingDevice,
    {
        if self.disconnected || !supports_session(mode, supports_immersive) {
            Err(Error::NoMatchingDevice)
        } else {
            Ok(())
        }
    }

    /// The frame of this moment: the viewer where it was put, and the active
    /// input sources in their order.
    pub fn frame(&self, time_ns: u64) -> (frame: Frame)
        ensures
            frame.transform == Some(self.viewer_origin),
            frame.inputs@ == active_frames(self.inputs@),
            frame.events@ == Seq::<FrameUpdateEvent>::empty(),
            frame.time_ns == time_ns,
            frame.sent_time == 0,
    {
        let mut inputs: Vec<InputFrame> = Vec::new();
        let n = self.inputs.len();
        let mut i: usize = 0;
        while i < n
            invariant
                i <= n,
                n == self.inputs@.len(),
                inputs@ == active_frames(self.inputs@.take(i as int)),
            decreases n - i,
        {
            let info = self.inputs[i];
            proof {
                let longer = self.inputs@.take(i + 1);
                assert(longer.drop_last() =~= self.inputs@.take(i as int));
                assert(longer.last() == info);
            }
            if info.active {
                inputs.push(
                    InputFrame {
                        id: info.source.id,
                        target_ray_origin: Some(info.pointer),
                        grip_origin: None,
                        pressed: false,
                        squeezed: false,
                    },
                );
            }
            i += 1;
        }
        proof {
            assert(self.inputs@.take(n as int) =~= self.inputs@);
        }
        Frame {
            transform: Some(self.viewer_origin),
            inputs,
            events: Vec::new(),
            time_ns,
            sent_time: 0,
        }
    }

    /// Tells the first input source named `id` what `msg` says; nobody is
    /// told if there is none.
    fn tell(&mut self, id: InputId, msg: MockInputMsg)
        ensures
            final(self).inputs@ == inputs_after(
                old(self).inputs@,
                MockDeviceMsg::MessageInputSource(id, msg),
            ),
            final(self).floor_transform == old(self).floor_transform,
            final(self).viewer_origin == old(self).viewer_origin,
            final(self).views == old(self).views,
            final(self).events == old(self).events,
            final(self).quitter == old(self).quitter,
            final(self).disconnected == old(self).disconnected,
            final(self).notices == old(self).notices,
    {
        let n = self.inputs.len();
        let mut i: usize = 0;
        while i < n
            invariant
                i <= n,
                n == self.inputs@.len(),
                *self == *old(self),
                first_named(self.inputs@, id, 0) == first_named(self.inputs@, id, i as int),
            decreases n - i,
        {
            let info = self.inputs[i];
            if info.source.id.0 == id.0 {
                let source = info.source;
                let changed = match msg {
                    MockInputMsg::SetHandedness(handedness) => InputInfo {
                        source: InputSource {
                            id: source.id,
                            handedness,
                            target_ray_mode: source.target_ray_mode,
                            supports_grip: source.supports_grip,
                        },
                        active: info.active,
                        pointer: info.pointer,
                    },
                    MockInputMsg::SetTargetRayMode(target_ray_mode) => InputInfo {
                        source: InputSource {
                            id: source.id,
                            handedness: source.handedness,
                            target_ray_mode,
                            supports_grip: source.supports_grip,
                        },
                        active: info.active,
                        pointer: info.pointer,
                    },
                    MockInputMsg::SetPointerOrigin(pointer) => InputInfo {
                        source,
                        active: info.active,
                        pointer,
                    },
                    MockInputMsg::Disconnect => InputInfo {
                        source,
                        active: false,
                        pointer: info.pointer,
                    },
                    MockInputMsg::Reconnect => InputInfo {
                        source,
                        active: true,
                        pointer: info.pointer,
                    },
                };
                self.inputs.set(i, changed);
                return ;
            }
            i += 1;
        }
    }

    /// Does what a test tells the device. The result is `false` once the
    /// device is disconnected: then no more messages are to be handled.
    /// Disconnecting ends the session, if there is one, and tells the test
    /// when that is done.
    pub fn handle_msg(&mut self, msg: MockDeviceMsg) -> (keep: bool)
        ensures
            keep == !(msg is Disconnect),
            final(self).floor_transform == old(self).floor_transform,
            final(self).viewer_origin == match msg {
                MockDeviceMsg::SetViewerOrigin(viewer_origin) => viewer_origin,
                _ => old(self).viewer_origin,
            },
            final(self).views == match msg {
                MockDeviceMsg::SetViews(views) => views,
                _ => old(self).views,
            },
            final(self).inputs@ == inputs_after(old(self).inputs@, msg),
            final(self).events@ == match msg {
                MockDeviceMsg::AddInputSource(init) => after_callback(
                    old(self).events@,
                    Event::AddInput(init.source),
                ),
                _ => old(self).events@,
            },
            final(self).quitter == old(self).quitter,
            final(self).disconnected == (old(self).disconnected || msg is Disconnect),
            final(self).notices@ == old(self).notices@ + notices_of(old(self).quitter, msg),
            match msg {
                MockDeviceMsg::AddInputSource(init) => old(self).events@.destination is Some
                    ==> was_sent(
                    old(self).events@.destination->Some_0,
                    Event::AddInput(init.source),
                ),
                MockDeviceMsg::Disconnect(done) => was_sent(done, ()) && (old(self).quitter is Some
                    ==> was_sent(old(self).quitter->Some_0.channel(), SessionMsg::Quit)),
                _ => true,
            },
    {
        match msg {
            MockDeviceMsg::SetViewerOrigin(viewer_origin) => {
                self.viewer_origin = viewer_origin;
            },
            MockDeviceMsg::SetViews(views) => {
                self.views = views;
            },
            MockDeviceMsg::Focus => {},
            MockDeviceMsg::Blur => {},
            MockDeviceMsg::AddInputSource(init) => {
                self.inputs.push(
                    InputInfo { source: init.source, pointer: init.pointer_origin, active: true },
                );
                self.events.callback(Event::AddInput(init.source));
            },
            MockDeviceMsg::MessageInputSource(id, msg) => {
                self.tell(id, msg);
            },
            MockDeviceMsg::Disconnect(done) => {
                self.disconnected = true;
                match &self.quitter {
                    Some(quitter) => {
                        quitter.quit();
                        self.notices = Ghost(self.notices@.push(Notice::Quit(quitter.channel())));
                    },
                    None => {},
                }
                let told = send(&done, ());
                self.notices = Ghost(self.notices@.push(Notice::Done(done)));
                assert(self.notices@ =~= old(self).notices@ + notices_of(old(self).quitter, msg));
                assert(was_sent(done, ())) by {
                    assert(call_ensures(send::<()>, (&done, ()), told));
                }
                return false;
            },
        }
        true
    }
}

/// The device as its session sees it. It never runs out of frames; its
/// session ends when the device is disconnected or the content side quits.
/// It has no hardware: no framebuffer of its own, no input sources from the
/// start, no use for clip planes, and nothing to draw on, so that a surface
/// comes back as it went in.
impl<Surface> DeviceAPI<Surface> for HeadlessDeviceData<Surface> {
    fn floor_transform(&self) -> (r: Option<RigidTransform>)
        ensures
            r == Some(self.floor_transform),
    {
        Some(self.floor_transform)
    }

    fn views(&self) -> (r: Views)
        ensures
            r == self.views,
    {
        self.views
    }

    fn recommended_framebuffer_resolution(&self) -> (r: Option<Size>)
        ensures
            r is None,
    {
        None
    }

    fn initial_inputs(&self) -> (r: Vec<InputSource>)
        ensures
            r@ == Seq::<InputSource>::empty(),
    {
        Vec::new()
    }

    fn environment_blend_mode(&self) -> (r: EnvironmentBlendMode)
        ensures
            r == EnvironmentBlendMode::Opaque,
    {
        EnvironmentBlendMode::Opaque
    }

    /// The frame of this moment, with the clock's reading as the time it
    /// was made. The device itself stays as it is.
    fn wait_for_animation_frame(&mut self) -> (r: Option<Frame>)
        ensures
            *final(self) == *old(self),
            r is Some,
            r->Some_0.transform == Some(old(self).viewer_origin),
            r->Some_0.inputs@ == active_frames(old(self).inputs@),
            r->Some_0.events@ == Seq::<FrameUpdateEvent>::empty(),
            r->Some_0.sent_time == 0,
            clock_showed(r->Some_0.time_ns),
    {
        Some(self.frame(precise_time_ns()))
    }

    fn render_animation_frame(&mut self, surface: Surface) -> (r: Surface)
        ensures
            r == surface,
            *final(self) == *old(self),
    {
        surface
    }

    /// What waited for a destination is sent to `dest`, oldest first, and
    /// what comes later follows it there.
    fn set_event_dest(&mut self, dest: Sender<Event>)
        ensures
            final(self).events@ == after_upgrade(old(self).events@, dest),
            forall|i: int|
                0 <= i < old(self).events@.buffered.len() ==> was_sent(
                    dest,
                    #[trigger] old(self).events@.buffered[i],
                ),
            final(self).floor_transform == old(self).floor_transform,
            final(self).viewer_origin == old(self).viewer_origin,
            final(self).views == old(self).views,
            final(self).inputs == old(self).inputs,
            final(self).quitter == old(self).quitter,
            final(self).disconnected == old(self).disconnected,
            final(self).notices == old(self).notices,
    {
        self.events.upgrade(dest);
    }

    /// The quitter is kept for the day the device is disconnected.
    fn set_quitter(&mut self, quitter: Quitter)
        ensures
            final(self).quitter == Some(quitter),
            final(self).floor_transform == old(self).floor_transform,
            final(self).viewer_origin == old(self).viewer_origin,
            final(self).views == old(self).views,
            final(self).inputs == old(self).inputs,
            final(self).events == old(self).events,
            final(self).disconnected == old(self).disconnected,
            final(self).notices == old(self).notices,
    {
        self.quitter = Some(quitter);
    }

    fn update_clip_planes(&mut self, near: Scalar, far: Scalar)
        ensures
            *final(self) == *old(self),
    {
    }

    /// The content side is told that the session has ended.
    fn quit(&mut self)
        ensures
            final(self).events@ == after_callback(old(self).events@, Event::SessionEnd),
            old(self).events@.destination is Some ==> was_sent(
                old(self).events@.destination->Some_0,
                Event::SessionEnd,
            ),
            final(self).floor_transform == old(self).floor_transform,
            final(self).viewer_origin == old(self).viewer_origin,
            final(self).views == old(self).views,
            final(self).inputs == old(self).inputs,
            final(self).quitter == old(self).quitter,
            final(self).disconnected == old(self).disconnected,
            final(self).notices == old(self).notices,
    {
        self.events.callback(Event::SessionEnd);
    }
}

} // verus!
