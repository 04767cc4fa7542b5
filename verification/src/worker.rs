use vstd::prelude::*;
use std::sync::mpsc::Receiver;
use std::sync::mpsc::Sender;
use crate::channel::came;
use crate::channel::came_within;
use crate::channel::channel;
use crate::channel::clock_showed;
use crate::channel::was_sent;
use crate::channel::millis;
use crate::channel::precise_time_ns;
use crate::channel::recv;
use crate::channel::recv_timeout;
use crate::channel::send;
use crate::device::DeviceAPI;
use crate::device::SwapChainAPI;
use crate::device::SwapChainsAPI;
use crate::error::Error;
use crate::frame::stamp;
use crate::frame::stamped;
use crate::frame::Frame;
use crate::input::InputSource;
use crate::model::effects;
use crate::model::initial;
use crate::model::lemma_one_more;
use crate::model::lemma_push;
use crate::model::next;
use crate::model::render_effects;
use crate::model::replay;
use crate::model::taken_at_frame;
use crate::model::taken_while_running;
use crate::model::trace;
use crate::model::wait_effects;
use crate::model::waits;
use crate::model::Effect;
use crate::model::MsgKind;
use crate::model::Outcome;
use crate::model::Step;
use crate::model::ThreadState;
use crate::session::Quitter;
use crate::session::Session;
use crate::session::SessionMsg;
use crate::session::SessionView;

verus! {

/// How long a cooperative step waits for a message, in milliseconds, unless
/// the worker was made with another span.
pub const TIMEOUT_MS: u64 = 5;

/// Why a running worker comes back from handling messages: it has stopped,
/// or its channel gave no message, or it has handled `u64::MAX` messages.
pub open spec fn ended(
    running: bool,
    misses_before: nat,
    misses_after: nat,
    handled_before: nat,
    handled_after: nat,
) -> bool {
    ||| !running
    ||| misses_after == misses_before + 1
    ||| handled_after == handled_before + u64::MAX
}

/// Why a running session comes back from a cooperative step: it has started
/// an animation frame, or one of the reasons of `ended` holds.
pub open spec fn step_ended(
    running: bool,
    frames_before: nat,
    frames_after: nat,
    misses_before: nat,
    misses_after: nat,
    handled_before: nat,
    handled_after: nat,
) -> bool {
    ||| frames_after == frames_before + 1
    ||| ended(running, misses_before, misses_after, handled_before, handled_after)
}

/// A stopped session is left alone: it stays stopped, and it has started,
/// handled and asked for nothing more.
pub open spec fn left_alone(
    stopped: bool,
    frames_before: nat,
    frames_after: nat,
    misses_before: nat,
    misses_after: nat,
    handled_before: nat,
    handled_after: nat,
) -> bool {
    &&& stopped
    &&& frames_after == frames_before
    &&& misses_after == misses_before
    &&& handled_after == handled_before
}

/// What the handle has cached is what `device` answers when it is asked for
/// its floor transform, views, framebuffer size, blend mode and inputs.
pub open spec fn reports<Surface, Device: DeviceAPI<Surface>>(
    device: Device,
    cached: SessionView,
) -> bool {
    &&& call_ensures(Device::floor_transform, (&device,), cached.floor_transform)
    &&& call_ensures(Device::views, (&device,), cached.views)
    &&& call_ensures(Device::recommended_framebuffer_resolution, (&device,), cached.resolution)
    &&& call_ensures(Device::environment_blend_mode, (&device,), cached.environment_blend_mode)
    &&& exists|inputs: Vec<InputSource>| #[trigger]
        call_ensures(Device::initial_inputs, (&device,), inputs) && cached.initial_inputs
            == inputs@
}

/// The worker of a session. It owns the device and is the only one to call
/// it; it handles the messages of the content side one by one, in the order
/// in which they were sent.
pub struct SessionThread<Device, SwapChains: SwapChainsAPI> {
    receiver: Receiver<SessionMsg>,
    sender: Sender<SessionMsg>,
    swap_chain: Option<SwapChains::SwapChain>,
    swap_chains: SwapChains,
    frame_count: u64,
    frame_sender: Sender<Frame>,
    running: bool,
    exhausted: bool,
    device: Device,
    timeout_ms: u64,
    /// The messages handled so far, each with what came back.
    history: Ghost<Seq<Step>>,
    /// The calls made on the collaborators so far.
    log: Ghost<Seq<Effect>>,
    /// How often the channel was asked for a message and gave none.
    misses: Ghost<nat>,
}

impl<Device, SwapChains> SessionThread<Device, SwapChains> where
    Device: DeviceAPI<SwapChains::Surface>,
    SwapChains: SwapChainsAPI,
 {
    /// The messages that the worker has handled, first to last, each with
    /// what its collaborators answered.
    pub closed spec fn history(&self) -> Seq<Step> {
        self.history@
    }

    /// How often the worker has asked its channel for a message and got
    /// none: because none came in time, or because the channel is closed.
    pub closed spec fn misses(&self) -> nat {
        self.misses@
    }

    /// The device as it is now.
    pub closed spec fn device_view(&self) -> Device {
        self.device
    }

    /// The registry that swap chains are looked up in.
    pub closed spec fn registry_view(&self) -> SwapChains {
        self.swap_chains
    }

    /// The swap chain that render steps draw to, if one is bound.
    pub closed spec fn swap_chain_view(&self) -> Option<SwapChains::SwapChain> {
        self.swap_chain
    }

    /// The sending end of the worker's own channel: what is sent through it,
    /// or through a clone of it, is what the worker receives.
    pub closed spec fn channel(&self) -> Sender<SessionMsg> {
        self.sender
    }

    /// The receiving end of the worker's own channel.
    pub closed spec fn receiver_view(&self) -> Receiver<SessionMsg> {
        self.receiver
    }

    /// Where the worker delivers its frames.
    pub closed spec fn frame_channel(&self) -> Sender<Frame> {
        self.frame_sender
    }

    /// How long a cooperative step waits for a message, in milliseconds.
    pub closed spec fn timeout_ms(&self) -> u64 {
        self.timeout_ms
    }

    /// The worker has the same registry, channels and timeout as `other`.
    pub open spec fn wired_as(&self, other: &Self) -> bool {
        &&& self.registry_view() == other.registry_view()
        &&& self.channel() == other.channel()
        &&& self.receiver_view() == other.receiver_view()
        &&& self.frame_channel() == other.frame_channel()
        &&& self.timeout_ms() == other.timeout_ms()
    }

    /// The worker is as `other` in all but how often its channel gave no
    /// message.
    pub open spec fn but_misses(&self, other: Self) -> bool {
        &&& self.history() == other.history()
        &&& self.device_view() == other.device_view()
        &&& self.swap_chain_view() == other.swap_chain_view()
        &&& self.wired_as(&other)
    }

    /// What the worker remembers: where its history has brought it.
    pub open spec fn state(&self) -> ThreadState {
        replay(initial(), self.history())
    }

    /// The calls that the worker has made on its collaborators, in order.
    pub open spec fn calls(&self) -> Seq<Effect> {
        trace(initial(), self.history())
    }

    /// The worker's fields agree with its history.
    pub closed spec fn wf(&self) -> bool {
        &&& self.frame_count == self.state().frame_count
        &&& self.running == self.state().running
        &&& self.exhausted == self.state().exhausted
        &&& (self.swap_chain is Some) == (self.state().bound is Some)
        &&& self.log@ == self.calls()
    }

    /// A swap chain is held exactly when the history has one bound.
    pub proof fn lemma_holds_what_is_bound(&self)
        requires
            self.wf(),
        ensures
            (self.swap_chain_view() is Some) == (self.state().bound is Some),
    {
    }

    /// A running worker for `device` that has handled nothing yet. The
    /// device is given a quitter for this worker: one that sends through a
    /// clone of the worker's own sending end. A cooperative step of the
    /// worker waits `TIMEOUT_MS` for a message.
    pub fn new(device: Device, swap_chains: SwapChains, frame_sender: Sender<Frame>) -> (r: Result<
        Self,
        Error,
    >)
        ensures
            r is Ok,
            r->Ok_0.wf(),
            r->Ok_0.history() == Seq::<Step>::empty(),
            r->Ok_0.misses() == 0,
            r->Ok_0.registry_view() == swap_chains,
            r->Ok_0.frame_channel() == frame_sender,
            r->Ok_0.swap_chain_view() is None,
            r->Ok_0.timeout_ms() == TIMEOUT_MS,
            exists|m: &mut Device, quitter: Quitter|
                mut_ref_current(m) == device && mut_ref_future(m) == r->Ok_0.device_view()
                    && cloned(r->Ok_0.channel(), quitter.channel()) && #[trigger] call_ensures(
                    Device::set_quitter,
                    (m, quitter),
                    (),
                ),
    {
        Ok(Self::with_timeout(device, swap_chains, frame_sender, TIMEOUT_MS))
    }

    /// As `new`, for a worker whose cooperative steps wait `timeout_ms`
    /// milliseconds for a message.
    pub fn with_timeout(
        device: Device,
        swap_chains: SwapChains,
        frame_sender: Sender<Frame>,
        timeout_ms: u64,
    ) -> (worker: Self)
        ensures
            worker.wf(),
            worker.history() == Seq::<Step>::empty(),
            worker.misses() == 0,
            worker.registry_view() == swap_chains,
            worker.frame_channel() == frame_sender,
            worker.swap_chain_view() is None,
            worker.timeout_ms() == timeout_ms,
            exists|m: &mut Device, quitter: Quitter|
                mut_ref_current(m) == device && mut_ref_future(m) == worker.device_view()
                    && cloned(worker.channel(), quitter.channel()) && #[trigger] call_ensures(
                    Device::set_quitter,
                    (m, quitter),
                    (),
                ),
    {
        let mut device = device;
        let (sender, receiver) = channel();
        device.set_quitter(Quitter::new(sender.clone()));
        SessionThread {
            sender,
            receiver,
            device,
            swap_chain: None,
            swap_chains,
            frame_count: 0,
            frame_sender,
            running: true,
            exhausted: false,
            timeout_ms,
            history: Ghost(Seq::empty()),
            log: Ghost(Seq::empty()),
            misses: Ghost(0),
        }
    }

    /// A handle for the content side. It caches what the device says of
    /// itself now, sends through a clone of the worker's own sending end,
    /// and has sent nothing yet. The worker stays as it is.
    pub fn new_session(&mut self) -> (session: Session)
        requires
            old(self).wf(),
        ensures
            final(self).wf(),
            final(self).history() == old(self).history(),
            final(self).misses() == old(self).misses(),
            final(self).wired_as(old(self)),
            final(self).device_view() == old(self).device_view(),
            final(self).swap_chain_view() == old(self).swap_chain_view(),
            session@.sent == Seq::<MsgKind>::empty(),
            cloned(old(self).channel(), session.channel()),
            reports::<SwapChains::Surface, Device>(old(self).device_view(), session@),
    {
        let floor_transform = self.device.floor_transform();
        let views = self.device.views();
        let resolution = self.device.recommended_framebuffer_resolution();
        let sender = self.sender.clone();
        let initial_inputs = self.device.initial_inputs();
        let environment_blend_mode = self.device.environment_blend_mode();
        Session::new(
            floor_transform,
            views,
            resolution,
            sender,
            environment_blend_mode,
            initial_inputs,
        )
    }

    /// Whether the worker has stopped because its device had no more
    /// frames.
    pub fn exhausted(&self) -> (r: bool)
        requires
            self.wf(),
        ensures
            r == self.state().exhausted,
    {
        self.exhausted
    }

    /// How many animation frames the worker has started.
    pub fn frame_count(&self) -> (n: u64)
        requires
            self.wf(),
        ensures
            n == self.state().frame_count,
    {
        self.frame_count
    }

    /// Has the device render to a surface of the bound swap chain, if one is
    /// bound and has a surface to give. Without a surface the render step is
    /// skipped, which is no error.
    fn render(&mut self) -> (surface: bool)
        ensures
            final(self).log@ == old(self).log@ + (if old(self).swap_chain is None {
                Seq::<Effect>::empty()
            } else if surface {
                seq![Effect::TakeSurface, Effect::Render, Effect::Recycle]
            } else {
                seq![Effect::TakeSurface]
            }),
            final(self).history@ == old(self).history@,
            final(self).misses@ == old(self).misses@,
            final(self).frame_count == old(self).frame_count,
            final(self).running == old(self).running,
            final(self).exhausted == old(self).exhausted,
            final(self).swap_chain == old(self).swap_chain,
            final(self).wired_as(old(self)),
            old(self).swap_chain is None ==> final(self).device == old(self).device,
            old(self).swap_chain is Some ==> exists|taken: Option<SwapChains::Surface>| #[trigger]
                call_ensures(
                    <SwapChains::SwapChain as SwapChainAPI<SwapChains::Surface>>::take_surface,
                    (&old(self).swap_chain->Some_0,),
                    taken,
                ) && surface == (taken is Some) && (taken is None ==> final(self).device == old(
                    self,
                ).device) && (taken is Some ==> exists|m: &mut Device, back: SwapChains::Surface|
                    mut_ref_current(m) == old(self).device && mut_ref_future(m) == final(self).device && #[trigger] call_ensures(
                        Device::render_animation_frame,
                        (m, taken->Some_0),
                        back,
                    ) && call_ensures(
                        <SwapChains::SwapChain as SwapChainAPI<
                            SwapChains::Surface,
                        >>::recycle_surface,
                        (&old(self).swap_chain->Some_0, back),
                        (),
                    )),
    {
        let mut rendered = false;
        match &self.swap_chain {
            Some(swap_chain) => {
                match swap_chain.take_surface() {
                    Some(surface) => {
                        let surface = self.device.render_animation_frame(surface);
                        swap_chain.recycle_surface(surface);
                        rendered = true;
                        self.log = Ghost(
                            self.log@ + seq![Effect::TakeSurface, Effect::Render, Effect::Recycle],
                        );
                    },
                    None => {
                        self.log = Ghost(self.log@ + seq![Effect::TakeSurface]);
                    },
                }
            },
            None => {
                assert(self.log@ + Seq::<Effect>::empty() =~= self.log@);
            },
        }
        rendered
    }

    /// Waits for the device's next frame and hands it to the content side,
    /// with the clock's reading on it if `stamp_it` is set. The result says
    /// whether a frame came; after `false` the device has no more frames.
    fn forward_frame(&mut self, stamp_it: bool) -> (got: (bool, Ghost<Outcome>))
        ensures
            got.0 == (got.1@.frame is Some),
            final(self).log@ == old(self).log@ + wait_effects(got.1@, stamp_it),
            final(self).history@ == old(self).history@,
            final(self).misses@ == old(self).misses@,
            final(self).frame_count == old(self).frame_count,
            final(self).running == old(self).running,
            final(self).exhausted == old(self).exhausted,
            final(self).swap_chain == old(self).swap_chain,
            final(self).wired_as(old(self)),
            exists|m: &mut Device|
                mut_ref_current(m) == old(self).device && mut_ref_future(m) == final(self).device
                    && #[trigger] call_ensures(
                    Device::wait_for_animation_frame,
                    (m,),
                    got.1@.frame,
                ),
            got.1@.frame is Some && stamp_it ==> clock_showed(got.1@.stamp),
            got.1@.frame is Some ==> was_sent(
                old(self).frame_sender,
                if stamp_it {
                    stamped(got.1@.frame->Some_0, got.1@.stamp)
                } else {
                    got.1@.frame->Some_0
                },
            ),
    {
        match self.device.wait_for_animation_frame() {
            Some(frame) => {
                let now = if stamp_it {
                    precise_time_ns()
                } else {
                    0
                };
                let ghost o = Outcome { found: false, surface: false, frame: Some(frame), stamp: now };
                let frame = if stamp_it {
                    stamp(frame, now)
                } else {
                    frame
                };
                self.log = Ghost(self.log@ + seq![Effect::Wait, Effect::Deliver(frame)]);
                let _ = send(&self.frame_sender, frame);
                (true, Ghost(o))
            },
            None => {
                let ghost o = Outcome { found: false, surface: false, frame: None, stamp: 0 };
                self.log = Ghost(self.log@ + seq![Effect::Wait]);
                (false, Ghost(o))
            },
        }
    }

    /// Handles messages until the worker stops or the channel is closed.
    /// Both are ordinary ends. No message is taken from the channel once the
    /// worker has stopped, so a stopped worker is left as it is. A running
    /// worker comes back stopped, or after its channel gave no message, or
    /// after it has handled `u64::MAX` messages.
    pub fn run(&mut self)
        requires
            old(self).wf(),
        ensures
            final(self).wf(),
            old(self).history().is_prefix_of(final(self).history()),
            taken_while_running(initial(), final(self).history(), old(self).history().len() as int),
            old(self).state().running ==> ended(
                final(self).state().running,
                old(self).misses(),
                final(self).misses(),
                old(self).history().len(),
                final(self).history().len(),
            ),
            !old(self).state().running ==> final(self).history() == old(self).history()
                && final(self).misses() == old(self).misses() && final(self).device_view() == old(
                self,
            ).device_view() && final(self).swap_chain_view() == old(self).swap_chain_view(),
            final(self).wired_as(old(self)),
            final(self).misses() == old(self).misses() + 1 ==> came(
                old(self).receiver_view(),
                None::<SessionMsg>,
            ),
            exists|ws: Seq<Self>|
                #![trigger ws.len()]
                ws.len() == final(self).history().len() - old(self).history().len() + 1 && ws[0]
                    == *old(self) && final(self).but_misses(ws.last()) && forall|i: int|
                    #![trigger ws[i]]
                    0 <= i < ws.len() - 1 ==> exists|m: &mut Self, msg: SessionMsg, keep: bool|
                        #![trigger call_ensures(Self::handle_msg, (m, msg), keep)]
                        mut_ref_current(m) == ws[i] && mut_ref_future(m) == ws[i + 1] && came(
                            old(self).receiver_view(),
                            Some(msg),
                        ) && call_ensures(Self::handle_msg, (m, msg), keep),
    {
        let mut budget: u64 = u64::MAX;
        let ghost mut ws: Seq<Self> = seq![*self];
        while self.running && budget > 0
            invariant_except_break
                self.misses() == old(self).misses(),
                self.history().len() == old(self).history().len() + (u64::MAX - budget),
                ws.last() == *self,
            invariant
                ws.len() == self.history().len() - old(self).history().len() + 1,
                ws[0] == *old(self),
                forall|i: int|
                    #![trigger ws[i]]
                    0 <= i < ws.len() - 1 ==> exists|m: &mut Self, msg: SessionMsg, keep: bool|
                        #![trigger call_ensures(Self::handle_msg, (m, msg), keep)]
                        mut_ref_current(m) == ws[i] && mut_ref_future(m) == ws[i + 1] && came(
                            old(self).receiver_view(),
                            Some(msg),
                        ) && call_ensures(Self::handle_msg, (m, msg), keep),
                self.wf(),
                self.wired_as(old(self)),
                !old(self).state().running ==> self.history() == old(self).history()
                    && self.device_view() == old(self).device_view() && self.swap_chain_view()
                    == old(self).swap_chain_view(),
                old(self).history().is_prefix_of(self.history()),
                taken_while_running(initial(), self.history(), old(self).history().len() as int),
            ensures
                old(self).state().running ==> ended(
                    self.state().running,
                    old(self).misses(),
                    self.misses(),
                    old(self).history().len(),
                    self.history().len(),
                ),
                !old(self).state().running ==> self.misses() == old(self).misses(),
                self.misses() == old(self).misses() || self.misses() == old(self).misses() + 1,
                self.misses() == old(self).misses() + 1 ==> came(
                    old(self).receiver_view(),
                    None::<SessionMsg>,
                ),
                self.but_misses(ws.last()),
            decreases budget,
        {
            match recv(&self.receiver) {
                Some(msg) => {
                    let ghost earlier = self.history();
                    let ghost taken = msg;
                    let ghost before = *self;
                    let ghost steps = ws;
                    let keep = self.handle_msg(msg);
                    proof {
                        assert(self.history() =~= earlier.push(self.history().last()));
                        lemma_one_more(
                            initial(),
                            earlier,
                            self.history().last(),
                            old(self).history().len() as int,
                        );
                        ws = steps.push(*self);
                        assert(came(old(self).receiver_view(), Some(taken)));
                        assert forall|i: int|
                            #![trigger ws[i]]
                            0 <= i < ws.len() - 1 implies exists|
                            m: &mut Self,
                            msg: SessionMsg,
                            keep: bool,
                        |
                            #![trigger call_ensures(Self::handle_msg, (m, msg), keep)]
                            mut_ref_current(m) == ws[i] && mut_ref_future(m) == ws[i + 1]
                                && came(old(self).receiver_view(), Some(msg)) && call_ensures(
                                Self::handle_msg,
                                (m, msg),
                                keep,
                            ) by {
                            if i < steps.len() - 1 {
                                assert(ws[i] == steps[i]);
                                assert(ws[i + 1] == steps[i + 1]);
                            } else {
                                assert(ws[i] == before);
                                assert(ws[i + 1] == *self);
                            }
                        }
                    }
                },
                None => {
                    self.misses = Ghost((self.misses@ + 1) as nat);
                    break ;
                },
            }
            budget -= 1;
        }
    }

    /// Handles one message. The result says whether the worker is still
    /// running afterwards. A stopped worker drops the message.
    pub fn handle_msg(&mut self, msg: SessionMsg) -> (keep: bool)
        requires
            old(self).wf(),
        ensures
            final(self).wf(),
            final(self).history().len() == old(self).history().len() + 1,
            final(self).history().drop_last() == old(self).history(),
            final(self).history().last().msg == msg@,
            final(self).state() == next(
                old(self).state(),
                msg@,
                final(self).history().last().outcome,
            ),
            final(self).calls() == old(self).calls() + effects(
                old(self).state(),
                msg@,
                final(self).history().last().outcome,
            ),
            final(self).misses() == old(self).misses(),
            keep == final(self).state().running,
            final(self).wired_as(old(self)),
            (final(self).swap_chain_view() is Some) == (final(self).state().bound is Some),
            waits(old(self).state(), msg@) && msg is RenderAnimationFrame && final(self).history().last().outcome.frame is Some ==> clock_showed(
                final(self).history().last().outcome.stamp,
            ),
            waits(old(self).state(), msg@) ==> match final(self).history().last().outcome.frame {
                Some(frame) => was_sent(
                    old(self).frame_channel(),
                    if msg is StartRenderLoop {
                        frame
                    } else {
                        stamped(frame, final(self).history().last().outcome.stamp)
                    },
                ),
                None => true,
            },
            !old(self).state().running ==> final(self).device_view() == old(self).device_view()
                && final(self).swap_chain_view() == old(self).swap_chain_view(),
            old(self).state().running ==> match msg {
                SessionMsg::SetSwapChain(Some(id)) => {
                    &&& final(self).device_view() == old(self).device_view()
                    &&& call_ensures(
                        SwapChains::get,
                        (&old(self).registry_view(), id),
                        final(self).swap_chain_view(),
                    )
                    &&& final(self).history().last().outcome.found == (final(self).swap_chain_view() is Some)
                },
                SessionMsg::SetSwapChain(None) => {
                    &&& final(self).device_view() == old(self).device_view()
                    &&& final(self).swap_chain_view() is None
                },
                SessionMsg::SetEventDest(dest) => {
                    &&& final(self).swap_chain_view() == old(self).swap_chain_view()
                    &&& exists|m: &mut Device|
                        mut_ref_current(m) == old(self).device_view() && mut_ref_future(m)
                            == final(self).device_view() && #[trigger] call_ensures(
                            Device::set_event_dest,
                            (m, dest),
                            (),
                        )
                },
                SessionMsg::UpdateClipPlanes(near, far) => {
                    &&& final(self).swap_chain_view() == old(self).swap_chain_view()
                    &&& exists|m: &mut Device|
                        mut_ref_current(m) == old(self).device_view() && mut_ref_future(m)
                            == final(self).device_view() && #[trigger] call_ensures(
                            Device::update_clip_planes,
                            (m, near, far),
                            (),
                        )
                },
                SessionMsg::StartRenderLoop => {
                    &&& final(self).swap_chain_view() == old(self).swap_chain_view()
                    &&& exists|m: &mut Device|
                        mut_ref_current(m) == old(self).device_view() && mut_ref_future(m)
                            == final(self).device_view() && #[trigger] call_ensures(
                            Device::wait_for_animation_frame,
                            (m,),
                            final(self).history().last().outcome.frame,
                        )
                },
                SessionMsg::RenderAnimationFrame(_) => {
                    &&& final(self).swap_chain_view() == old(self).swap_chain_view()
                    &&& old(self).state().frame_count == u64::MAX ==> final(self).device_view()
                        == old(self).device_view()
                    &&& old(self).state().frame_count < u64::MAX ==> exists|waited: &mut Device|
                        mut_ref_future(waited) == final(self).device_view() && #[trigger] call_ensures(
                            Device::wait_for_animation_frame,
                            (waited,),
                            final(self).history().last().outcome.frame,
                        ) && (old(self).swap_chain_view() is None ==> mut_ref_current(waited)
                            == old(self).device_view()) && (old(self).swap_chain_view() is Some
                            ==> exists|taken: Option<SwapChains::Surface>| #[trigger]
                            call_ensures(
                                <SwapChains::SwapChain as SwapChainAPI<
                                    SwapChains::Surface,
                                >>::take_surface,
                                (&old(self).swap_chain_view()->Some_0,),
                                taken,
                            ) && final(self).history().last().outcome.surface == (taken is Some)
                                && (taken is None ==> mut_ref_current(waited) == old(
                                self,
                            ).device_view()) && (taken is Some ==> exists|
                                m: &mut Device,
                                back: SwapChains::Surface,
                            |
                                mut_ref_current(m) == old(self).device_view() && mut_ref_future(m)
                                    == mut_ref_current(waited) && #[trigger] call_ensures(
                                    Device::render_animation_frame,
                                    (m, taken->Some_0),
                                    back,
                                ) && call_ensures(
                                    <SwapChains::SwapChain as SwapChainAPI<
                                        SwapChains::Surface,
                                    >>::recycle_surface,
                                    (&old(self).swap_chain_view()->Some_0, back),
                                    (),
                                )))
                },
                SessionMsg::Quit => {
                    &&& final(self).swap_chain_view() == old(self).swap_chain_view()
                    &&& exists|m: &mut Device|
                        mut_ref_current(m) == old(self).device_view() && mut_ref_future(m)
                            == final(self).device_view() && #[trigger] call_ensures(
                            Device::quit,
                            (m,),
                            (),
                        )
                },
            },
    {
        let ghost kind = msg@;
        let ghost before = self.state();
        let ghost mut outcome = Outcome { found: false, surface: false, frame: None, stamp: 0 };
        if self.running {
            match msg {
                SessionMsg::SetSwapChain(swap_chain_id) => {
                    match swap_chain_id {
                        Some(id) => {
                            let found = self.swap_chains.get(id);
                            proof {
                                outcome = Outcome { found: found is Some, ..outcome };
                            }
                            self.log = Ghost(self.log@ + seq![Effect::Lookup(id)]);
                            self.swap_chain = found;
                        },
                        None => {
                            self.swap_chain = None;
                            assert(self.log@ + Seq::<Effect>::empty() =~= self.log@);
                        },
                    }
                },
                SessionMsg::SetEventDest(dest) => {
                    self.device.set_event_dest(dest);
                    self.log = Ghost(self.log@ + seq![Effect::EventDest(dest)]);
                },
                SessionMsg::StartRenderLoop => {
                    let got = self.forward_frame(false);
                    proof {
                        outcome = got.1@;
                    }
                    self.running = got.0;
                    self.exhausted = !got.0;
                },
                SessionMsg::UpdateClipPlanes(near, far) => {
                    self.device.update_clip_planes(near, far);
                    self.log = Ghost(self.log@ + seq![Effect::ClipPlanes(near, far)]);
                },
                SessionMsg::RenderAnimationFrame(_) => {
                    if self.frame_count == u64::MAX {
                        self.running = false;
                        assert(self.log@ + Seq::<Effect>::empty() =~= self.log@);
                    } else {
                        self.frame_count += 1;
                        let surface = self.render();
                        let got = self.forward_frame(true);
                        proof {
                            outcome = Outcome { surface, ..got.1@ };
                            assert(wait_effects(outcome, true) == wait_effects(got.1@, true));
                            assert(old(self).log@ + render_effects(before, outcome) + wait_effects(
                                outcome,
                                true,
                            ) =~= old(self).log@ + (render_effects(before, outcome) + wait_effects(
                                outcome,
                                true,
                            )));
                        }
                        self.running = got.0;
                        self.exhausted = !got.0;
                    self.exhausted = !got.0;
                    }
                },
                SessionMsg::Quit => {
                    self.device.quit();
                    self.log = Ghost(self.log@ + seq![Effect::DeviceQuit]);
                    self.running = false;
                },
            }
        } else {
            assert(self.log@ + Seq::<Effect>::empty() =~= self.log@);
        }
        proof {
            let step = Step { msg: kind, outcome };
            lemma_push(initial(), self.history@, step);
            assert(self.history@.push(step).drop_last() =~= self.history@);
            assert(self.log@ == old(self).log@ + effects(before, kind, outcome));
        }
        self.history = Ghost(self.history@.push(Step { msg: kind, outcome }));
        self.running
    }
}

/// A session that a host steps on its own thread, among others, when the
/// device cannot be driven from a thread of its own.
pub trait MainThreadSession: 'static {
    /// The session is in a state that its methods can work on.
    spec fn valid(&self) -> bool;

    /// The session has stopped.
    spec fn stopped(&self) -> bool;

    /// How many animation frames the session has started.
    spec fn frames_started(&self) -> nat;

    /// How many messages the session has handled.
    spec fn messages_handled(&self) -> nat;

    /// How often the session has asked for a message and got none.
    spec fn empty_receives(&self) -> nat;

    /// Handles messages until one animation frame has been started, the
    /// session has stopped, or no message came in time. At most one frame
    /// is started. A stopped session stays stopped and handles nothing.
    fn run_one_frame(&mut self)
        requires
            old(self).valid(),
        ensures
            final(self).valid(),
            old(self).frames_started() <= final(self).frames_started() <= old(
                self,
            ).frames_started() + 1,
            old(self).messages_handled() <= final(self).messages_handled(),
            old(self).stopped() ==> left_alone(
                final(self).stopped(),
                old(self).frames_started(),
                final(self).frames_started(),
                old(self).empty_receives(),
                final(self).empty_receives(),
                old(self).messages_handled(),
                final(self).messages_handled(),
            ),
            !old(self).stopped() ==> step_ended(
                !final(self).stopped(),
                old(self).frames_started(),
                final(self).frames_started(),
                old(self).empty_receives(),
                final(self).empty_receives(),
                old(self).messages_handled(),
                final(self).messages_handled(),
            ),
    ;

    /// Whether the session is still running. Once it is not, the host can
    /// let go of it.
    fn running(&self) -> (r: bool)
        requires
            self.valid(),
        ensures
            r == !self.stopped(),
    ;
}

impl<Device, SwapChains> MainThreadSession for SessionThread<Device, SwapChains> where
    Device: DeviceAPI<SwapChains::Surface> + 'static,
    SwapChains: SwapChainsAPI + 'static,
 {
    open spec fn valid(&self) -> bool {
        self.wf()
    }

    open spec fn stopped(&self) -> bool {
        !self.state().running
    }

    open spec fn frames_started(&self) -> nat {
        self.state().frame_count as nat
    }

    open spec fn messages_handled(&self) -> nat {
        self.history().len()
    }

    open spec fn empty_receives(&self) -> nat {
        self.misses()
    }

    /// Takes messages off the channel, waiting no longer than the worker's
    /// timeout for each, and handles them while the worker is running and
    /// has not started a new animation frame. So at most one frame is
    /// started, by the last message taken, and a step on an empty channel
    /// comes back after one timeout with nothing changed.
    fn run_one_frame(&mut self)
        ensures
            old(self).history().is_prefix_of(final(self).history()),
            taken_while_running(initial(), final(self).history(), old(self).history().len() as int),
            taken_at_frame(
                initial(),
                final(self).history(),
                old(self).history().len() as int,
                old(self).state().frame_count,
            ),
            old(self).state().frame_count <= final(self).state().frame_count
                <= old(self).state().frame_count + 1,
            !old(self).state().running ==> final(self).history() == old(self).history()
                && final(self).device_view() == old(self).device_view() && final(self).swap_chain_view() == old(self).swap_chain_view(),
            final(self).wired_as(old(self)),
            final(self).misses() == old(self).misses() + 1 ==> came_within(
                old(self).receiver_view(),
                old(self).timeout_ms(),
                None::<SessionMsg>,
            ),
            exists|ws: Seq<Self>|
                #![trigger ws.len()]
                ws.len() == final(self).history().len() - old(self).history().len() + 1 && ws[0]
                    == *old(self) && final(self).but_misses(ws.last()) && forall|i: int|
                    #![trigger ws[i]]
                    0 <= i < ws.len() - 1 ==> exists|m: &mut Self, msg: SessionMsg, keep: bool|
                        #![trigger call_ensures(Self::handle_msg, (m, msg), keep)]
                        mut_ref_current(m) == ws[i] && mut_ref_future(m) == ws[i + 1]
                            && came_within(
                            old(self).receiver_view(),
                            old(self).timeout_ms(),
                            Some(msg),
                        ) && call_ensures(Self::handle_msg, (m, msg), keep),
    {
        let frame_count = self.frame_count;
        let mut budget: u64 = u64::MAX;
        let ghost mut ws: Seq<Self> = seq![*self];
        while frame_count == self.frame_count && self.running && budget > 0
            invariant_except_break
                self.misses() == old(self).misses(),
                self.history().len() == old(self).history().len() + (u64::MAX - budget),
                ws.last() == *self,
            invariant
                ws.len() == self.history().len() - old(self).history().len() + 1,
                ws[0] == *old(self),
                forall|i: int|
                    #![trigger ws[i]]
                    0 <= i < ws.len() - 1 ==> exists|m: &mut Self, msg: SessionMsg, keep: bool|
                        #![trigger call_ensures(Self::handle_msg, (m, msg), keep)]
                        mut_ref_current(m) == ws[i] && mut_ref_future(m) == ws[i + 1]
                            && came_within(
                            old(self).receiver_view(),
                            old(self).timeout_ms(),
                            Some(msg),
                        ) && call_ensures(Self::handle_msg, (m, msg), keep),
                self.wf(),
                self.wired_as(old(self)),
                !old(self).state().running ==> self.history() == old(self).history()
                    && self.device_view() == old(self).device_view() && self.swap_chain_view()
                    == old(self).swap_chain_view(),
                frame_count == old(self).state().frame_count,
                old(self).history().is_prefix_of(self.history()),
                taken_while_running(initial(), self.history(), old(self).history().len() as int),
                taken_at_frame(
                    initial(),
                    self.history(),
                    old(self).history().len() as int,
                    frame_count,
                ),
                frame_count <= self.state().frame_count <= frame_count + 1,
            ensures
                old(self).state().running ==> step_ended(
                    self.state().running,
                    frame_count as nat,
                    self.state().frame_count as nat,
                    old(self).misses(),
                    self.misses(),
                    old(self).history().len(),
                    self.history().len(),
                ),
                !old(self).state().running ==> self.misses() == old(self).misses(),
                self.misses() == old(self).misses() || self.misses() == old(self).misses() + 1,
                self.misses() == old(self).misses() + 1 ==> came_within(
                    old(self).receiver_view(),
                    old(self).timeout_ms(),
                    None::<SessionMsg>,
                ),
                self.but_misses(ws.last()),
            decreases budget,
        {
            match recv_timeout(&self.receiver, millis(self.timeout_ms)) {
                Some(msg) => {
                    let ghost earlier = self.history();
                    let ghost taken = msg;
                    let ghost before = *self;
                    let ghost steps = ws;
                    let _ = self.handle_msg(msg);
                    proof {
                        ws = steps.push(*self);
                        assert(came_within(
                            old(self).receiver_view(),
                            old(self).timeout_ms(),
                            Some(taken),
                        ));
                        assert forall|i: int|
                            #![trigger ws[i]]
                            0 <= i < ws.len() - 1 implies exists|
                            m: &mut Self,
                            msg: SessionMsg,
                            keep: bool,
                        |
                            #![trigger call_ensures(Self::handle_msg, (m, msg), keep)]
                            mut_ref_current(m) == ws[i] && mut_ref_future(m) == ws[i + 1]
                                && came_within(
                                old(self).receiver_view(),
                                old(self).timeout_ms(),
                                Some(msg),
                            ) && call_ensures(Self::handle_msg, (m, msg), keep) by {
                            if i < steps.len() - 1 {
                                assert(ws[i] == steps[i]);
                                assert(ws[i + 1] == steps[i + 1]);
                            } else {
                                assert(ws[i] == before);
                                assert(ws[i + 1] == *self);
                            }
                        }
                        assert(self.history() =~= earlier.push(self.history().last()));
                        lemma_one_more(
                            initial(),
                            earlier,
                            self.history().last(),
                            old(self).history().len() as int,
                        );
                        lemma_push(initial(), earlier, self.history().last());
                    }
                },
                None => {
                    self.misses = Ghost((self.misses@ + 1) as nat);
                    break ;
                },
            }
            budget -= 1;
        }
    }

    fn running(&self) -> (r: bool) {
        self.running
    }
}

/// A session of any device, boxed so that a host can keep sessions of
/// different devices in one list and step them in turn.
pub struct CooperativeSession {
    worker: Box<dyn MainThreadSession>,
}

impl CooperativeSession {
    /// The boxed session is in a state that its methods can work on.
    pub closed spec fn valid(&self) -> bool {
        self.worker.valid()
    }

    /// The boxed session has stopped.
    pub closed spec fn stopped(&self) -> bool {
        self.worker.stopped()
    }

    /// How many animation frames the boxed session has started.
    pub closed spec fn frames_started(&self) -> nat {
        self.worker.frames_started()
    }

    /// How many messages the boxed session has handled.
    pub closed spec fn messages_handled(&self) -> nat {
        self.worker.messages_handled()
    }

    /// How often the boxed session has asked for a message and got none.
    pub closed spec fn empty_receives(&self) -> nat {
        self.worker.empty_receives()
    }

    /// Boxes `worker`.
    pub fn new<Device, SwapChains>(worker: SessionThread<Device, SwapChains>) -> (boxed:
        CooperativeSession) where
        Device: DeviceAPI<SwapChains::Surface> + 'static,
        SwapChains: SwapChainsAPI + 'static,

        ensures
            boxed.valid() == worker.valid(),
            boxed.stopped() == worker.stopped(),
            boxed.frames_started() == worker.frames_started(),
            boxed.messages_handled() == worker.messages_handled(),
            boxed.empty_receives() == worker.empty_receives(),
    {
        CooperativeSession { worker: Box::new(worker) }
    }

    /// One cooperative step of the boxed session: it handles messages until
    /// one animation frame has been started, the session has stopped, or no
    /// message came in time. At most one frame is started. A stopped
    /// session stays stopped and handles nothing.
    pub fn run_one_frame(&mut self)
        requires
            old(self).valid(),
        ensures
            final(self).valid(),
            old(self).frames_started() <= final(self).frames_started() <= old(
                self,
            ).frames_started() + 1,
            old(self).messages_handled() <= final(self).messages_handled(),
            old(self).stopped() ==> left_alone(
                final(self).stopped(),
                old(self).frames_started(),
                final(self).frames_started(),
                old(self).empty_receives(),
                final(self).empty_receives(),
                old(self).messages_handled(),
                final(self).messages_handled(),
            ),
            !old(self).stopped() ==> step_ended(
                !final(self).stopped(),
                old(self).frames_started(),
                final(self).frames_started(),
                old(self).empty_receives(),
                final(self).empty_receives(),
                old(self).messages_handled(),
                final(self).messages_handled(),
            ),
    {
        self.worker.run_one_frame();
    }

    /// Whether the boxed session is still running.
    pub fn running(&self) -> (r: bool)
        requires
            self.valid(),
        ensures
            r == !self.stopped(),
    {
        self.worker.running()
    }
}

} // verus!
