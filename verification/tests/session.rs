use std::cell::RefCell;
use std::collections::HashMap;
use std::rc::Rc;
use std::sync::mpsc::channel;
use std::sync::mpsc::Receiver;
use std::sync::mpsc::Sender;

use webxr_api::acknowledged;
use webxr_api::serve;
use webxr_api::settle;
use webxr_api::stamp;
use webxr_api::start;
use webxr_api::CooperativeSession;
use webxr_api::DeviceAPI;
use webxr_api::EnvironmentBlendMode;
use webxr_api::Error;
use webxr_api::Event;
use webxr_api::Frame;
use webxr_api::FrameUpdateEvent;
use webxr_api::Handedness;
use webxr_api::InputId;
use webxr_api::InputSource;
use webxr_api::MainThreadSession;
use webxr_api::Quitter;
use webxr_api::RigidTransform;
use webxr_api::Scalar;
use webxr_api::Session;
use webxr_api::SessionBuilder;
use webxr_api::SessionMode;
use webxr_api::SessionMsg;
use webxr_api::SessionThread;
use webxr_api::Size;
use webxr_api::SwapChainAPI;
use webxr_api::SwapChainId;
use webxr_api::SwapChainsAPI;
use webxr_api::TargetRayMode;
use webxr_api::View;
use webxr_api::Viewport;
use webxr_api::Views;

type Calls = Rc<RefCell<Vec<String>>>;

fn bits(x: f32) -> Scalar {
    x.to_bits()
}

fn transform(x: f32) -> RigidTransform {
    RigidTransform {
        rotation: [bits(0.0), bits(0.0), bits(0.0), bits(1.0)],
        translation: [bits(x), bits(0.0), bits(0.0)],
    }
}

fn view(x: f32) -> View {
    let mut projection = [bits(0.0); 16];
    projection[0] = bits(1.0);
    projection[5] = bits(1.0);
    projection[10] = bits(1.0);
    projection[15] = bits(1.0);
    View {
        transform: transform(x),
        projection,
        viewport: Viewport { x: 0, y: 0, size: Size { width: 640, height: 480 } },
    }
}

fn hand() -> InputSource {
    InputSource {
        id: InputId(7),
        handedness: Handedness::Left,
        target_ray_mode: TargetRayMode::TrackedPointer,
        supports_grip: true,
    }
}

fn frame(time_ns: u64) -> Frame {
    Frame { transform: Some(transform(1.5)), inputs: vec![], events: vec![], time_ns, sent_time: 0 }
}

/// A device that follows a script: it has a fixed number of frames, or no
/// end of them, and writes down what it is asked to do.
struct ScriptedDevice {
    frames_left: Option<u64>,
    next_time: u64,
    resolution: Option<Size>,
    calls: Calls,
    events: Option<Sender<Event>>,
    quitter: Rc<RefCell<Option<Quitter>>>,
    quit_at_once: bool,
}

impl ScriptedDevice {
    fn new(frames_left: Option<u64>, calls: &Calls) -> ScriptedDevice {
        ScriptedDevice {
            frames_left,
            next_time: 100,
            resolution: Some(Size { width: 1280, height: 720 }),
            calls: calls.clone(),
            events: None,
            quitter: Rc::new(RefCell::new(None)),
            quit_at_once: false,
        }
    }
}

impl DeviceAPI<u32> for ScriptedDevice {
    fn floor_transform(&self) -> Option<RigidTransform> {
        Some(transform(-1.0))
    }

    fn views(&self) -> Views {
        Views::Stereo(view(-0.03), view(0.03))
    }

    fn recommended_framebuffer_resolution(&self) -> Option<Size> {
        self.resolution
    }

    fn initial_inputs(&self) -> Vec<InputSource> {
        vec![hand()]
    }

    fn environment_blend_mode(&self) -> EnvironmentBlendMode {
        EnvironmentBlendMode::Additive
    }

    fn wait_for_animation_frame(&mut self) -> Option<Frame> {
        self.calls.borrow_mut().push("wait".to_string());
        if let Some(left) = self.frames_left {
            if left == 0 {
                return None;
            }
            self.frames_left = Some(left - 1);
        }
        let time = self.next_time;
        self.next_time += 1;
        Some(frame(time))
    }

    fn render_animation_frame(&mut self, surface: u32) -> u32 {
        self.calls.borrow_mut().push(format!("render {}", surface));
        surface
    }

    fn set_event_dest(&mut self, dest: Sender<Event>) {
        self.calls.borrow_mut().push("event dest".to_string());
        self.events = Some(dest);
    }

    fn set_quitter(&mut self, quitter: Quitter) {
        self.calls.borrow_mut().push("quitter".to_string());
        if self.quit_at_once {
            quitter.quit();
        }
        *self.quitter.borrow_mut() = Some(quitter);
    }

    fn update_clip_planes(&mut self, near: Scalar, far: Scalar) {
        self.calls.borrow_mut().push(format!(
            "clip {} {}",
            f32::from_bits(near),
            f32::from_bits(far)
        ));
    }

    fn quit(&mut self) {
        self.calls.borrow_mut().push("quit".to_string());
        if let Some(events) = &self.events {
            let _ = events.send(Event::SessionEnd);
        }
    }
}

#[derive(Clone)]
struct Chain {
    name: u64,
    surfaces: Rc<RefCell<Vec<u32>>>,
    calls: Calls,
}

impl SwapChainAPI<u32> for Chain {
    fn take_surface(&self) -> Option<u32> {
        self.calls.borrow_mut().push(format!("take from {}", self.name));
        self.surfaces.borrow_mut().pop()
    }

    fn recycle_surface(&self, surface: u32) {
        self.calls.borrow_mut().push(format!("recycle {} to {}", surface, self.name));
        self.surfaces.borrow_mut().push(surface);
    }
}

#[derive(Clone)]
struct Chains {
    chains: Rc<RefCell<HashMap<u64, Chain>>>,
    calls: Calls,
}

impl Chains {
    fn new(calls: &Calls) -> Chains {
        Chains { chains: Rc::new(RefCell::new(HashMap::new())), calls: calls.clone() }
    }

    fn add(&self, name: u64, surfaces: Vec<u32>) {
        let chain =
            Chain { name, surfaces: Rc::new(RefCell::new(surfaces)), calls: self.calls.clone() };
        self.chains.borrow_mut().insert(name, chain);
    }
}

impl SwapChainsAPI for Chains {
    type Surface = u32;
    type SwapChain = Chain;

    fn get(&self, id: SwapChainId) -> Option<Chain> {
        self.calls.borrow_mut().push(format!("get {}", id.0));
        self.chains.borrow().get(&id.0).cloned()
    }
}

struct Rig {
    calls: Calls,
    quitter: Rc<RefCell<Option<Quitter>>>,
    chains: Chains,
    frames: Receiver<Frame>,
    thread: SessionThread<ScriptedDevice, Chains>,
    session: Session,
}

fn rig_with(device: ScriptedDevice, calls: Calls) -> Rig {
    let chains = Chains::new(&calls);
    let quitter = device.quitter.clone();
    let (frame_sender, frames) = channel();
    let mut thread = SessionThread::new(device, chains.clone(), frame_sender).unwrap();
    let session = thread.new_session();
    Rig { calls, quitter, chains, frames, thread, session }
}

fn rig(frames_left: Option<u64>) -> Rig {
    let calls: Calls = Rc::new(RefCell::new(vec![]));
    rig_with(ScriptedDevice::new(frames_left, &calls), calls)
}

fn calls_of(rig: &Rig) -> Vec<String> {
    rig.calls.borrow().clone()
}

fn count(rig: &Rig, call: &str) -> usize {
    rig.calls.borrow().iter().filter(|c| c.as_str() == call).count()
}

fn pending(frames: &Receiver<Frame>) -> Vec<Frame> {
    let mut got = vec![];
    while let Ok(frame) = frames.try_recv() {
        got.push(frame);
    }
    got
}

#[test]
fn a_new_worker_is_running_and_has_started_no_frame() {
    let rig = rig(None);
    assert!(rig.thread.running());
    assert!(!rig.thread.exhausted());
    assert_eq!(rig.thread.frame_count(), 0);
    assert_eq!(calls_of(&rig), vec!["quitter".to_string()]);
    assert!(pending(&rig.frames).is_empty());
}

#[test]
fn new_session_caches_what_the_device_reports() {
    let rig = rig(None);
    assert_eq!(rig.session.floor_transform(), Some(transform(-1.0)));
    assert_eq!(rig.session.views(), Views::Stereo(view(-0.03), view(0.03)));
    assert_eq!(rig.session.environment_blend_mode(), EnvironmentBlendMode::Additive);
    assert_eq!(rig.session.initial_inputs(), &[hand()]);
    assert!(rig.session.has_framebuffer());
    assert_eq!(
        rig.session.recommended_framebuffer_resolution(),
        Size { width: 1280, height: 720 }
    );
}

#[test]
fn an_inline_session_has_no_framebuffer() {
    let calls: Calls = Rc::new(RefCell::new(vec![]));
    let mut device = ScriptedDevice::new(None, &calls);
    device.resolution = None;
    let rig = rig_with(device, calls);
    assert!(!rig.session.has_framebuffer());
}

#[test]
fn session_new_keeps_the_values_it_is_given() {
    let (sender, receiver) = channel();
    let mut session = Session::new(
        None,
        Views::Mono(view(0.0)),
        Some(Size { width: 3, height: 4 }),
        sender,
        EnvironmentBlendMode::Opaque,
        vec![],
    );
    assert_eq!(session.floor_transform(), None);
    assert_eq!(session.views(), Views::Mono(view(0.0)));
    assert_eq!(session.recommended_framebuffer_resolution(), Size { width: 3, height: 4 });
    assert_eq!(session.environment_blend_mode(), EnvironmentBlendMode::Opaque);
    assert!(session.initial_inputs().is_empty());
    session.start_render_loop();
    assert!(matches!(receiver.try_recv(), Ok(SessionMsg::StartRenderLoop)));
    assert!(receiver.try_recv().is_err());
}

#[test]
fn apply_event_updates_the_cache_and_sends_nothing() {
    let (sender, receiver) = channel();
    let mut session = Session::new(
        Some(transform(2.0)),
        Views::Mono(view(0.0)),
        None,
        sender,
        EnvironmentBlendMode::AlphaBlend,
        vec![hand()],
    );
    session.apply_event(FrameUpdateEvent::UpdateViews(Views::Stereo(view(1.0), view(2.0))));
    assert_eq!(session.views(), Views::Stereo(view(1.0), view(2.0)));
    assert_eq!(session.floor_transform(), Some(transform(2.0)));
    session.apply_event(FrameUpdateEvent::UpdateFloorTransform(None));
    assert_eq!(session.floor_transform(), None);
    assert_eq!(session.views(), Views::Stereo(view(1.0), view(2.0)));
    session.apply_event(FrameUpdateEvent::UpdateFloorTransform(Some(transform(9.0))));
    assert_eq!(session.floor_transform(), Some(transform(9.0)));
    assert_eq!(session.environment_blend_mode(), EnvironmentBlendMode::AlphaBlend);
    assert_eq!(session.initial_inputs(), &[hand()]);
    assert!(receiver.try_recv().is_err());
}

#[test]
fn the_handle_sends_its_messages_in_order() {
    let (sender, receiver) = channel();
    let (event_sender, _events) = channel();
    let mut session = Session::new(
        None,
        Views::Mono(view(0.0)),
        None,
        sender,
        EnvironmentBlendMode::Opaque,
        vec![],
    );
    session.set_swap_chain(Some(SwapChainId(4)));
    session.set_swap_chain(None);
    session.update_clip_planes(bits(0.1), bits(1000.0));
    session.set_event_dest(event_sender);
    session.start_render_loop();
    session.render_animation_frame();
    session.end_session();
    assert!(matches!(receiver.try_recv(), Ok(SessionMsg::SetSwapChain(Some(SwapChainId(4))))));
    assert!(matches!(receiver.try_recv(), Ok(SessionMsg::SetSwapChain(None))));
    match receiver.try_recv() {
        Ok(SessionMsg::UpdateClipPlanes(near, far)) => {
            assert_eq!(f32::from_bits(near), 0.1);
            assert_eq!(f32::from_bits(far), 1000.0);
        }
        _ => panic!("the clip planes did not arrive"),
    }
    assert!(matches!(receiver.try_recv(), Ok(SessionMsg::SetEventDest(_))));
    assert!(matches!(receiver.try_recv(), Ok(SessionMsg::StartRenderLoop)));
    assert!(matches!(receiver.try_recv(), Ok(SessionMsg::RenderAnimationFrame(_))));
    assert!(matches!(receiver.try_recv(), Ok(SessionMsg::Quit)));
    assert!(receiver.try_recv().is_err());
}

#[test]
fn sending_to_a_worker_that_is_gone_is_no_error() {
    let (sender, receiver) = channel();
    let mut session = Session::new(
        None,
        Views::Mono(view(0.0)),
        None,
        sender.clone(),
        EnvironmentBlendMode::Opaque,
        vec![],
    );
    let quitter = Quitter::new(sender);
    drop(receiver);
    session.start_render_loop();
    session.render_animation_frame();
    session.end_session();
    session.end_session();
    quitter.quit();
    quitter.clone().quit();
}

#[test]
fn start_render_loop_delivers_one_frame_and_renders_nothing() {
    let mut rig = rig(None);
    rig.chains.add(1, vec![10]);
    assert!(rig.thread.handle_msg(SessionMsg::SetSwapChain(Some(SwapChainId(1)))));
    assert!(rig.thread.handle_msg(SessionMsg::StartRenderLoop));
    assert_eq!(pending(&rig.frames), vec![frame(100)]);
    assert!(rig.thread.running());
    assert_eq!(rig.thread.frame_count(), 0);
    assert_eq!(
        calls_of(&rig),
        vec!["quitter".to_string(), "get 1".to_string(), "wait".to_string()]
    );
}

#[test]
fn a_device_with_three_frames_delivers_three_and_stops() {
    let mut rig = rig(Some(3));
    rig.session.start_render_loop();
    rig.session.render_animation_frame();
    rig.session.render_animation_frame();
    rig.session.render_animation_frame();
    rig.session.render_animation_frame();
    rig.session.render_animation_frame();
    rig.thread.run();
    assert!(!rig.thread.running());
    assert!(rig.thread.exhausted());
    let frames = pending(&rig.frames);
    assert_eq!(frames.len(), 3);
    assert_eq!(frames[0], frame(100));
    assert_eq!(frames[1].time_ns, 101);
    assert_eq!(frames[2].time_ns, 102);
    assert_eq!(count(&rig, "wait"), 4);
    assert_eq!(rig.thread.frame_count(), 3);
    rig.thread.run();
    rig.thread.run_one_frame();
    assert!(!rig.thread.handle_msg(SessionMsg::StartRenderLoop));
    assert!(!rig.thread.handle_msg(SessionMsg::RenderAnimationFrame(0)));
    assert!(pending(&rig.frames).is_empty());
    assert_eq!(count(&rig, "wait"), 4);
    assert_eq!(rig.thread.frame_count(), 3);
    assert_eq!(count(&rig, "quit"), 0);
}

#[test]
fn a_device_without_frames_stops_the_worker_at_the_start() {
    let mut rig = rig(Some(0));
    assert!(!rig.thread.handle_msg(SessionMsg::StartRenderLoop));
    assert!(!rig.thread.running());
    assert!(pending(&rig.frames).is_empty());
}

#[test]
fn events_go_to_the_latest_destination_only() {
    let mut rig = rig(None);
    let (first, first_events) = channel();
    let (second, second_events) = channel();
    rig.session.set_event_dest(first);
    rig.session.set_event_dest(second);
    rig.session.end_session();
    rig.thread.run();
    assert_eq!(second_events.try_recv(), Ok(Event::SessionEnd));
    assert!(second_events.try_recv().is_err());
    assert!(first_events.try_recv().is_err());
    assert_eq!(count(&rig, "event dest"), 2);
}

#[test]
fn a_failing_factory_gives_its_error_and_no_worker() {
    let calls: Calls = Rc::new(RefCell::new(vec![]));
    let chains = Chains::new(&calls);
    let (frame_sender, frames) = channel();
    let (acks, ackr) = channel();
    let made: Result<ScriptedDevice, Error> = Err(Error::BackendSpecific("no runtime".to_string()));
    let ended = serve(made, chains, frame_sender, acks);
    assert!(ended.is_none());
    match acknowledged(&ackr) {
        Err(err) => assert_eq!(err, Error::BackendSpecific("no runtime".to_string())),
        Ok(_) => panic!("a session came out of a failed factory"),
    }
    assert!(calls.borrow().is_empty());
    assert!(frames.try_recv().is_err());
}

#[test]
fn a_served_session_is_acknowledged_and_runs_until_it_is_told_to_quit() {
    let calls: Calls = Rc::new(RefCell::new(vec![]));
    let chains = Chains::new(&calls);
    let (frame_sender, _frames) = channel();
    let (acks, ackr) = channel();
    let mut device = ScriptedDevice::new(None, &calls);
    device.quit_at_once = true;
    let ended = serve(Ok(device), chains, frame_sender, acks);
    let thread = ended.unwrap();
    assert!(!thread.running());
    let session = acknowledged(&ackr).unwrap();
    assert_eq!(session.environment_blend_mode(), EnvironmentBlendMode::Additive);
    assert_eq!(*calls.borrow(), vec!["quitter".to_string(), "quit".to_string()]);
}

#[test]
fn a_worker_that_went_away_without_an_answer_is_a_communication_error() {
    let (acks, ackr) = channel::<Result<Session, Error>>();
    drop(acks);
    match acknowledged(&ackr) {
        Err(err) => assert_eq!(err, Error::CommunicationError),
        Ok(_) => panic!("a session came out of nothing"),
    }
}

#[test]
fn settle_passes_the_answer_on() {
    assert!(matches!(settle(None), Err(Error::CommunicationError)));
    assert!(matches!(settle(Some(Err(Error::NoMatchingDevice))), Err(Error::NoMatchingDevice)));
    let (sender, _receiver) = channel();
    let session = Session::new(
        None,
        Views::Mono(view(0.5)),
        None,
        sender,
        EnvironmentBlendMode::Opaque,
        vec![],
    );
    match settle(Some(Ok(session))) {
        Ok(session) => assert_eq!(session.views(), Views::Mono(view(0.5))),
        Err(_) => panic!("the session was lost"),
    }
}

#[test]
fn ending_a_session_twice_quits_the_device_once() {
    let mut rig = rig(None);
    rig.session.end_session();
    rig.session.end_session();
    rig.thread.run();
    assert!(!rig.thread.running());
    assert!(!rig.thread.exhausted());
    assert_eq!(count(&rig, "quit"), 1);
    rig.thread.run();
    rig.thread.run_one_frame();
    assert!(!rig.thread.handle_msg(SessionMsg::Quit));
    assert_eq!(count(&rig, "quit"), 1);
    assert_eq!(calls_of(&rig), vec!["quitter".to_string(), "quit".to_string()]);
    assert!(!rig.thread.running());
}

#[test]
fn messages_behind_a_quit_are_dropped() {
    let mut rig = rig(None);
    rig.chains.add(1, vec![10]);
    rig.session.end_session();
    rig.session.set_swap_chain(Some(SwapChainId(1)));
    rig.session.start_render_loop();
    rig.session.render_animation_frame();
    rig.session.update_clip_planes(bits(1.0), bits(2.0));
    rig.thread.run();
    rig.thread.run();
    assert!(!rig.thread.handle_msg(SessionMsg::RenderAnimationFrame(5)));
    assert_eq!(calls_of(&rig), vec!["quitter".to_string(), "quit".to_string()]);
    assert_eq!(rig.thread.frame_count(), 0);
    assert!(pending(&rig.frames).is_empty());
}

#[test]
fn the_quitter_ends_the_session() {
    let mut rig = rig(None);
    let quitter = rig.quitter.borrow().clone().unwrap();
    quitter.clone().quit();
    quitter.quit();
    rig.session.start_render_loop();
    rig.thread.run();
    assert!(!rig.thread.running());
    assert_eq!(calls_of(&rig), vec!["quitter".to_string(), "quit".to_string()]);
    assert!(pending(&rig.frames).is_empty());
}

#[test]
fn the_last_swap_chain_wins() {
    let mut rig = rig(None);
    rig.chains.add(1, vec![10]);
    rig.chains.add(2, vec![20]);
    rig.session.set_swap_chain(Some(SwapChainId(1)));
    rig.session.set_swap_chain(Some(SwapChainId(2)));
    rig.session.render_animation_frame();
    rig.thread.run_one_frame();
    assert_eq!(
        calls_of(&rig),
        vec![
            "quitter".to_string(),
            "get 1".to_string(),
            "get 2".to_string(),
            "take from 2".to_string(),
            "render 20".to_string(),
            "recycle 20 to 2".to_string(),
            "wait".to_string(),
        ]
    );
    rig.session.set_swap_chain(Some(SwapChainId(2)));
    rig.session.set_swap_chain(Some(SwapChainId(1)));
    rig.session.render_animation_frame();
    rig.thread.run_one_frame();
    assert_eq!(count(&rig, "take from 1"), 1);
    assert_eq!(count(&rig, "render 10"), 1);
    assert_eq!(count(&rig, "take from 2"), 1);
}

#[test]
fn unbinding_and_an_unknown_name_leave_no_swap_chain_bound() {
    let mut rig = rig(None);
    rig.chains.add(1, vec![10]);
    assert!(rig.thread.handle_msg(SessionMsg::SetSwapChain(Some(SwapChainId(1)))));
    assert!(rig.thread.handle_msg(SessionMsg::SetSwapChain(None)));
    assert!(rig.thread.handle_msg(SessionMsg::RenderAnimationFrame(0)));
    assert_eq!(count(&rig, "take from 1"), 0);
    assert!(rig.thread.handle_msg(SessionMsg::SetSwapChain(Some(SwapChainId(1)))));
    assert!(rig.thread.handle_msg(SessionMsg::SetSwapChain(Some(SwapChainId(99)))));
    assert!(rig.thread.handle_msg(SessionMsg::RenderAnimationFrame(0)));
    assert_eq!(count(&rig, "take from 1"), 0);
    assert_eq!(count(&rig, "get 99"), 1);
    assert_eq!(rig.thread.frame_count(), 2);
    assert_eq!(pending(&rig.frames).len(), 2);
}

#[test]
fn a_swap_chain_without_a_surface_skips_the_render_step() {
    let mut rig = rig(None);
    rig.chains.add(1, vec![]);
    assert!(rig.thread.handle_msg(SessionMsg::SetSwapChain(Some(SwapChainId(1)))));
    assert!(rig.thread.handle_msg(SessionMsg::RenderAnimationFrame(0)));
    assert!(rig.thread.running());
    assert_eq!(rig.thread.frame_count(), 1);
    assert_eq!(
        calls_of(&rig),
        vec![
            "quitter".to_string(),
            "get 1".to_string(),
            "take from 1".to_string(),
            "wait".to_string(),
        ]
    );
    assert_eq!(pending(&rig.frames).len(), 1);
}

#[test]
fn the_frame_counter_goes_up_by_one_for_each_animation_frame() {
    let mut rig = rig(None);
    assert_eq!(rig.thread.frame_count(), 0);
    assert!(rig.thread.handle_msg(SessionMsg::StartRenderLoop));
    assert_eq!(rig.thread.frame_count(), 0);
    assert!(rig.thread.handle_msg(SessionMsg::RenderAnimationFrame(1)));
    assert_eq!(rig.thread.frame_count(), 1);
    assert!(rig.thread.handle_msg(SessionMsg::SetSwapChain(None)));
    assert!(rig.thread.handle_msg(SessionMsg::UpdateClipPlanes(bits(0.5), bits(50.0))));
    assert_eq!(rig.thread.frame_count(), 1);
    assert!(rig.thread.handle_msg(SessionMsg::RenderAnimationFrame(2)));
    assert_eq!(rig.thread.frame_count(), 2);
    assert!(rig.thread.handle_msg(SessionMsg::RenderAnimationFrame(3)));
    assert_eq!(rig.thread.frame_count(), 3);
    assert!(!rig.thread.handle_msg(SessionMsg::Quit));
    assert_eq!(rig.thread.frame_count(), 3);
    assert!(!rig.thread.handle_msg(SessionMsg::RenderAnimationFrame(4)));
    assert_eq!(rig.thread.frame_count(), 3);
    assert_eq!(count(&rig, "clip 0.5 50"), 1);
}

#[test]
fn an_animation_frame_is_stamped_when_it_is_handed_over() {
    let mut rig = rig(None);
    assert!(rig.thread.handle_msg(SessionMsg::StartRenderLoop));
    assert!(rig.thread.handle_msg(SessionMsg::RenderAnimationFrame(0)));
    assert!(rig.thread.handle_msg(SessionMsg::RenderAnimationFrame(0)));
    let frames = pending(&rig.frames);
    assert_eq!(frames.len(), 3);
    assert_eq!(frames[0].sent_time, 0);
    assert!(frames[1].sent_time > 0);
    assert!(frames[2].sent_time >= frames[1].sent_time);
    assert_eq!(frames[1].time_ns, 101);
    assert_eq!(frames[1].transform, Some(transform(1.5)));
}

#[test]
fn stamp_sets_the_time_of_handing_over_and_nothing_else() {
    let stamped = stamp(frame(5), 77);
    assert_eq!(
        stamped,
        Frame {
            transform: Some(transform(1.5)),
            inputs: vec![],
            events: vec![],
            time_ns: 5,
            sent_time: 77
        }
    );
    assert_ne!(stamped, frame(5));
}

#[test]
fn a_cooperative_step_comes_back_when_no_message_arrives() {
    let mut rig = rig(None);
    rig.thread.run_one_frame();
    assert!(rig.thread.running());
    assert_eq!(rig.thread.frame_count(), 0);
    assert_eq!(calls_of(&rig), vec!["quitter".to_string()]);
    let mut short = SessionThread::with_timeout(
        ScriptedDevice::new(None, &rig.calls),
        rig.chains.clone(),
        channel().0,
        0,
    );
    short.run_one_frame();
    assert!(short.running());
}

#[test]
fn a_cooperative_step_handles_messages_up_to_one_animation_frame() {
    let mut rig = rig(None);
    rig.session.set_swap_chain(None);
    rig.session.start_render_loop();
    rig.session.render_animation_frame();
    rig.session.render_animation_frame();
    rig.session.end_session();
    rig.thread.run_one_frame();
    assert_eq!(rig.thread.frame_count(), 1);
    assert_eq!(pending(&rig.frames).len(), 2);
    assert!(rig.thread.running());
    rig.thread.run_one_frame();
    assert_eq!(rig.thread.frame_count(), 2);
    assert_eq!(pending(&rig.frames).len(), 1);
    assert!(rig.thread.running());
    rig.thread.run_one_frame();
    assert_eq!(rig.thread.frame_count(), 2);
    assert!(!rig.thread.running());
    assert_eq!(count(&rig, "quit"), 1);
    rig.thread.run_one_frame();
    assert!(!rig.thread.running());
    assert_eq!(count(&rig, "quit"), 1);
}

#[test]
fn run_on_main_thread_adds_a_running_session_to_the_host() {
    let calls: Calls = Rc::new(RefCell::new(vec![]));
    let chains = Chains::new(&calls);
    let (frame_sender, frames) = channel();
    let mut sessions: Vec<CooperativeSession> = vec![];
    let device_calls = calls.clone();
    let builder = SessionBuilder::new(&chains, &mut sessions, frame_sender.clone());
    let mut session = builder
        .run_on_main_thread(move || Ok(ScriptedDevice::new(Some(1), &device_calls)))
        .unwrap();
    assert_eq!(sessions.len(), 1);
    assert!(sessions[0].running());
    assert_eq!(session.views(), Views::Stereo(view(-0.03), view(0.03)));
    session.start_render_loop();
    session.render_animation_frame();
    sessions[0].run_one_frame();
    assert_eq!(pending(&frames).len(), 1);
    assert!(!sessions[0].running());
    sessions[0].run_one_frame();
    assert!(!sessions[0].running());

    let other_calls = calls.clone();
    let builder = SessionBuilder::new(&chains, &mut sessions, frame_sender);
    let second = builder.enlist(ScriptedDevice::new(None, &other_calls));
    assert_eq!(second.environment_blend_mode(), EnvironmentBlendMode::Additive);
    assert_eq!(sessions.len(), 2);
    assert!(sessions[1].running());
    assert!(!sessions[0].running());
}

#[test]
fn run_on_main_thread_passes_the_error_of_the_factory_on() {
    let calls: Calls = Rc::new(RefCell::new(vec![]));
    let chains = Chains::new(&calls);
    let (frame_sender, _frames) = channel();
    let mut sessions: Vec<CooperativeSession> = vec![];
    let builder = SessionBuilder::new(&chains, &mut sessions, frame_sender);
    let failed: Result<Session, Error> =
        builder.run_on_main_thread(|| Err::<ScriptedDevice, Error>(Error::NoMatchingDevice));
    assert!(matches!(failed, Err(Error::NoMatchingDevice)));
    assert!(sessions.is_empty());
    assert!(calls.borrow().is_empty());
}

#[test]
fn a_boxed_worker_steps_as_the_worker_does() {
    let mut rig = rig(None);
    rig.session.render_animation_frame();
    rig.session.end_session();
    let mut boxed = CooperativeSession::new(rig.thread);
    assert!(boxed.running());
    boxed.run_one_frame();
    assert!(boxed.running());
    assert_eq!(pending(&rig.frames).len(), 1);
    boxed.run_one_frame();
    assert!(!boxed.running());
    assert_eq!(rig.calls.borrow().iter().filter(|c| c.as_str() == "quit").count(), 1);
}

#[test]
fn session_modes_and_blend_modes_compare_by_variant() {
    assert_eq!(SessionMode::Inline, SessionMode::Inline);
    assert_ne!(SessionMode::ImmersiveVR, SessionMode::ImmersiveAR);
    assert_ne!(EnvironmentBlendMode::Opaque, EnvironmentBlendMode::AlphaBlend);
    let mode = SessionMode::ImmersiveAR;
    let copy = mode;
    assert_eq!(mode, copy);
}

#[test]
fn a_spawn_without_a_device_begins_with_the_error_and_no_worker() {
    let calls: Calls = Rc::new(RefCell::new(vec![]));
    let chains = Chains::new(&calls);
    let (frame_sender, _frames) = channel();
    let made: Result<ScriptedDevice, Error> = Err(Error::BackendSpecific("boom".to_string()));
    let (answer, worker) = start(made, chains, frame_sender);
    assert!(worker.is_none());
    match answer {
        Err(err) => assert_eq!(err, Error::BackendSpecific("boom".to_string())),
        Ok(_) => panic!("a session came out of a failed factory"),
    }
    assert!(calls.borrow().is_empty());
}

#[test]
fn a_spawn_with_a_device_begins_with_a_handle_for_a_fresh_worker() {
    let calls: Calls = Rc::new(RefCell::new(vec![]));
    let chains = Chains::new(&calls);
    let (frame_sender, frames) = channel();
    let device = ScriptedDevice::new(Some(1), &calls);
    let quitter = device.quitter.clone();
    let (answer, worker) = start(Ok(device), chains, frame_sender);
    let mut worker = worker.unwrap();
    let mut session = answer.unwrap();
    assert!(worker.running());
    assert_eq!(worker.frame_count(), 0);
    assert_eq!(*calls.borrow(), vec!["quitter".to_string()]);
    assert_eq!(session.floor_transform(), Some(transform(-1.0)));
    assert_eq!(session.views(), Views::Stereo(view(-0.03), view(0.03)));
    assert_eq!(session.recommended_framebuffer_resolution(), Size { width: 1280, height: 720 });
    assert_eq!(session.environment_blend_mode(), EnvironmentBlendMode::Additive);
    assert_eq!(session.initial_inputs(), &[hand()]);
    session.start_render_loop();
    worker.run_one_frame();
    assert_eq!(pending(&frames), vec![frame(100)]);
    let quitter = quitter.borrow().clone().unwrap();
    quitter.quit();
    worker.run();
    assert!(!worker.running());
    assert_eq!(calls.borrow().iter().filter(|c| c.as_str() == "quit").count(), 1);
}
