use vstd::prelude::*;
use std::sync::mpsc::Sender;
use crate::frame::stamped;
use crate::frame::Event;
use crate::frame::Frame;
use crate::geometry::Scalar;

verus! {

/// The name of a swap chain in the registry.
#[derive(Clone, Copy, Debug, PartialEq, Eq, Hash)]
pub struct SwapChainId(pub u64);

/// What a message asks of the worker.
pub enum MsgKind {
    SetSwapChain(Option<SwapChainId>),
    SetEventDest(Sender<Event>),
    UpdateClipPlanes(Scalar, Scalar),
    StartRenderLoop,
    RenderAnimationFrame(u64),
    Quit,
}

/// What the collaborators answered while one message was handled. A field
/// that the message did not ask about is not looked at.
pub struct Outcome {
    /// The registry held the swap chain that was asked for.
    pub found: bool,
    /// The bound swap chain had a surface to hand out.
    pub surface: bool,
    /// What the device's wait for the next frame gave; `None` once the
    /// device has no more frames.
    pub frame: Option<Frame>,
    /// The clock's reading when the frame was ready to be handed over.
    pub stamp: u64,
}

/// One message together with what came back while it was handled.
pub struct Step {
    pub msg: MsgKind,
    pub outcome: Outcome,
}

/// What the worker remembers between two messages.
pub struct ThreadState {
    /// The swap chain that render steps draw to, if one is bound.
    pub bound: Option<SwapChainId>,
    /// How many animation frames have been started.
    pub frame_count: u64,
    /// `false` once the worker has stopped; it never runs again.
    pub running: bool,
    /// The worker has stopped because its device had no more frames.
    pub exhausted: bool,
}

/// A call that the worker makes on one of its collaborators.
pub enum Effect {
    /// The registry is asked for a swap chain.
    Lookup(SwapChainId),
    /// The device is given a new destination for its events.
    EventDest(Sender<Event>),
    /// The device is given new clip planes, near and far.
    ClipPlanes(Scalar, Scalar),
    /// The bound swap chain is asked for a surface.
    TakeSurface,
    /// The device renders to the surface.
    Render,
    /// The surface goes back to its swap chain.
    Recycle,
    /// The device is asked to wait for the next frame.
    Wait,
    /// The frame is put on the delivery channel.
    Deliver(Frame),
    /// The device's quit hook is called.
    DeviceQuit,
}

/// The state of a worker that has handled nothing yet.
pub open spec fn initial() -> ThreadState {
    ThreadState { bound: None, frame_count: 0, running: true, exhausted: false }
}

/// The swap chain that is bound after a request to bind `id`.
pub open spec fn binding(id: Option<SwapChainId>, o: Outcome) -> Option<SwapChainId> {
    match id {
        Some(id) => if o.found { Some(id) } else { None },
        None => None,
    }
}

/// Whether handling `m` in state `s` starts an animation frame.
pub open spec fn advances(s: ThreadState, m: MsgKind) -> bool {
    s.running && m is RenderAnimationFrame && s.frame_count < u64::MAX
}

/// The state after `m` was handled in state `s` with the answers `o`.
pub open spec fn next(s: ThreadState, m: MsgKind, o: Outcome) -> ThreadState {
    if !s.running {
        s
    } else {
        match m {
            MsgKind::SetSwapChain(id) => ThreadState { bound: binding(id, o), ..s },
            MsgKind::SetEventDest(_) => s,
            MsgKind::UpdateClipPlanes(_, _) => s,
            MsgKind::StartRenderLoop => ThreadState {
                running: o.frame is Some,
                exhausted: o.frame is None,
                ..s
            },
            MsgKind::RenderAnimationFrame(_) => if s.frame_count == u64::MAX {
                ThreadState { running: false, ..s }
            } else {
                ThreadState {
                    frame_count: (s.frame_count + 1) as u64,
                    running: o.frame is Some,
                    exhausted: o.frame is None,
                    ..s
                }
            },
            MsgKind::Quit => ThreadState { running: false, ..s },
        }
    }
}

/// The calls of a render step: none without a bound swap chain, and no
/// rendering when the swap chain has no surface to give.
pub open spec fn render_effects(s: ThreadState, o: Outcome) -> Seq<Effect> {
    if s.bound is None {
        Seq::empty()
    } else if o.surface {
        seq![Effect::TakeSurface, Effect::Render, Effect::Recycle]
    } else {
        seq![Effect::TakeSurface]
    }
}

/// The calls of a wait for the next frame: the frame that came is
/// delivered, with the clock's reading on it if `stamp` is set.
pub open spec fn wait_effects(o: Outcome, stamp: bool) -> Seq<Effect> {
    match o.frame {
        Some(frame) => seq![
            Effect::Wait,
            Effect::Deliver(if stamp { stamped(frame, o.stamp) } else { frame }),
        ],
        None => seq![Effect::Wait],
    }
}

/// The calls that the worker makes, in order, while it handles `m` in state
/// `s` and gets the answers `o`.
pub open spec fn effects(s: ThreadState, m: MsgKind, o: Outcome) -> Seq<Effect> {
    if !s.running {
        Seq::empty()
    } else {
        match m {
            MsgKind::SetSwapChain(Some(id)) => seq![Effect::Lookup(id)],
            MsgKind::SetSwapChain(None) => Seq::empty(),
            MsgKind::SetEventDest(dest) => seq![Effect::EventDest(dest)],
            MsgKind::UpdateClipPlanes(near, far) => seq![Effect::ClipPlanes(near, far)],
            MsgKind::StartRenderLoop => wait_effects(o, false),
            MsgKind::RenderAnimationFrame(_) => if s.frame_count == u64::MAX {
                Seq::empty()
            } else {
                render_effects(s, o) + wait_effects(o, true)
            },
            MsgKind::Quit => seq![Effect::DeviceQuit],
        }
    }
}

/// The state after the worker has handled `steps`, first to last, from `s`.
pub open spec fn replay(s: ThreadState, steps: Seq<Step>) -> ThreadState
    decreases steps.len(),
{
    if steps.len() == 0 {
        s
    } else {
        next(replay(s, steps.drop_last()), steps.last().msg, steps.last().outcome)
    }
}

/// The calls that the worker makes while it handles `steps` from `s`.
pub open spec fn trace(s: ThreadState, steps: Seq<Step>) -> Seq<Effect>
    decreases steps.len(),
{
    if steps.len() == 0 {
        Seq::empty()
    } else {
        trace(s, steps.drop_last()) + effects(
            replay(s, steps.drop_last()),
            steps.last().msg,
            steps.last().outcome,
        )
    }
}

/// How many animation frames are started while `steps` are handled from `s`.
pub open spec fn frames_started(s: ThreadState, steps: Seq<Step>) -> nat
    decreases steps.len(),
{
    if steps.len() == 0 {
        0
    } else {
        frames_started(s, steps.drop_last()) + if advances(
            replay(s, steps.drop_last()),
            steps.last().msg,
        ) {
            1nat
        } else {
            0nat
        }
    }
}

/// How often `log` calls the device's quit hook.
pub open spec fn quits(log: Seq<Effect>) -> nat
    decreases log.len(),
{
    if log.len() == 0 {
        0
    } else {
        quits(log.drop_last()) + if log.last() is DeviceQuit {
            1nat
        } else {
            0nat
        }
    }
}

/// The frames that `log` puts on the delivery channel, in order.
pub open spec fn delivered(log: Seq<Effect>) -> Seq<Frame>
    decreases log.len(),
{
    if log.len() == 0 {
        Seq::empty()
    } else {
        match log.last() {
            Effect::Deliver(frame) => delivered(log.drop_last()).push(frame),
            _ => delivered(log.drop_last()),
        }
    }
}

/// How often `log` has the device render.
pub open spec fn renders(log: Seq<Effect>) -> nat
    decreases log.len(),
{
    if log.len() == 0 {
        0
    } else {
        renders(log.drop_last()) + if log.last() is Render {
            1nat
        } else {
            0nat
        }
    }
}

/// Every step of `steps` from the one at `from` on found the worker running.
pub open spec fn taken_while_running(s: ThreadState, steps: Seq<Step>, from: int) -> bool {
    forall|i: int| from <= i < steps.len() ==> (#[trigger] replay(s, steps.take(i))).running
}

/// Every step of `steps` from the one at `from` on found the frame counter
/// at `count`.
pub open spec fn taken_at_frame(s: ThreadState, steps: Seq<Step>, from: int, count: u64) -> bool {
    forall|i: int|
        from <= i < steps.len() ==> (#[trigger] replay(s, steps.take(i))).frame_count == count
}

/// Handling one more step continues from where the earlier steps ended.
pub proof fn lemma_push(s: ThreadState, steps: Seq<Step>, step: Step)
    ensures
        replay(s, steps.push(step)) == next(replay(s, steps), step.msg, step.outcome),
        trace(s, steps.push(step)) == trace(s, steps) + effects(
            replay(s, steps),
            step.msg,
            step.outcome,
        ),
{
    assert(steps.push(step).drop_last() =~= steps);
}

/// What held of the steps from `from` on still holds when one more step is
/// taken in a state of which it holds too.
pub proof fn lemma_one_more(s: ThreadState, steps: Seq<Step>, step: Step, from: int)
    requires
        0 <= from <= steps.len(),
    ensures
        taken_while_running(s, steps, from) && replay(s, steps).running ==> taken_while_running(
            s,
            steps.push(step),
            from,
        ),
        forall|count: u64|
            taken_at_frame(s, steps, from, count) && replay(s, steps).frame_count == count
                ==> #[trigger] taken_at_frame(s, steps.push(step), from, count),
{
    let longer = steps.push(step);
    assert(longer.take(steps.len() as int) =~= steps);
    assert forall|i: int| from <= i < steps.len() implies #[trigger] longer.take(i) == steps.take(
        i,
    ) by {
        assert(longer.take(i) =~= steps.take(i));
    }
    assert forall|count: u64|
        taken_at_frame(s, steps, from, count) && replay(s, steps).frame_count
            == count implies #[trigger] taken_at_frame(s, longer, from, count) by {
        assert forall|i: int| from <= i < longer.len() implies (#[trigger] replay(
            s,
            longer.take(i),
        )).frame_count == count by {
            if i < steps.len() {
                assert(longer.take(i) == steps.take(i));
            }
        }
    }
    if taken_while_running(s, steps, from) && replay(s, steps).running {
        assert forall|i: int| from <= i < longer.len() implies (#[trigger] replay(
            s,
            longer.take(i),
        )).running by {
            if i < steps.len() {
                assert(longer.take(i) == steps.take(i));
            }
        }
    }
}

/// The quit hook is called in `a + b` as often as in `a` and in `b` together.
pub proof fn lemma_quits_concat(a: Seq<Effect>, b: Seq<Effect>)
    ensures
        quits(a + b) == quits(a) + quits(b),
    decreases b.len(),
{
    if b.len() == 0 {
        assert(a + b =~= a);
    } else {
        lemma_quits_concat(a, b.drop_last());
        assert((a + b).drop_last() =~= a + b.drop_last());
    }
}

/// The device renders in `a + b` as often as in `a` and in `b` together.
pub proof fn lemma_renders_concat(a: Seq<Effect>, b: Seq<Effect>)
    ensures
        renders(a + b) == renders(a) + renders(b),
    decreases b.len(),
{
    if b.len() == 0 {
        assert(a + b =~= a);
    } else {
        lemma_renders_concat(a, b.drop_last());
        assert((a + b).drop_last() =~= a + b.drop_last());
    }
}

/// What `a + b` delivers is what `a` delivers and then what `b` delivers.
pub proof fn lemma_delivered_concat(a: Seq<Effect>, b: Seq<Effect>)
    ensures
        delivered(a + b) == delivered(a) + delivered(b),
    decreases b.len(),
{
    if b.len() == 0 {
        assert(a + b =~= a);
        assert(delivered(a) + delivered(b) =~= delivered(a));
    } else {
        lemma_delivered_concat(a, b.drop_last());
        assert((a + b).drop_last() =~= a + b.drop_last());
        assert(delivered(a + b) =~= delivered(a) + delivered(b));
    }
}

/// Handling one message calls the quit hook once if the message is `Quit`
/// and the worker is running, and not at all otherwise.
pub proof fn lemma_quits_of_step(s: ThreadState, m: MsgKind, o: Outcome)
    ensures
        quits(effects(s, m, o)) == if s.running && m is Quit {
            1nat
        } else {
            0nat
        },
{
    reveal_with_fuel(quits, 6);
    if s.running {
        match m {
            MsgKind::RenderAnimationFrame(_) => {
                if s.frame_count < u64::MAX {
                    lemma_quits_concat(render_effects(s, o), wait_effects(o, true));
                }
            },
            _ => {},
        }
    }
}

/// A stopped worker stays as it is and calls nothing, whatever arrives.
pub proof fn law_stopped_is_terminal(s: ThreadState, steps: Seq<Step>)
    requires
        !s.running,
    ensures
        replay(s, steps) == s,
        trace(s, steps) == Seq::<Effect>::empty(),
    decreases steps.len(),
{
    if steps.len() > 0 {
        law_stopped_is_terminal(s, steps.drop_last());
        assert(trace(s, steps) =~= Seq::<Effect>::empty());
    }
}

/// The worker stops at most once: when it has stopped after the first `i`
/// steps, it is stopped after all of them.
pub proof fn law_never_resumes(s: ThreadState, steps: Seq<Step>, i: int)
    requires
        0 <= i <= steps.len(),
        !replay(s, steps.take(i)).running,
    ensures
        !replay(s, steps).running,
        replay(s, steps) == replay(s, steps.take(i)),
    decreases steps.len() - i,
{
    if i == steps.len() {
        assert(steps.take(i) =~= steps);
    } else {
        assert(steps.drop_last().take(i) =~= steps.take(i));
        law_never_resumes(s, steps.drop_last(), i);
    }
}

/// The last request to bind a swap chain wins: after any steps, the bound
/// swap chain is the one that the latest `SetSwapChain` handled by the
/// running worker asked for, if the registry held it, and none otherwise.
pub proof fn law_last_swap_chain_wins(s: ThreadState, steps: Seq<Step>, i: int)
    requires
        0 <= i < steps.len(),
        steps[i].msg is SetSwapChain,
        replay(s, steps.take(i)).running,
        forall|j: int| i < j < steps.len() ==> !(#[trigger] steps[j].msg is SetSwapChain),
    ensures
        replay(s, steps).bound == binding(steps[i].msg->SetSwapChain_0, steps[i].outcome),
    decreases steps.len() - i,
{
    if i == steps.len() - 1 {
        assert(steps.drop_last() =~= steps.take(i));
    } else {
        assert(steps.drop_last().take(i) =~= steps.take(i));
        law_last_swap_chain_wins(s, steps.drop_last(), i);
    }
}

/// A message other than `SetSwapChain` leaves the bound swap chain alone.
pub proof fn law_binding_is_kept(s: ThreadState, m: MsgKind, o: Outcome)
    requires
        !(m is SetSwapChain),
    ensures
        next(s, m, o).bound == s.bound,
{
}

/// One message moves the frame counter up by one if it starts an animation
/// frame, and leaves it alone otherwise.
pub proof fn law_frame_counter_step(s: ThreadState, m: MsgKind, o: Outcome)
    ensures
        next(s, m, o).frame_count == s.frame_count + if advances(s, m) {
            1int
        } else {
            0int
        },
{
}

/// The frame counter counts the animation frames that were started: it
/// never goes down and never skips a number.
pub proof fn law_frame_counter(s: ThreadState, steps: Seq<Step>)
    ensures
        replay(s, steps).frame_count == s.frame_count + frames_started(s, steps),
        replay(s, steps).frame_count >= s.frame_count,
    decreases steps.len(),
{
    if steps.len() > 0 {
        law_frame_counter(s, steps.drop_last());
    }
}

/// `Quit` stops a running worker, and the one call it makes is the device's
/// quit hook.
pub proof fn law_quit_stops(s: ThreadState, o: Outcome)
    requires
        s.running,
    ensures
        !next(s, MsgKind::Quit, o).running,
        effects(s, MsgKind::Quit, o) == seq![Effect::DeviceQuit],
{
}

/// The device's quit hook is called at most once, and not at all while the
/// worker is running.
pub proof fn law_quit_hook_at_most_once(s: ThreadState, steps: Seq<Step>)
    requires
        s.running,
    ensures
        quits(trace(s, steps)) <= 1,
        replay(s, steps).running ==> quits(trace(s, steps)) == 0,
    decreases steps.len(),
{
    if steps.len() > 0 {
        let before = steps.drop_last();
        let last = steps.last();
        law_quit_hook_at_most_once(s, before);
        lemma_quits_concat(
            trace(s, before),
            effects(replay(s, before), last.msg, last.outcome),
        );
        lemma_quits_of_step(replay(s, before), last.msg, last.outcome);
    }
}

/// Once the running worker has handled a `Quit`, it is stopped and the
/// device's quit hook has been called exactly once, whatever arrives later.
pub proof fn law_quit_hook_once(s: ThreadState, steps: Seq<Step>, i: int)
    requires
        s.running,
        0 <= i < steps.len(),
        steps[i].msg is Quit,
        replay(s, steps.take(i)).running,
    ensures
        !replay(s, steps).running,
        quits(trace(s, steps)) == 1,
    decreases steps.len() - i,
{
    let before = steps.drop_last();
    let last = steps.last();
    lemma_quits_concat(trace(s, before), effects(replay(s, before), last.msg, last.outcome));
    lemma_quits_of_step(replay(s, before), last.msg, last.outcome);
    if i == steps.len() - 1 {
        assert(before =~= steps.take(i));
        law_quit_hook_at_most_once(s, before);
    } else {
        assert(before.take(i) =~= steps.take(i));
        law_quit_hook_once(s, before, i);
    }
}

/// A second `Quit` changes nothing and calls nothing.
pub proof fn law_second_quit_is_inert(s: ThreadState, first: Outcome, second: Outcome)
    ensures
        next(next(s, MsgKind::Quit, first), MsgKind::Quit, second) == next(
            s,
            MsgKind::Quit,
            first,
        ),
        effects(next(s, MsgKind::Quit, first), MsgKind::Quit, second) == Seq::<Effect>::empty(),
{
}

/// Starting the render loop waits once and renders nothing: the frame that
/// came is delivered as it is, and a device without frames stops the worker.
pub proof fn law_start_render_loop(s: ThreadState, o: Outcome)
    requires
        s.running,
    ensures
        renders(effects(s, MsgKind::StartRenderLoop, o)) == 0,
        next(s, MsgKind::StartRenderLoop, o).running == (o.frame is Some),
        delivered(effects(s, MsgKind::StartRenderLoop, o)) == match o.frame {
            Some(frame) => seq![frame],
            None => Seq::<Frame>::empty(),
        },
{
    reveal_with_fuel(renders, 4);
    lemma_wait_delivers(o, false);
}

/// A wait delivers the frame that came, stamped if asked for, and nothing
/// when none came; it never renders.
proof fn lemma_wait_delivers(o: Outcome, stamp: bool)
    ensures
        renders(wait_effects(o, stamp)) == 0,
        delivered(wait_effects(o, stamp)) == match o.frame {
            Some(frame) => seq![if stamp { stamped(frame, o.stamp) } else { frame }],
            None => Seq::<Frame>::empty(),
        },
{
    reveal_with_fuel(renders, 4);
    reveal_with_fuel(delivered, 4);
    let e = wait_effects(o, stamp);
    match o.frame {
        Some(frame) => {
            assert(e.drop_last() =~= seq![Effect::Wait]);
            assert(delivered(e) =~= seq![if stamp { stamped(frame, o.stamp) } else { frame }]);
        },
        None => {
            assert(delivered(e) =~= Seq::<Frame>::empty());
        },
    }
}

/// An animation frame renders once if a swap chain is bound and has a
/// surface to give, and not at all otherwise, which is no error. Either way
/// the worker then waits: the frame that came is delivered with the clock's
/// reading on it, and a device without frames stops the worker.
pub proof fn law_animation_frame(s: ThreadState, sent_time: u64, o: Outcome)
    requires
        s.running,
        s.frame_count < u64::MAX,
    ensures
        renders(effects(s, MsgKind::RenderAnimationFrame(sent_time), o)) == if s.bound is Some
            && o.surface {
            1nat
        } else {
            0nat
        },
        delivered(effects(s, MsgKind::RenderAnimationFrame(sent_time), o)) == match o.frame {
            Some(frame) => seq![stamped(frame, o.stamp)],
            None => Seq::<Frame>::empty(),
        },
        next(s, MsgKind::RenderAnimationFrame(sent_time), o).running == (o.frame is Some),
        next(s, MsgKind::RenderAnimationFrame(sent_time), o).frame_count == s.frame_count + 1,
{
    reveal_with_fuel(renders, 5);
    reveal_with_fuel(delivered, 5);
    let r = render_effects(s, o);
    let w = wait_effects(o, true);
    lemma_wait_delivers(o, true);
    lemma_renders_concat(r, w);
    lemma_delivered_concat(r, w);
    assert(delivered(r) =~= Seq::<Frame>::empty());
    assert(delivered(r) + delivered(w) =~= delivered(w));
}

/// After the worker has stopped nothing more is delivered or rendered, and
/// the device is not asked to wait again.
pub proof fn law_nothing_after_the_stop(s: ThreadState, steps: Seq<Step>, i: int)
    requires
        0 <= i <= steps.len(),
        !replay(s, steps.take(i)).running,
    ensures
        trace(s, steps) == trace(s, steps.take(i)),
    decreases steps.len() - i,
{
    if i == steps.len() {
        assert(steps.take(i) =~= steps);
    } else {
        let before = steps.drop_last();
        assert(before.take(i) =~= steps.take(i));
        law_nothing_after_the_stop(s, before, i);
        law_never_resumes(s, before, i);
        assert(trace(s, steps) =~= trace(s, before));
    }
}

/// Whether handling `m` in state `s` has the device wait for a frame.
pub open spec fn waits(s: ThreadState, m: MsgKind) -> bool {
    s.running && (m is StartRenderLoop || (m is RenderAnimationFrame && s.frame_count
        < u64::MAX))
}

/// How many frames the device hands out while `steps` are handled from `s`.
pub open spec fn frames_obtained(s: ThreadState, steps: Seq<Step>) -> nat
    decreases steps.len(),
{
    if steps.len() == 0 {
        0
    } else {
        frames_obtained(s, steps.drop_last()) + if waits(
            replay(s, steps.drop_last()),
            steps.last().msg,
        ) && steps.last().outcome.frame is Some {
            1nat
        } else {
            0nat
        }
    }
}

/// Handling one message delivers one frame if the device was asked to wait
/// and had a frame, and none otherwise.
proof fn lemma_delivered_of_step(s: ThreadState, m: MsgKind, o: Outcome)
    ensures
        delivered(effects(s, m, o)).len() == if waits(s, m) && o.frame is Some {
            1nat
        } else {
            0nat
        },
{
    reveal_with_fuel(delivered, 4);
    if s.running {
        match m {
            MsgKind::StartRenderLoop => {
                law_start_render_loop(s, o);
            },
            MsgKind::RenderAnimationFrame(sent_time) => {
                if s.frame_count < u64::MAX {
                    law_animation_frame(s, sent_time, o);
                }
            },
            _ => {},
        }
    }
}

/// Every frame that the device hands out is delivered, and nothing else is:
/// after any steps, as many frames are on the delivery channel as waits
/// have given one.
pub proof fn law_every_frame_is_delivered(s: ThreadState, steps: Seq<Step>)
    ensures
        delivered(trace(s, steps)).len() == frames_obtained(s, steps),
    decreases steps.len(),
{
    if steps.len() > 0 {
        let before = steps.drop_last();
        let last = steps.last();
        law_every_frame_is_delivered(s, before);
        lemma_delivered_concat(
            trace(s, before),
            effects(replay(s, before), last.msg, last.outcome),
        );
        lemma_delivered_of_step(replay(s, before), last.msg, last.outcome);
    }
}

/// A device that has no frame when it is asked to wait stops the worker for
/// good: whatever arrives later, the worker stays stopped and calls
/// nothing, so that exactly the frames of the waits before are delivered.
pub proof fn law_exhaustion_stops(s: ThreadState, steps: Seq<Step>, i: int)
    requires
        0 <= i < steps.len(),
        waits(replay(s, steps.take(i)), steps[i].msg),
        steps[i].outcome.frame is None,
    ensures
        !replay(s, steps).running,
        trace(s, steps) == trace(s, steps.take(i + 1)),
        delivered(trace(s, steps)).len() == frames_obtained(s, steps.take(i)),
{
    let upto = steps.take(i + 1);
    assert(upto.drop_last() =~= steps.take(i));
    assert(upto.last() == steps[i]);
    law_never_resumes(s, steps, i + 1);
    law_nothing_after_the_stop(s, steps, i + 1);
    law_every_frame_is_delivered(s, upto);
}

/// Whether handling `m` in the running state `s` with the answers `o` stops
/// the worker: a `Quit` does, a wait that gives no frame does, and so does
/// an animation frame that the counter cannot count any more.
pub open spec fn halts(s: ThreadState, m: MsgKind, o: Outcome) -> bool {
    ||| m is Quit
    ||| waits(s, m) && o.frame is None
    ||| m is RenderAnimationFrame && s.frame_count == u64::MAX
}

/// None of `steps` stops the worker that handles them from `s`.
pub open spec fn none_halts(s: ThreadState, steps: Seq<Step>) -> bool {
    forall|i: int|
        0 <= i < steps.len() ==> !halts(
            #[trigger] replay(s, steps.take(i)),
            steps[i].msg,
            steps[i].outcome,
        )
}

/// The worker is running exactly as long as it was running at the start and
/// no step has stopped it.
pub proof fn law_running_until_halted(s: ThreadState, steps: Seq<Step>)
    ensures
        replay(s, steps).running <==> s.running && none_halts(s, steps),
    decreases steps.len(),
{
    if steps.len() == 0 {
    } else {
        let n = steps.len() - 1;
        let before = steps.drop_last();
        law_running_until_halted(s, before);
        assert(steps.take(n) =~= before);
        assert forall|i: int| 0 <= i < before.len() implies #[trigger] before.take(i)
            == steps.take(i) && before[i] == steps[i] by {
            assert(before.take(i) =~= steps.take(i));
        }
        if s.running && none_halts(s, steps) {
            assert forall|i: int| 0 <= i < before.len() implies !halts(
                #[trigger] replay(s, before.take(i)),
                before[i].msg,
                before[i].outcome,
            ) by {
                assert(before.take(i) == steps.take(i));
                assert(!halts(replay(s, steps.take(i)), steps[i].msg, steps[i].outcome));
            }
            assert(!halts(replay(s, steps.take(n)), steps[n].msg, steps[n].outcome));
        }
        if replay(s, steps).running {
            assert(replay(s, before).running);
            assert forall|i: int| 0 <= i < steps.len() implies !halts(
                #[trigger] replay(s, steps.take(i)),
                steps[i].msg,
                steps[i].outcome,
            ) by {
                if i < n {
                    assert(before.take(i) == steps.take(i));
                    assert(!halts(replay(s, before.take(i)), before[i].msg, before[i].outcome));
                }
            }
        }
    }
}

/// A worker whose device ran out of frames has stopped: it is marked as
/// exhausted only by a wait that gave no frame, which stops it.
pub proof fn law_exhausted_means_stopped(s: ThreadState, steps: Seq<Step>)
    requires
        s.exhausted ==> !s.running,
    ensures
        replay(s, steps).exhausted ==> !replay(s, steps).running,
        replay(s, steps).exhausted && !s.exhausted ==> exists|i: int|
            0 <= i < steps.len() && waits(#[trigger] replay(s, steps.take(i)), steps[i].msg)
                && steps[i].outcome.frame is None,
    decreases steps.len(),
{
    if steps.len() > 0 {
        let n = steps.len() - 1;
        let before = steps.drop_last();
        law_exhausted_means_stopped(s, before);
        assert(steps.take(n) =~= before);
        if replay(s, steps).exhausted && !s.exhausted {
            if replay(s, before).exhausted {
                let i = choose|i: int|
                    0 <= i < before.len() && waits(
                        #[trigger] replay(s, before.take(i)),
                        before[i].msg,
                    ) && before[i].outcome.frame is None;
                assert(before.take(i) =~= steps.take(i));
                assert(waits(replay(s, steps.take(i)), steps[i].msg));
            } else {
                assert(waits(replay(s, steps.take(n)), steps[n].msg));
            }
        }
    }
}

} // verus!
