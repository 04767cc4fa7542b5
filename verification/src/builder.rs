use vstd::prelude::*;
use std::sync::mpsc::Receiver;
use std::sync::mpsc::Sender;
use crate::channel::came;
use crate::channel::recv;
use crate::channel::send;
use crate::channel::was_sent;
use crate::device::DeviceAPI;
use crate::device::SwapChainsAPI;
use crate::error::Error;
use crate::frame::Frame;
use crate::model::initial;
use crate::model::MsgKind;
use crate::model::taken_while_running;
use crate::model::Step;
use crate::session::Quitter;
use crate::session::Session;
use crate::session::SessionMsg;
use crate::worker::reports;
use crate::worker::CooperativeSession;
use crate::worker::SessionThread;
use crate::worker::TIMEOUT_MS;

verus! {

/// Builds sessions, either for a worker on a thread of its own or for one
/// that the host steps on the calling thread.
pub struct SessionBuilder<'a, SwapChains: 'a> {
    /// The registry that the sessions look their swap chains up in.
    pub swap_chains: &'a SwapChains,
    /// The sessions that the host steps itself.
    pub sessions: &'a mut Vec<CooperativeSession>,
    /// Where the sessions deliver their frames.
    pub frame_sender: Sender<Frame>,
}

/// What the caller of a spawn gets: the worker's answer, or a communication
/// error if the worker went away without one.
pub open spec fn settled(ack: Option<Result<Session, Error>>) -> Result<Session, Error> {
    match ack {
        Some(answer) => answer,
        None => Err(Error::CommunicationError),
    }
}

/// Turns what came over the acknowledgment channel into the result of the
/// spawn.
pub fn settle(ack: Option<Result<Session, Error>>) -> (r: Result<Session, Error>)
    ensures
        r == settled(ack),
{
    match ack {
        Some(answer) => answer,
        None => Err(Error::CommunicationError),
    }
}

/// Waits for the worker's answer to a spawn. A worker that went away without
/// an answer gives a communication error.
pub fn acknowledged(ackr: &Receiver<Result<Session, Error>>) -> (r: Result<Session, Error>)
    ensures
        exists|ack: Option<Result<Session, Error>>| #[trigger] came(*ackr, ack) && r == settled(ack),
{
    let ack = recv(ackr);
    assert(came(*ackr, ack));
    settle(ack)
}

/// What the worker's side of a spawn begins with: the answer for the caller
/// and, with a device, the worker that goes on to handle messages. With a
/// device the answer is a handle that has cached what the device reports
/// and sends to this worker; the device has been given a quitter for this
/// worker, and the worker has handled nothing yet. Without a device the
/// answer is the error that came in its place, and there is no worker.
pub fn start<Device, SwapChains>(
    made: Result<Device, Error>,
    swap_chains: SwapChains,
    frame_sender: Sender<Frame>,
) -> (begun: (Result<Session, Error>, Option<SessionThread<Device, SwapChains>>)) where
    Device: DeviceAPI<SwapChains::Surface>,
    SwapChains: SwapChainsAPI,

    ensures
        match made {
            Err(err) => begun.0 == Err::<Session, Error>(err) && begun.1 is None,
            Ok(device) => {
                &&& begun.0 is Ok
                &&& begun.1 is Some
                &&& begun.1->Some_0.wf()
                &&& begun.1->Some_0.history() == Seq::<Step>::empty()
                &&& begun.1->Some_0.misses() == 0
                &&& begun.1->Some_0.registry_view() == swap_chains
                &&& begun.1->Some_0.frame_channel() == frame_sender
                &&& begun.1->Some_0.swap_chain_view() is None
                &&& begun.1->Some_0.timeout_ms() == TIMEOUT_MS
                &&& begun.0->Ok_0@.sent == Seq::<MsgKind>::empty()
                &&& cloned(begun.1->Some_0.channel(), begun.0->Ok_0.channel())
                &&& reports::<SwapChains::Surface, Device>(
                    begun.1->Some_0.device_view(),
                    begun.0->Ok_0@,
                )
                &&& exists|m: &mut Device, quitter: Quitter|
                    mut_ref_current(m) == device && mut_ref_future(m)
                        == begun.1->Some_0.device_view() && cloned(
                        begun.1->Some_0.channel(),
                        quitter.channel(),
                    ) && #[trigger] call_ensures(Device::set_quitter, (m, quitter), ())
            },
        },
{
    let started = match made {
        Ok(device) => SessionThread::new(device, swap_chains, frame_sender),
        Err(err) => Err(err),
    };
    match started {
        Ok(thread) => {
            let mut thread = thread;
            let session = thread.new_session();
            (Ok(session), Some(thread))
        },
        Err(err) => (Err(err), None),
    }
}

/// The worker's side of a session on a thread of its own. It sends on `acks`
/// the answer that `start` gives. With a device, it then handles messages
/// until the worker stops or its channel is closed, and returns the worker
/// as it ended. Without a device it returns at once.
pub fn serve<Device, SwapChains>(
    made: Result<Device, Error>,
    swap_chains: SwapChains,
    frame_sender: Sender<Frame>,
    acks: Sender<Result<Session, Error>>,
) -> (ended: Option<SessionThread<Device, SwapChains>>) where
    Device: DeviceAPI<SwapChains::Surface>,
    SwapChains: SwapChainsAPI,

    ensures
        ended is None <==> made is Err,
        match made {
            Err(err) => was_sent(acks, Err::<Session, Error>(err)),
            Ok(device) => exists|
                session: Session,
                m: &mut Device,
                quitter: Quitter,
                ws: Seq<SessionThread<Device, SwapChains>>,
            |
                #![trigger
                    was_sent(acks, Ok::<Session, Error>(session)),
                    call_ensures(Device::set_quitter, (m, quitter), ()),
                    ws.len(),
                ]
                was_sent(acks, Ok::<Session, Error>(session)) && session@.sent == Seq::<
                    MsgKind,
                >::empty() && mut_ref_current(m) == device && call_ensures(
                    Device::set_quitter,
                    (m, quitter),
                    (),
                ) && cloned(ended->Some_0.channel(), quitter.channel()) && cloned(
                    ended->Some_0.channel(),
                    session.channel(),
                ) && reports::<SwapChains::Surface, Device>(mut_ref_future(m), session@)
                    && ws.len() == ended->Some_0.history().len() + 1 && ws[0].wf()
                    && ws[0].history() == Seq::<Step>::empty() && ws[0].misses() == 0
                    && ws[0].device_view() == mut_ref_future(m) && ws[0].swap_chain_view() is None
                    && ended->Some_0.but_misses(ws.last()) && forall|i: int|
                    #![trigger ws[i]]
                    0 <= i < ws.len() - 1 ==> exists|
                        w: &mut SessionThread<Device, SwapChains>,
                        msg: SessionMsg,
                        keep: bool,
                    |
                        #![trigger
                            call_ensures(
                                SessionThread::<Device, SwapChains>::handle_msg,
                                (w, msg),
                                keep,
                            ),
                        ]
                        mut_ref_current(w) == ws[i] && mut_ref_future(w) == ws[i + 1] && came(
                            ws[0].receiver_view(),
                            Some(msg),
                        ) && call_ensures(
                            SessionThread::<Device, SwapChains>::handle_msg,
                            (w, msg),
                            keep,
                        ),
        },
        ended is Some ==> {
            &&& ended->Some_0.wf()
            &&& taken_while_running(initial(), ended->Some_0.history(), 0)
            &&& crate::worker::ended(
                ended->Some_0.state().running,
                0,
                ended->Some_0.misses(),
                0,
                ended->Some_0.history().len(),
            )
            &&& ended->Some_0.registry_view() == swap_chains
            &&& ended->Some_0.frame_channel() == frame_sender
            &&& ended->Some_0.timeout_ms() == TIMEOUT_MS
        },
{
    let (answer, worker) = start(made, swap_chains, frame_sender);
    let sent = send(&acks, answer);
    assert(was_sent(acks, answer)) by {
        assert(call_ensures(send::<Result<Session, Error>>, (&acks, answer), sent));
    }
    match worker {
        Some(thread) => {
            let mut thread = thread;
            thread.run();
            Some(thread)
        },
        None => None,
    }
}

/// `after` is `before` with one more session at its end, which is valid and
/// running and has handled nothing yet.
pub open spec fn enlisted(before: Seq<CooperativeSession>, after: Seq<CooperativeSession>) -> bool {
    &&& after.len() == before.len() + 1
    &&& after.drop_last() == before
    &&& after.last().valid()
    &&& !after.last().stopped()
    &&& after.last().frames_started() == 0
    &&& after.last().messages_handled() == 0
    &&& after.last().empty_receives() == 0
}

impl<'a, SwapChains> SessionBuilder<'a, SwapChains> where SwapChains: SwapChainsAPI {
    /// A builder for sessions that draw to swap chains of `swap_chains`,
    /// deliver their frames to `frame_sender`, and are added to `sessions`
    /// when they are to be stepped by the host.
    pub fn new(
        swap_chains: &'a SwapChains,
        sessions: &'a mut Vec<CooperativeSession>,
        frame_sender: Sender<Frame>,
    ) -> (builder: Self)
        ensures
            builder.swap_chains == swap_chains,
            builder.frame_sender == frame_sender,
            *builder.sessions == *old(sessions),
            *final(builder.sessions) == *final(sessions),
    {
        SessionBuilder { swap_chains, sessions, frame_sender }
    }

    /// Makes a worker for `device`, adds it to the host's sessions, to be
    /// stepped from there, and returns the handle for the content side.
    pub fn enlist<Device>(self, device: Device) -> (session: Session) where
        Device: DeviceAPI<SwapChains::Surface> + 'static,
        SwapChains: 'static,

        ensures
            enlisted(old(self.sessions)@, final(self.sessions)@),
            session@.sent == Seq::<MsgKind>::empty(),
            exists|m: &mut Device, quitter: Quitter, own: Sender<SessionMsg>|
                mut_ref_current(m) == device && #[trigger] call_ensures(
                    Device::set_quitter,
                    (m, quitter),
                    (),
                ) && #[trigger] cloned(own, quitter.channel()) && cloned(own, session.channel())
                    && reports::<SwapChains::Surface, Device>(mut_ref_future(m), session@),
    {
        let SessionBuilder { swap_chains, sessions, frame_sender } = self;
        let mut session_thread = SessionThread::with_timeout(
            device,
            swap_chains.clone(),
            frame_sender,
            TIMEOUT_MS,
        );
        let session = session_thread.new_session();
        sessions.push(CooperativeSession::new(session_thread));
        assert(sessions@.drop_last() =~= old(self.sessions)@);
        session
    }

    /// For a device that has to be driven from the calling thread. The
    /// device is made here and now; its worker is added to the host's
    /// sessions, to be stepped from there, and the handle is returned at
    /// once. If `factory` fails, its error is returned and nothing is added.
    pub fn run_on_main_thread<Device, Factory>(self, factory: Factory) -> (r: Result<
        Session,
        Error,
    >) where
        Factory: 'static + FnOnce() -> Result<Device, Error>,
        Device: DeviceAPI<SwapChains::Surface> + 'static,
        SwapChains: 'static,

        requires
            factory.requires(()),
        ensures
            match r {
                Ok(session) => {
                    &&& enlisted(old(self.sessions)@, final(self.sessions)@)
                    &&& session@.sent == Seq::<MsgKind>::empty()
                    &&& exists|device: Device| #[trigger]
                        factory.ensures((), Ok::<Device, Error>(device)) && exists|
                            m: &mut Device,
                            quitter: Quitter,
                            own: Sender<SessionMsg>,
                        |
                            mut_ref_current(m) == device && #[trigger] call_ensures(
                                Device::set_quitter,
                                (m, quitter),
                                (),
                            ) && #[trigger] cloned(own, quitter.channel()) && cloned(
                                own,
                                session.channel(),
                            ) && reports::<SwapChains::Surface, Device>(
                                mut_ref_future(m),
                                session@,
                            )
                },
                Err(err) => {
                    &&& factory.ensures((), Err::<Device, Error>(err))
                    &&& final(self.sessions)@ == old(self.sessions)@
                },
            },
    {
        match factory() {
            Ok(device) => Ok(self.enlist(device)),
            Err(err) => Err(err),
        }
    }
}

} // verus!
