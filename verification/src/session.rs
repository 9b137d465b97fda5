//! One live duplex connection: its lifecycle state machine, the control
//! conduit its receive path uses to ask the send path for protocol-control
//! replies, and the per-step decisions of both paths.
//!
//! The async shell around the library owns the physical connection: it reads
//! and writes, awaits readiness and performs the actions decided here. Every
//! decision — what an incoming message does, what the send path writes next,
//! when a path's end tears the sibling down — is made by the functions of
//! this module.

use vstd::prelude::*;

use crate::hub::{FrameHub, RecvOutcome, RecvOutcomeView, Subscriber, recv_spec};

verus! {

/// One of the two concurrent paths of a session.
#[derive(Clone, Copy, PartialEq, Eq, Structural, Debug)]
pub enum PathId {
    /// The path that reads from the connection.
    Inbound,
    /// The path that writes to the connection.
    Outbound,
}

impl PathId {
    /// The sibling path.
    pub open spec fn spec_sibling(self) -> PathId {
        match self {
            PathId::Inbound => PathId::Outbound,
            PathId::Outbound => PathId::Inbound,
        }
    }

    /// The sibling path.
    pub fn sibling(self) -> (r: PathId)
        ensures
            r == self.spec_sibling(),
    {
        match self {
            PathId::Inbound => PathId::Outbound,
            PathId::Outbound => PathId::Inbound,
        }
    }
}

/// Where a session stands in its life. `Closed` is terminal.
#[derive(Clone, Copy, PartialEq, Eq, Structural, Debug)]
pub enum SessionPhase {
    /// The connection upgrade has not completed yet.
    Connecting,
    /// Both paths run.
    Active,
    /// One path ended; the sibling is being cancelled.
    Closing,
    /// Both paths are gone.
    Closed,
}

/// A lifecycle event observed by the shell that runs the session.
#[derive(Clone, Copy, PartialEq, Eq, Structural, Debug)]
pub enum SessionEvent {
    /// The protocol upgrade of the underlying connection succeeded.
    Upgraded,
    /// The named path ended: normal close, error, or connection failure.
    PathEnded(PathId),
    /// The cancelled sibling path is confirmed gone.
    SiblingCancelled,
}

/// What the shell must do after a lifecycle step.
#[derive(Clone, Copy, PartialEq, Eq, Structural, Debug)]
pub enum SessionCommand {
    /// Start the two paths against the now-active session.
    StartPaths,
    /// Forcibly cancel the named path, immediately and unconditionally.
    CancelPath(PathId),
    /// Nothing to do.
    Stay,
}

/// The lifecycle step function: `Connecting → Active → Closing → Closed`.
/// Either path ending while active moves the session to `Closing` and
/// demands the cancellation of the sibling, so a session never leaks a
/// background path after its connection is gone. Any event not named by a
/// phase's transitions leaves the phase unchanged.
pub open spec fn phase_step_spec(p: SessionPhase, e: SessionEvent) -> (SessionPhase, SessionCommand) {
    match (p, e) {
        (SessionPhase::Connecting, SessionEvent::Upgraded) => (
            SessionPhase::Active,
            SessionCommand::StartPaths,
        ),
        (SessionPhase::Active, SessionEvent::PathEnded(which)) => (
            SessionPhase::Closing,
            SessionCommand::CancelPath(which.spec_sibling()),
        ),
        (SessionPhase::Closing, SessionEvent::SiblingCancelled) => (
            SessionPhase::Closed,
            SessionCommand::Stay,
        ),
        (SessionPhase::Closing, SessionEvent::PathEnded(_)) => (
            SessionPhase::Closed,
            SessionCommand::Stay,
        ),
        _ => (p, SessionCommand::Stay),
    }
}

/// A message read from the connection, as the receive path classifies it.
pub enum Incoming {
    /// The peer closed the connection.
    ConnClose,
    /// A keepalive probe carrying this payload.
    Ping(Vec<u8>),
    /// A binary frame produced by the peer.
    Binary(Vec<u8>),
    /// Any other message type; ignored.
    Other,
}

/// A message for the send path to write to the connection.
pub enum Outgoing {
    /// A broadcast frame from the hub.
    Frame(Vec<u8>),
    /// A keepalive acknowledgement carrying the probe's payload.
    Pong(Vec<u8>),
}

/// What one send-path step decides.
pub enum SendPoll {
    /// Write this message to the connection.
    Write(Outgoing),
    /// The subscriber lagged: this many oldest frames are gone; nothing is
    /// written, the next step continues at the oldest retained frame.
    SkippedGap(u64),
    /// Neither source is ready; the shell should await readiness.
    Idle,
}

/// One live duplex connection's session state: its phase, the control
/// conduit of queued keepalive acknowledgements (payloads, in arrival
/// order), and the hub subscriber handle feeding its send path.
pub struct Session {
    phase: SessionPhase,
    control: Vec<Vec<u8>>,
    sub: Subscriber,
}

impl Session {
    pub closed spec fn phase(self) -> SessionPhase {
        self.phase
    }

    /// The queued keepalive-acknowledgement payloads, oldest first.
    pub closed spec fn control(self) -> Seq<Seq<u8>> {
        self.control@.map_values(|p: Vec<u8>| p@)
    }

    /// The subscriber position into the hub's publish history.
    pub closed spec fn pos(self) -> int {
        self.sub.pos()
    }

    /// The phase the session currently stands in.
    pub fn phase_now(&self) -> (r: SessionPhase)
        ensures
            r == self.phase(),
    {
        self.phase
    }

    /// A session for a just-accepted connection, before its upgrade
    /// completes.
    pub fn accept(hub: &FrameHub) -> (r: Session)
        requires
            hub.inv(),
        ensures
            r.phase() == SessionPhase::Connecting,
            r.control() == Seq::<Seq<u8>>::empty(),
            r.pos() == hub.hist().len(),
    {
        let r = Session { phase: SessionPhase::Connecting, control: Vec::new(), sub: hub.subscribe() };
        proof {
            assert(r.control() =~= Seq::<Seq<u8>>::empty());
        }
        r
    }

    /// Applies one lifecycle event and returns what the shell must do; the
    /// phase moves exactly as [`phase_step_spec`] says. The control conduit
    /// and the subscriber position are untouched: a session's teardown never
    /// corrupts what it shares with the hub.
    pub fn lifecycle(&mut self, e: SessionEvent) -> (cmd: SessionCommand)
        ensures
            (final(self).phase(), cmd) == phase_step_spec(old(self).phase(), e),
            final(self).control() == old(self).control(),
            final(self).pos() == old(self).pos(),
    {
        let (next, cmd) = match (self.phase, e) {
            (SessionPhase::Connecting, SessionEvent::Upgraded) => (
                SessionPhase::Active,
                SessionCommand::StartPaths,
            ),
            (SessionPhase::Active, SessionEvent::PathEnded(which)) => (
                SessionPhase::Closing,
                SessionCommand::CancelPath(which.sibling()),
            ),
            (SessionPhase::Closing, SessionEvent::SiblingCancelled) => (
                SessionPhase::Closed,
                SessionCommand::Stay,
            ),
            (SessionPhase::Closing, SessionEvent::PathEnded(_)) => (
                SessionPhase::Closed,
                SessionCommand::Stay,
            ),
            _ => (self.phase, SessionCommand::Stay),
        };
        self.phase = next;
        cmd
    }

    /// The receive path's step: classifies one message read from the
    /// connection. A close ends the path. A keepalive probe queues its
    /// acknowledgement onto the control conduit — never answered inline, so
    /// only the send path ever writes to the connection. A binary payload is
    /// published into the hub as a new frame, letting the connection act as
    /// a producer. Anything else is ignored. Returns whether the path ended.
    pub fn on_incoming(&mut self, hub: &mut FrameHub, msg: Incoming) -> (ended: bool)
        requires
            old(self).phase() == SessionPhase::Active,
            old(hub).inv(),
            old(hub).hist().len() < u64::MAX,
        ensures
            final(hub).inv(),
            final(self).phase() == SessionPhase::Active,
            final(self).pos() == old(self).pos(),
            match msg {
                Incoming::ConnClose => {
                    &&& ended
                    &&& final(self).control() == old(self).control()
                    &&& final(hub).hist() == old(hub).hist()
                },
                Incoming::Ping(p) => {
                    &&& !ended
                    &&& final(self).control() == old(self).control().push(p@)
                    &&& final(hub).hist() == old(hub).hist()
                },
                Incoming::Binary(f) => {
                    &&& !ended
                    &&& final(self).control() == old(self).control()
                    &&& final(hub).hist() == old(hub).hist().push(f@)
                },
                Incoming::Other => {
                    &&& !ended
                    &&& final(self).control() == old(self).control()
                    &&& final(hub).hist() == old(hub).hist()
                },
            },
    {
        match msg {
            Incoming::ConnClose => true,
            Incoming::Ping(p) => {
                self.control.push(p);
                proof {
                    assert(final(self).control() =~= old(self).control().push(p@));
                }
                false
            },
            Incoming::Binary(f) => {
                hub.publish(f);
                false
            },
            Incoming::Other => false,
        }
    }

    /// The send path's step: picks what to write next. The two sources — a
    /// pending control acknowledgement and the next broadcast frame — have
    /// no fixed priority: when both are ready, `prefer_control` (the shell's
    /// fairness choice for this step, deliberately unspecified) decides which
    /// is serviced first; callers must not assume a deterministic order. A
    /// control message is taken from the front of the conduit; a frame moves
    /// the subscriber exactly as [`FrameHub::poll`] does.
    pub fn next_outgoing(&mut self, hub: &FrameHub, prefer_control: bool) -> (r: SendPoll)
        requires
            old(self).phase() == SessionPhase::Active,
            hub.inv(),
            0 <= old(self).pos() <= hub.hist().len(),
        ensures
            final(self).phase() == SessionPhase::Active,
            0 <= final(self).pos() <= hub.hist().len(),
            ({
                let ctrl_ready = old(self).control().len() > 0;
                let (outcome, pos2) = recv_spec(hub.hist(), old(self).pos());
                if ctrl_ready && (prefer_control || outcome is Quiet) {
                    &&& (r matches SendPoll::Write(m) && m matches Outgoing::Pong(p) && p@ == old(
                        self,
                    ).control()[0])
                    &&& final(self).control() == old(self).control().drop_first()
                    &&& final(self).pos() == old(self).pos()
                } else {
                    &&& final(self).control() == old(self).control()
                    &&& final(self).pos() == pos2
                    &&& match outcome {
                        RecvOutcomeView::Ready(f) => r matches SendPoll::Write(m) && m matches
                            Outgoing::Frame(fr) && fr@ == f,
                        RecvOutcomeView::Lagged(n) => r matches SendPoll::SkippedGap(k) && k as int
                            == n,
                        RecvOutcomeView::Quiet => r is Idle,
                    }
                }
            }),
    {
        let ctrl_ready = self.control.len() > 0;
        if ctrl_ready && prefer_control {
            let p = self.control.remove(0);
            proof {
                assert(final(self).control() =~= old(self).control().drop_first());
            }
            return SendPoll::Write(Outgoing::Pong(p));
        }
        let polled = hub.poll(&mut self.sub);
        match polled {
            RecvOutcome::Ready(f) => SendPoll::Write(Outgoing::Frame(f)),
            RecvOutcome::Lagged(n) => SendPoll::SkippedGap(n),
            RecvOutcome::Quiet => {
                if ctrl_ready {
                    let p = self.control.remove(0);
                    proof {
                        assert(final(self).control() =~= old(self).control().drop_first());
                    }
                    SendPoll::Write(Outgoing::Pong(p))
                } else {
                    SendPoll::Idle
                }
            },
        }
    }
}

/// Session-teardown law: from an active session, either path ending moves
/// the session to `Closing` with an order to cancel exactly the sibling
/// path, and the sibling's cancellation then closes the session for good —
/// so forcing the receive path to end also ends the send path, and vice
/// versa.
pub proof fn lemma_session_teardown(which: PathId)
    ensures
        phase_step_spec(SessionPhase::Active, SessionEvent::PathEnded(which)) == (
            SessionPhase::Closing,
            SessionCommand::CancelPath(which.spec_sibling()),
        ),
        phase_step_spec(SessionPhase::Closing, SessionEvent::SiblingCancelled).0
            == SessionPhase::Closed,
{
}

/// `Closed` is terminal: no event moves a closed session anywhere, and no
/// command is issued for it.
pub proof fn lemma_closed_is_terminal(e: SessionEvent)
    ensures
        phase_step_spec(SessionPhase::Closed, e) == (SessionPhase::Closed, SessionCommand::Stay),
{
}

} // verus!
