//! The streaming side: hub fan-out and backpressure, the session state
//! machine and its two paths, frame ingest, and the live channel.

use relay_core::hub::{FrameHub, RecvOutcome, HUB_CAPACITY};
use relay_core::relay::handle_ingest;
use relay_core::livehub::LiveHub;
use relay_core::session::{
    Incoming, Outgoing, PathId, SendPoll, Session, SessionCommand, SessionEvent, SessionPhase,
};

fn ready_frame(r: RecvOutcome) -> Vec<u8> {
    match r {
        RecvOutcome::Ready(f) => f,
        RecvOutcome::Lagged(n) => panic!("lagged by {n}"),
        RecvOutcome::Quiet => panic!("quiet"),
    }
}

fn active_session(hub: &FrameHub) -> Session {
    let mut s = Session::accept(hub);
    assert!(matches!(s.lifecycle(SessionEvent::Upgraded), SessionCommand::StartPaths));
    assert_eq!(s.phase_now(), SessionPhase::Active);
    s
}

#[test]
fn fan_out_to_every_subscriber_in_order() {
    let mut hub = FrameHub::new();
    let mut one = hub.subscribe();
    let mut two = hub.subscribe();
    hub.publish(vec![1]);
    hub.publish(vec![2]);
    hub.publish(vec![3]);
    for sub in [&mut one, &mut two] {
        assert_eq!(ready_frame(hub.poll(sub)), vec![1]);
        assert_eq!(ready_frame(hub.poll(sub)), vec![2]);
        assert_eq!(ready_frame(hub.poll(sub)), vec![3]);
        assert!(matches!(hub.poll(sub), RecvOutcome::Quiet));
    }
}

#[test]
fn publish_with_no_subscriber_is_a_quiet_success() {
    let mut hub = FrameHub::new();
    hub.publish(vec![9, 9, 9]);
    // A later subscriber only observes frames published after it arrived.
    let mut sub = hub.subscribe();
    assert!(matches!(hub.poll(&mut sub), RecvOutcome::Quiet));
    hub.publish(vec![1]);
    assert_eq!(ready_frame(hub.poll(&mut sub)), vec![1]);
}

#[test]
fn lagging_subscriber_loses_only_the_oldest() {
    let mut hub = FrameHub::new();
    let mut sub = hub.subscribe();
    let extra = 5;
    for i in 0..(HUB_CAPACITY + extra) {
        hub.publish(vec![(i % 251) as u8]);
    }
    match hub.poll(&mut sub) {
        RecvOutcome::Lagged(n) => assert_eq!(n, extra as u64),
        _ => panic!("expected a lag report"),
    }
    // The oldest retained frame follows, then the rest in publish order.
    assert_eq!(ready_frame(hub.poll(&mut sub)), vec![(extra % 251) as u8]);
    // Newly published frames still arrive afterwards.
    for _ in 0..HUB_CAPACITY - 1 {
        ready_frame(hub.poll(&mut sub));
    }
    assert!(matches!(hub.poll(&mut sub), RecvOutcome::Quiet));
    hub.publish(vec![42]);
    assert_eq!(ready_frame(hub.poll(&mut sub)), vec![42]);
}

#[test]
fn either_path_ending_cancels_the_sibling() {
    let hub = FrameHub::new();
    for ended in [PathId::Inbound, PathId::Outbound] {
        let mut s = active_session(&hub);
        let cmd = s.lifecycle(SessionEvent::PathEnded(ended));
        let expected = match ended {
            PathId::Inbound => PathId::Outbound,
            PathId::Outbound => PathId::Inbound,
        };
        assert_eq!(cmd, SessionCommand::CancelPath(expected));
        assert_eq!(s.phase_now(), SessionPhase::Closing);
        assert_eq!(s.lifecycle(SessionEvent::SiblingCancelled), SessionCommand::Stay);
        assert_eq!(s.phase_now(), SessionPhase::Closed);
        // Closed is terminal.
        assert_eq!(s.lifecycle(SessionEvent::Upgraded), SessionCommand::Stay);
        assert_eq!(s.phase_now(), SessionPhase::Closed);
    }
}

#[test]
fn close_ends_the_receive_path() {
    let mut hub = FrameHub::new();
    let mut s = active_session(&hub);
    assert!(s.on_incoming(&mut hub, Incoming::ConnClose));
    assert!(!s.on_incoming(&mut hub, Incoming::Other));
}

#[test]
fn ping_is_answered_by_the_send_path_only() {
    let mut hub = FrameHub::new();
    let mut s = active_session(&hub);
    assert!(!s.on_incoming(&mut hub, Incoming::Ping(vec![7, 8])));
    match s.next_outgoing(&hub, true) {
        SendPoll::Write(Outgoing::Pong(p)) => assert_eq!(p, vec![7, 8]),
        _ => panic!("expected the queued keepalive acknowledgement"),
    }
    assert!(matches!(s.next_outgoing(&hub, true), SendPoll::Idle));
}

#[test]
fn incoming_binary_is_published_to_every_session() {
    let mut hub = FrameHub::new();
    let mut producer = active_session(&hub);
    let mut watcher_a = active_session(&hub);
    let mut watcher_b = active_session(&hub);
    assert!(!producer.on_incoming(&mut hub, Incoming::Binary(vec![1, 2])));
    for w in [&mut watcher_a, &mut watcher_b] {
        match w.next_outgoing(&hub, false) {
            SendPoll::Write(Outgoing::Frame(f)) => assert_eq!(f, vec![1, 2]),
            _ => panic!("expected the broadcast frame"),
        }
    }
}

#[test]
fn fairness_choice_picks_the_winner_when_both_are_ready() {
    let mut hub = FrameHub::new();
    let mut s = active_session(&hub);
    assert!(!s.on_incoming(&mut hub, Incoming::Ping(vec![5])));
    hub.publish(vec![6]);
    // Control preferred: the acknowledgement goes out first.
    match s.next_outgoing(&hub, true) {
        SendPoll::Write(Outgoing::Pong(p)) => assert_eq!(p, vec![5]),
        _ => panic!("expected the acknowledgement first"),
    }
    match s.next_outgoing(&hub, true) {
        SendPoll::Write(Outgoing::Frame(f)) => assert_eq!(f, vec![6]),
        _ => panic!("expected the frame next"),
    }
    // Frames preferred: the order flips.
    assert!(!s.on_incoming(&mut hub, Incoming::Ping(vec![5])));
    hub.publish(vec![6]);
    match s.next_outgoing(&hub, false) {
        SendPoll::Write(Outgoing::Frame(f)) => assert_eq!(f, vec![6]),
        _ => panic!("expected the frame first"),
    }
    match s.next_outgoing(&hub, false) {
        SendPoll::Write(Outgoing::Pong(p)) => assert_eq!(p, vec![5]),
        _ => panic!("expected the acknowledgement next"),
    }
}

#[test]
fn ingest_publishes_and_acknowledges() {
    let mut hub = FrameHub::new();
    let mut one = active_session(&hub);
    let mut two = active_session(&hub);
    let ack = handle_ingest(&mut hub, vec![0x01, 0x02]);
    assert_eq!(ack, b"{\"status\":\"ok\"}".to_vec());
    for s in [&mut one, &mut two] {
        match s.next_outgoing(&hub, false) {
            SendPoll::Write(Outgoing::Frame(f)) => assert_eq!(f, vec![0x01, 0x02]),
            _ => panic!("expected the ingested frame"),
        }
    }
}

#[test]
fn live_ingest_reaches_every_receiver() {
    let mut live = LiveHub::new();
    let mut rx_one = live.subscribe();
    let mut rx_two = live.subscribe();
    let ack = live.ingest(vec![0x01, 0x02]);
    assert_eq!(ack, b"{\"status\":\"ok\"}".to_vec());
    assert_eq!(rx_one.try_recv().unwrap(), vec![0x01, 0x02]);
    assert_eq!(rx_two.try_recv().unwrap(), vec![0x01, 0x02]);
}

#[test]
fn live_ingest_without_receivers_still_acknowledges() {
    let mut live = LiveHub::new();
    let ack = live.ingest(vec![9]);
    assert_eq!(ack, b"{\"status\":\"ok\"}".to_vec());
}

#[test]
fn live_subscriber_sees_only_later_frames_in_order() {
    let mut live = LiveHub::new();
    live.ingest(vec![0]);
    let mut rx = live.subscribe();
    live.ingest(vec![1]);
    live.ingest(vec![2]);
    assert_eq!(rx.try_recv().unwrap(), vec![1]);
    assert_eq!(rx.try_recv().unwrap(), vec![2]);
    assert!(rx.try_recv().is_err());
}
