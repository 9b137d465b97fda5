//! The signaling side: mailbox FIFO behaviour, the wire codec, the four
//! role-oriented handlers and the routing table.

use relay_core::mailbox::Mailbox;
use relay_core::msg::{Direction, SignalingMessage};
use relay_core::codec::{encode_message, encode_message_list, parse_message};
use relay_core::relay::{
    handle_receive, handle_send, route, Endpoint, Method, RelayError, RelayMode, Role,
};

fn offer(sdp: &str) -> SignalingMessage {
    SignalingMessage::Offer { sdp: sdp.as_bytes().to_vec() }
}

fn answer(sdp: &str) -> SignalingMessage {
    SignalingMessage::Answer { sdp: sdp.as_bytes().to_vec() }
}

fn ice(candidate: &str) -> SignalingMessage {
    SignalingMessage::IceCandidate { candidate: candidate.as_bytes().to_vec() }
}

#[test]
fn fifo_one_direction() {
    let mut mb = Mailbox::new();
    mb.push(Direction::MobileToDesktop, offer("v=0 first"));
    mb.push(Direction::MobileToDesktop, answer("v=0 second"));
    mb.push(Direction::MobileToDesktop, ice("{\"candidate\":\"c\"}"));
    let drained = mb.drain_all(Direction::MobileToDesktop);
    assert_eq!(drained.len(), 3);
    assert!(matches!(&drained[0], SignalingMessage::Offer { sdp } if sdp == b"v=0 first"));
    assert!(matches!(&drained[1], SignalingMessage::Answer { sdp } if sdp == b"v=0 second"));
    assert!(
        matches!(&drained[2], SignalingMessage::IceCandidate { candidate } if candidate == b"{\"candidate\":\"c\"}")
    );
    // The queue is empty immediately after the drain.
    assert_eq!(mb.drain_all(Direction::MobileToDesktop).len(), 0);
}

#[test]
fn drains_interleaved_with_pushes() {
    let mut mb = Mailbox::new();
    mb.push(Direction::DesktopToMobile, offer("a"));
    let first = mb.drain_all(Direction::DesktopToMobile);
    assert_eq!(first.len(), 1);
    mb.push(Direction::DesktopToMobile, offer("b"));
    mb.push(Direction::DesktopToMobile, offer("c"));
    let second = mb.drain_all(Direction::DesktopToMobile);
    assert_eq!(second.len(), 2);
    assert!(matches!(&second[0], SignalingMessage::Offer { sdp } if sdp == b"b"));
    assert!(matches!(&second[1], SignalingMessage::Offer { sdp } if sdp == b"c"));
}

#[test]
fn directions_are_independent() {
    let mut mb = Mailbox::new();
    mb.push(Direction::MobileToDesktop, offer("only here"));
    // Draining the other direction sees nothing and disturbs nothing.
    assert_eq!(mb.drain_all(Direction::DesktopToMobile).len(), 0);
    let kept = mb.drain_all(Direction::MobileToDesktop);
    assert_eq!(kept.len(), 1);
}

#[test]
fn draining_empty_twice_yields_empty_twice() {
    let mut mb = Mailbox::new();
    assert_eq!(mb.drain_all(Direction::MobileToDesktop).len(), 0);
    assert_eq!(mb.drain_all(Direction::MobileToDesktop).len(), 0);
}

#[test]
fn parse_offer() {
    let body = b"{\"type\":\"offer\",\"sdp\":\"v=0...\"}";
    let m = parse_message(body).expect("well-formed offer");
    assert!(matches!(&m, SignalingMessage::Offer { sdp } if sdp == b"v=0..."));
}

#[test]
fn parse_answer() {
    let body = b"{\"type\":\"answer\",\"sdp\":\"v=0 answer\"}";
    let m = parse_message(body).expect("well-formed answer");
    assert!(matches!(&m, SignalingMessage::Answer { sdp } if sdp == b"v=0 answer"));
}

#[test]
fn parse_ice_candidate_keeps_raw_value() {
    let body = b"{\"type\":\"ice-candidate\",\"candidate\":{\"candidate\":\"cand 1\",\"sdpMid\":\"0\"}}";
    let m = parse_message(body).expect("well-formed candidate");
    assert!(
        matches!(&m, SignalingMessage::IceCandidate { candidate }
            if candidate == b"{\"candidate\":\"cand 1\",\"sdpMid\":\"0\"}")
    );
}

#[test]
fn parse_unescapes_sdp() {
    let body = b"{\"type\":\"offer\",\"sdp\":\"a=x\\r\\nb=\\\"q\\\" c\\\\d\\t\\/\"}";
    let m = parse_message(body).expect("escapes are accepted");
    assert!(matches!(&m, SignalingMessage::Offer { sdp } if sdp == b"a=x\r\nb=\"q\" c\\d\t/"));
}

#[test]
fn parse_rejects_malformed_bodies() {
    let cases: [&[u8]; 8] = [
        b"",
        b"not json at all",
        b"{\"type\":\"chat\",\"sdp\":\"v=0\"}",
        b"{\"type\":\"offer\",\"sdp\":\"unterminated}",
        b"{\"type\":\"offer\",\"sdp\":\"v=0\"} trailing",
        b"{\"type\":\"offer\",\"sdp\":\"bad\\escape\"}",
        b"{\"type\":\"ice-candidate\",\"candidate\":}",
        b"{\"type\":\"offer\",\"sdp\":\"ctrl\x01byte\"}",
    ];
    for body in cases {
        assert!(parse_message(body).is_none(), "accepted: {:?}", body);
    }
}

#[test]
fn encode_offer_exact_bytes() {
    let bytes = encode_message(&offer("v=0..."));
    assert_eq!(bytes, b"{\"type\":\"offer\",\"sdp\":\"v=0...\"}".to_vec());
}

#[test]
fn encode_escapes_sdp() {
    let bytes = encode_message(&offer("a\r\n\"q\" \\d\t"));
    assert_eq!(
        bytes,
        b"{\"type\":\"offer\",\"sdp\":\"a\\r\\n\\\"q\\\" \\\\d\\t\"}".to_vec()
    );
}

#[test]
fn encode_then_parse_round_trips() {
    let messages = [
        offer("v=0...\r\nm=video"),
        answer("v=0 \"quoted\" \\slash"),
        ice("{\"candidate\":\"cand\",\"sdpMLineIndex\":0}"),
    ];
    for m in messages {
        let bytes = encode_message(&m);
        let back = parse_message(&bytes).expect("own encoding parses");
        let again = encode_message(&back);
        assert_eq!(bytes, again);
    }
}

#[test]
fn encode_list_of_two() {
    let ms = vec![offer("a"), answer("b")];
    let bytes = encode_message_list(&ms);
    assert_eq!(
        bytes,
        b"[{\"type\":\"offer\",\"sdp\":\"a\"},{\"type\":\"answer\",\"sdp\":\"b\"}]".to_vec()
    );
}

#[test]
fn encode_empty_list() {
    let ms: Vec<SignalingMessage> = Vec::new();
    assert_eq!(encode_message_list(&ms), b"[]".to_vec());
}

#[test]
fn offer_travels_from_mobile_to_desktop() {
    let mut mb = Mailbox::new();
    let ack = handle_send(&mut mb, Role::Mobile, b"{\"type\":\"offer\",\"sdp\":\"v=0...\"}")
        .expect("well-formed send is acknowledged");
    assert_eq!(ack, b"{\"status\":\"ok\"}".to_vec());
    let first = handle_receive(&mut mb, Role::Desktop);
    assert_eq!(first, b"[{\"type\":\"offer\",\"sdp\":\"v=0...\"}]".to_vec());
    // A second immediate receive finds the queue already drained.
    let second = handle_receive(&mut mb, Role::Desktop);
    assert_eq!(second, b"[]".to_vec());
}

#[test]
fn malformed_send_is_rejected_before_the_mailbox() {
    let mut mb = Mailbox::new();
    let e = handle_send(&mut mb, Role::Mobile, b"{\"type\":\"offer\"}").unwrap_err();
    assert_eq!(e, RelayError::MalformedMessage);
    assert_eq!(handle_receive(&mut mb, Role::Desktop), b"[]".to_vec());
}

#[test]
fn desktop_sends_answer_back() {
    let mut mb = Mailbox::new();
    handle_send(&mut mb, Role::Desktop, b"{\"type\":\"answer\",\"sdp\":\"v=0 ok\"}")
        .expect("well-formed send");
    // The sender's own receive direction stays empty.
    assert_eq!(handle_receive(&mut mb, Role::Desktop), b"[]".to_vec());
    assert_eq!(
        handle_receive(&mut mb, Role::Mobile),
        b"[{\"type\":\"answer\",\"sdp\":\"v=0 ok\"}]".to_vec()
    );
}

#[test]
fn routing_table_signaling_mode() {
    assert_eq!(
        route(RelayMode::Signaling, Method::Post, b"/mobile/send"),
        Some(Endpoint::MobileSend)
    );
    assert_eq!(
        route(RelayMode::Signaling, Method::Get, b"/mobile/receive"),
        Some(Endpoint::MobileReceive)
    );
    assert_eq!(
        route(RelayMode::Signaling, Method::Post, b"/desktop/send"),
        Some(Endpoint::DesktopSend)
    );
    assert_eq!(
        route(RelayMode::Signaling, Method::Get, b"/desktop/receive"),
        Some(Endpoint::DesktopReceive)
    );
    // Wrong method or unknown path is unrouted.
    assert_eq!(route(RelayMode::Signaling, Method::Get, b"/mobile/send"), None);
    assert_eq!(route(RelayMode::Signaling, Method::Post, b"/frame"), None);
}

#[test]
fn routing_table_frame_broadcast_mode() {
    assert_eq!(
        route(RelayMode::FrameBroadcast, Method::Post, b"/frame"),
        Some(Endpoint::FrameIngest)
    );
    assert_eq!(
        route(RelayMode::FrameBroadcast, Method::Get, b"/ws"),
        Some(Endpoint::DuplexStream)
    );
    assert_eq!(route(RelayMode::FrameBroadcast, Method::Get, b"/frame"), None);
    assert_eq!(route(RelayMode::FrameBroadcast, Method::Post, b"/mobile/send"), None);
}
