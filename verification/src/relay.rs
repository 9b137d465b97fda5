//! The network-facing handlers and the server's fixed routing table.
//!
//! Four role-oriented operations expose the mailbox — each role sends into
//! its own direction and receives by draining the other — one handler
//! ingests raw frames into the hub, and one path upgrades to the duplex
//! stream. The handlers validate and compute; the shell around the library
//! does the actual reading and writing.

use vstd::prelude::*;

use crate::codec::{encode_list_spec, encode_message_list, parse_message, parse_spec};
use crate::hub::FrameHub;
use crate::mailbox::Mailbox;
use crate::msg::Direction;

verus! {

/// One of the two fixed signaling roles. The mobile role produces the
/// stream and posts offers; the desktop role consumes; the relay itself
/// treats them symmetrically.
#[derive(Clone, Copy, PartialEq, Eq, Structural, Debug)]
pub enum Role {
    Mobile,
    Desktop,
}

impl Role {
    /// The direction this role sends into.
    pub open spec fn spec_outgoing(self) -> Direction {
        match self {
            Role::Mobile => Direction::MobileToDesktop,
            Role::Desktop => Direction::DesktopToMobile,
        }
    }

    /// The direction this role receives from: the other role's outgoing
    /// direction.
    pub open spec fn spec_incoming(self) -> Direction {
        self.spec_outgoing().spec_flip()
    }

    /// The direction this role sends into.
    pub fn outgoing(self) -> (r: Direction)
        ensures
            r == self.spec_outgoing(),
    {
        match self {
            Role::Mobile => Direction::MobileToDesktop,
            Role::Desktop => Direction::DesktopToMobile,
        }
    }

    /// The direction this role receives from.
    pub fn incoming(self) -> (r: Direction)
        ensures
            r == self.spec_incoming(),
    {
        self.outgoing().flip()
    }
}

/// The roles are wired back to back: each role receives from exactly the
/// direction the other sends into, and never from its own.
pub proof fn lemma_role_wiring()
    ensures
        Role::Mobile.spec_outgoing() == Role::Desktop.spec_incoming(),
        Role::Desktop.spec_outgoing() == Role::Mobile.spec_incoming(),
        Role::Mobile.spec_outgoing() != Role::Mobile.spec_incoming(),
        Role::Desktop.spec_outgoing() != Role::Desktop.spec_incoming(),
{
}

/// Why a request was rejected.
#[derive(Clone, Copy, PartialEq, Eq, Structural, Debug)]
pub enum RelayError {
    /// The send body does not decode into one of the three tagged message
    /// shapes; it never reaches the mailbox.
    MalformedMessage,
}

/// `{"status":"ok"}` — the acknowledgement body of every successful send
/// and every frame ingest.
pub open spec fn ack_spec() -> Seq<u8> {
    seq![123u8, 34u8, 115u8, 116u8, 97u8, 116u8, 117u8, 115u8, 34u8, 58u8, 34u8, 111u8, 107u8, 34u8, 125u8]
}

/// The acknowledgement body.
pub fn ack_body() -> (r: Vec<u8>)
    ensures
        r@ == ack_spec(),
{
    let a: [u8; 15] = [
        123u8, 34u8, 115u8, 116u8, 97u8, 116u8, 117u8, 115u8, 34u8, 58u8, 34u8, 111u8, 107u8,
        34u8, 125u8,
    ];
    let v = vstd::slice::slice_to_vec(a.as_slice());
    proof {
        assert(v@ =~= ack_spec());
    }
    v
}

/// The send handler of one role: decodes the body and appends the message
/// to the sender's outgoing direction. A malformed body is rejected before
/// it can reach the mailbox, which is then left exactly as it was; a
/// well-formed one is acknowledged, and the other direction is never
/// touched.
pub fn handle_send(mb: &mut Mailbox, sender: Role, body: &[u8]) -> (r: Result<Vec<u8>, RelayError>)
    ensures
        match parse_spec(body@) {
            Some(m) => {
                &&& (r matches Ok(ack) && ack@ == ack_spec())
                &&& final(mb)@ == old(mb)@.push_spec(sender.spec_outgoing(), m)
            },
            None => {
                &&& (r matches Err(e) && e == RelayError::MalformedMessage)
                &&& final(mb)@ == old(mb)@
            },
        },
{
    match parse_message(body) {
        Some(m) => {
            mb.push(sender.outgoing(), m);
            Ok(ack_body())
        },
        None => Err(RelayError::MalformedMessage),
    }
}

/// The receive handler of one role: atomically drains everything queued
/// toward it and returns the JSON array of the drained messages, in arrival
/// order — possibly `[]`, which is not an error. The other direction is
/// never touched.
pub fn handle_receive(mb: &mut Mailbox, receiver: Role) -> (r: Vec<u8>)
    ensures
        r@ == encode_list_spec(old(mb)@.queue(receiver.spec_incoming())),
        final(mb)@ == old(mb)@.drain_spec(receiver.spec_incoming()),
{
    let drained = mb.drain_all(receiver.incoming());
    encode_message_list(&drained)
}

/// The frame ingest handler: publishes the raw body into the hub as one
/// frame and always acknowledges — publishing is best-effort and never
/// itself fails, whether or not anyone subscribes.
pub fn handle_ingest(hub: &mut FrameHub, body: Vec<u8>) -> (r: Vec<u8>)
    requires
        old(hub).inv(),
        old(hub).hist().len() < u64::MAX,
    ensures
        final(hub).inv(),
        final(hub).hist() == old(hub).hist().push(body@),
        r@ == ack_spec(),
{
    hub.publish(body);
    ack_body()
}

/// Which of the two relay variants a server instance runs: the rendezvous
/// mailbox for handshake messages, or the frame broadcast hub.
#[derive(Clone, Copy, PartialEq, Eq, Structural, Debug)]
pub enum RelayMode {
    Signaling,
    FrameBroadcast,
}

/// An HTTP method the routing table distinguishes.
#[derive(Clone, Copy, PartialEq, Eq, Structural, Debug)]
pub enum Method {
    Get,
    Post,
}

/// A handler of the fixed routing table.
#[derive(Clone, Copy, PartialEq, Eq, Structural, Debug)]
pub enum Endpoint {
    MobileSend,
    MobileReceive,
    DesktopSend,
    DesktopReceive,
    FrameIngest,
    DuplexStream,
}

/// The fixed routing table of a server in the given mode. The signaling
/// variant exposes the four role-oriented mailbox operations; the frame
/// broadcast variant exposes the ingest handler and the duplex-stream
/// upgrade. Anything else is unrouted.
pub open spec fn route_spec(mode: RelayMode, method: Method, path: Seq<u8>) -> Option<Endpoint> {
    match mode {
        RelayMode::Signaling => {
            if method == Method::Post && path == mobile_send_path() {
                Some(Endpoint::MobileSend)
            } else if method == Method::Get && path == mobile_receive_path() {
                Some(Endpoint::MobileReceive)
            } else if method == Method::Post && path == desktop_send_path() {
                Some(Endpoint::DesktopSend)
            } else if method == Method::Get && path == desktop_receive_path() {
                Some(Endpoint::DesktopReceive)
            } else {
                Option::None
            }
        },
        RelayMode::FrameBroadcast => {
            if method == Method::Post && path == frame_path() {
                Some(Endpoint::FrameIngest)
            } else if method == Method::Get && path == ws_path() {
                Some(Endpoint::DuplexStream)
            } else {
                Option::None
            }
        },
    }
}

/// `/mobile/send`
pub open spec fn mobile_send_path() -> Seq<u8> {
    seq![47u8, 109u8, 111u8, 98u8, 105u8, 108u8, 101u8, 47u8, 115u8, 101u8, 110u8, 100u8]
}

/// `/mobile/receive`
pub open spec fn mobile_receive_path() -> Seq<u8> {
    seq![47u8, 109u8, 111u8, 98u8, 105u8, 108u8, 101u8, 47u8, 114u8, 101u8, 99u8, 101u8, 105u8, 118u8, 101u8]
}

/// `/desktop/send`
pub open spec fn desktop_send_path() -> Seq<u8> {
    seq![47u8, 100u8, 101u8, 115u8, 107u8, 116u8, 111u8, 112u8, 47u8, 115u8, 101u8, 110u8, 100u8]
}

/// `/desktop/receive`
pub open spec fn desktop_receive_path() -> Seq<u8> {
    seq![47u8, 100u8, 101u8, 115u8, 107u8, 116u8, 111u8, 112u8, 47u8, 114u8, 101u8, 99u8, 101u8, 105u8, 118u8, 101u8]
}

/// `/frame`
pub open spec fn frame_path() -> Seq<u8> {
    seq![47u8, 102u8, 114u8, 97u8, 109u8, 101u8]
}

/// `/ws`
pub open spec fn ws_path() -> Seq<u8> {
    seq![47u8, 119u8, 115u8]
}

/// Whether two byte strings are equal.
fn bytes_eq(a: &[u8], b: &[u8]) -> (r: bool)
    ensures
        r == (a@ == b@),
{
    if a.len() != b.len() {
        proof {
            assert(a@ != b@);
        }
        return false;
    }
    let mut i: usize = 0;
    while i < a.len()
        invariant
            0 <= i <= a@.len(),
            a@.len() == b@.len(),
            forall|k: int| 0 <= k < i ==> a@[k] == b@[k],
        decreases a@.len() - i,
    {
        if a[i] != b[i] {
            return false;
        }
        i = i + 1;
    }
    proof {
        assert(a@ =~= b@);
    }
    true
}

/// Routes one request against the fixed table; exactly [`route_spec`].
pub fn route(mode: RelayMode, method: Method, path: &[u8]) -> (r: Option<Endpoint>)
    ensures
        r == route_spec(mode, method, path@),
{
    match mode {
        RelayMode::Signaling => {
            let ms: [u8; 12] = [
                47u8, 109u8, 111u8, 98u8, 105u8, 108u8, 101u8, 47u8, 115u8, 101u8, 110u8, 100u8,
            ];
            let mr: [u8; 15] = [
                47u8, 109u8, 111u8, 98u8, 105u8, 108u8, 101u8, 47u8, 114u8, 101u8, 99u8, 101u8,
                105u8, 118u8, 101u8,
            ];
            let ds: [u8; 13] = [
                47u8, 100u8, 101u8, 115u8, 107u8, 116u8, 111u8, 112u8, 47u8, 115u8, 101u8, 110u8,
                100u8,
            ];
            let dr: [u8; 16] = [
                47u8, 100u8, 101u8, 115u8, 107u8, 116u8, 111u8, 112u8, 47u8, 114u8, 101u8, 99u8,
                101u8, 105u8, 118u8, 101u8,
            ];
            proof {
                assert(ms@ =~= mobile_send_path());
                assert(mr@ =~= mobile_receive_path());
                assert(ds@ =~= desktop_send_path());
                assert(dr@ =~= desktop_receive_path());
            }
            if matches!(method, Method::Post) && bytes_eq(path, ms.as_slice()) {
                Some(Endpoint::MobileSend)
            } else if matches!(method, Method::Get) && bytes_eq(path, mr.as_slice()) {
                Some(Endpoint::MobileReceive)
            } else if matches!(method, Method::Post) && bytes_eq(path, ds.as_slice()) {
                Some(Endpoint::DesktopSend)
            } else if matches!(method, Method::Get) && bytes_eq(path, dr.as_slice()) {
                Some(Endpoint::DesktopReceive)
            } else {
                Option::None
            }
        },
        RelayMode::FrameBroadcast => {
            let fp: [u8; 6] = [47u8, 102u8, 114u8, 97u8, 109u8, 101u8];
            let wp: [u8; 3] = [47u8, 119u8, 115u8];
            proof {
                assert(fp@ =~= frame_path());
                assert(wp@ =~= ws_path());
            }
            if matches!(method, Method::Post) && bytes_eq(path, fp.as_slice()) {
                Some(Endpoint::FrameIngest)
            } else if matches!(method, Method::Get) && bytes_eq(path, wp.as_slice()) {
                Some(Endpoint::DuplexStream)
            } else {
                Option::None
            }
        },
    }
}

} // verus!
