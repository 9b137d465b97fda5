//! The handshake payloads the relay carries, and the two mailbox directions.

use vstd::prelude::*;

verus! {

/// A handshake payload relayed between the two signaling roles.
///
/// The relay treats every payload as opaque: `sdp` is the raw session
/// description text, `candidate` is the raw JSON text of a connectivity
/// candidate. No message carries an identity or a timestamp.
pub enum SignalingMessage {
    Offer { sdp: Vec<u8> },
    Answer { sdp: Vec<u8> },
    IceCandidate { candidate: Vec<u8> },
}

/// The mathematical value of a [`SignalingMessage`].
pub enum MessageView {
    Offer { sdp: Seq<u8> },
    Answer { sdp: Seq<u8> },
    IceCandidate { candidate: Seq<u8> },
}

impl View for SignalingMessage {
    type V = MessageView;

    open spec fn view(&self) -> MessageView {
        match self {
            SignalingMessage::Offer { sdp } => MessageView::Offer { sdp: sdp@ },
            SignalingMessage::Answer { sdp } => MessageView::Answer { sdp: sdp@ },
            SignalingMessage::IceCandidate { candidate } => MessageView::IceCandidate {
                candidate: candidate@,
            },
        }
    }
}

/// The value of a whole queue of messages.
pub open spec fn msgs_view(v: Seq<SignalingMessage>) -> Seq<MessageView> {
    v.map_values(|m: SignalingMessage| m@)
}

/// One of the two mailbox directions. The two roles are the mobile producer
/// and the desktop consumer; each direction carries one role's outgoing
/// messages to the other.
#[derive(Clone, Copy, PartialEq, Eq, Structural, Debug)]
pub enum Direction {
    MobileToDesktop,
    DesktopToMobile,
}

impl Direction {
    /// The opposite direction.
    pub open spec fn spec_flip(self) -> Direction {
        match self {
            Direction::MobileToDesktop => Direction::DesktopToMobile,
            Direction::DesktopToMobile => Direction::MobileToDesktop,
        }
    }

    /// The opposite direction.
    pub fn flip(self) -> (r: Direction)
        ensures
            r == self.spec_flip(),
    {
        match self {
            Direction::MobileToDesktop => Direction::DesktopToMobile,
            Direction::DesktopToMobile => Direction::MobileToDesktop,
        }
    }
}

} // verus!
