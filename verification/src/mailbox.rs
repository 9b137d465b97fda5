//! The rendezvous mailbox: two independent, direction-scoped FIFO queues of
//! signaling messages, with atomic push and atomic drain-all.

use vstd::prelude::*;

use crate::msg::{Direction, MessageView, SignalingMessage, msgs_view};

verus! {

/// The mathematical value of a [`Mailbox`]: one ordered sequence of message
/// values per direction.
pub struct MailboxView {
    pub mobile_to_desktop: Seq<MessageView>,
    pub desktop_to_mobile: Seq<MessageView>,
}

impl MailboxView {
    /// The queue of the named direction.
    pub open spec fn queue(self, dir: Direction) -> Seq<MessageView> {
        match dir {
            Direction::MobileToDesktop => self.mobile_to_desktop,
            Direction::DesktopToMobile => self.desktop_to_mobile,
        }
    }

    /// The mailbox after a push: the named direction's queue grows by one at
    /// the back, the other queue is untouched.
    pub open spec fn push_spec(self, dir: Direction, m: MessageView) -> MailboxView {
        match dir {
            Direction::MobileToDesktop => MailboxView {
                mobile_to_desktop: self.mobile_to_desktop.push(m),
                ..self
            },
            Direction::DesktopToMobile => MailboxView {
                desktop_to_mobile: self.desktop_to_mobile.push(m),
                ..self
            },
        }
    }

    /// The mailbox after a drain of the named direction: that queue is empty,
    /// the other queue is untouched.
    pub open spec fn drain_spec(self, dir: Direction) -> MailboxView {
        match dir {
            Direction::MobileToDesktop => MailboxView {
                mobile_to_desktop: Seq::empty(),
                ..self
            },
            Direction::DesktopToMobile => MailboxView {
                desktop_to_mobile: Seq::empty(),
                ..self
            },
        }
    }

    /// A sequence of pushes into one direction, applied in order.
    pub open spec fn push_all_spec(self, dir: Direction, ms: Seq<MessageView>) -> MailboxView
        decreases ms.len(),
    {
        if ms.len() == 0 {
            self
        } else {
            self.push_spec(dir, ms[0]).push_all_spec(dir, ms.drop_first())
        }
    }
}

/// Two independent FIFO queues of handshake messages, one per direction.
/// Within one direction the consumer observes messages in the exact order
/// they were pushed; the two directions never affect each other.
pub struct Mailbox {
    mobile_to_desktop: Vec<SignalingMessage>,
    desktop_to_mobile: Vec<SignalingMessage>,
}

impl View for Mailbox {
    type V = MailboxView;

    closed spec fn view(&self) -> MailboxView {
        MailboxView {
            mobile_to_desktop: msgs_view(self.mobile_to_desktop@),
            desktop_to_mobile: msgs_view(self.desktop_to_mobile@),
        }
    }
}

impl Mailbox {
    /// An empty mailbox: both directions hold nothing.
    pub fn new() -> (r: Mailbox)
        ensures
            r@.queue(Direction::MobileToDesktop) == Seq::<MessageView>::empty(),
            r@.queue(Direction::DesktopToMobile) == Seq::<MessageView>::empty(),
    {
        let r = Mailbox { mobile_to_desktop: Vec::new(), desktop_to_mobile: Vec::new() };
        proof {
            assert(msgs_view(Seq::<SignalingMessage>::empty()) =~= Seq::<MessageView>::empty());
        }
        r
    }

    /// Appends `m` to the named direction's queue. Never fails; the other
    /// direction is untouched.
    pub fn push(&mut self, dir: Direction, m: SignalingMessage)
        ensures
            final(self)@ == old(self)@.push_spec(dir, m@),
    {
        let ghost before = self@;
        match dir {
            Direction::MobileToDesktop => self.mobile_to_desktop.push(m),
            Direction::DesktopToMobile => self.desktop_to_mobile.push(m),
        }
        proof {
            assert(final(self)@.queue(dir) =~= before.push_spec(dir, m@).queue(dir));
            assert(final(self)@ =~= before.push_spec(dir, m@)) by {
                assert(final(self)@.mobile_to_desktop =~= before.push_spec(
                    dir,
                    m@,
                ).mobile_to_desktop);
                assert(final(self)@.desktop_to_mobile =~= before.push_spec(
                    dir,
                    m@,
                ).desktop_to_mobile);
            }
        }
    }

    /// Atomically removes and returns every message queued for `dir`, in
    /// arrival order; the queue is empty immediately afterwards and the other
    /// direction is untouched. An empty queue yields an empty sequence, not
    /// an error.
    pub fn drain_all(&mut self, dir: Direction) -> (drained: Vec<SignalingMessage>)
        ensures
            msgs_view(drained@) == old(self)@.queue(dir),
            final(self)@ == old(self)@.drain_spec(dir),
    {
        let ghost before = self@;
        let mut taken: Vec<SignalingMessage> = Vec::new();
        match dir {
            Direction::MobileToDesktop => core::mem::swap(&mut self.mobile_to_desktop, &mut taken),
            Direction::DesktopToMobile => core::mem::swap(&mut self.desktop_to_mobile, &mut taken),
        }
        proof {
            assert(msgs_view(Seq::<SignalingMessage>::empty()) =~= Seq::<MessageView>::empty());
            assert(final(self)@.mobile_to_desktop =~= before.drain_spec(dir).mobile_to_desktop);
            assert(final(self)@.desktop_to_mobile =~= before.drain_spec(dir).desktop_to_mobile);
            assert(final(self)@ =~= before.drain_spec(dir));
        }
        taken
    }
}

/// FIFO law: however a drain is interleaved with pushes, a drain of one
/// direction returns exactly the messages pushed to that direction and not
/// yet drained, in push order, and leaves that queue empty. Stated here for
/// an arbitrary starting mailbox `m` (whose queue holds the residue of
/// earlier pushes) followed by any further sequence `ms` of pushes.
pub proof fn lemma_fifo(m: MailboxView, dir: Direction, ms: Seq<MessageView>)
    ensures
        m.push_all_spec(dir, ms).queue(dir) == m.queue(dir) + ms,
        m.push_all_spec(dir, ms).drain_spec(dir).queue(dir) == Seq::<MessageView>::empty(),
    decreases ms.len(),
{
    if ms.len() == 0 {
        assert(m.push_all_spec(dir, ms).queue(dir) =~= m.queue(dir) + ms);
    } else {
        lemma_fifo(m.push_spec(dir, ms[0]), dir, ms.drop_first());
        assert(m.push_spec(dir, ms[0]).queue(dir) + ms.drop_first() =~= m.queue(dir) + ms);
    }
}

/// Direction independence: pushes and drains on one direction never affect
/// the other direction's queue.
pub proof fn lemma_direction_independence(m: MailboxView, dir: Direction, v: MessageView)
    ensures
        m.push_spec(dir, v).queue(dir.spec_flip()) == m.queue(dir.spec_flip()),
        m.drain_spec(dir).queue(dir.spec_flip()) == m.queue(dir.spec_flip()),
{
}

/// Drain idempotence under emptiness: draining a direction twice in a row
/// yields an empty sequence the second time, whatever the first drain
/// returned; in particular draining an empty direction twice yields the
/// empty sequence both times.
pub proof fn lemma_drain_idempotent(m: MailboxView, dir: Direction)
    ensures
        m.drain_spec(dir).queue(dir) == Seq::<MessageView>::empty(),
        m.drain_spec(dir).drain_spec(dir).queue(dir) == Seq::<MessageView>::empty(),
{
}

} // verus!
