//! The frame broadcast hub: one bounded publish point that fans binary
//! frames out to any number of independent subscribers. Delivery is lossy
//! and best-effort by design: a subscriber that reads slower than frames
//! arrive loses only its oldest backlog and keeps receiving newer frames.
//!
//! The hub's state is the library's own, deliberately: it gives the same
//! lossy-ring semantics a bounded broadcast channel provides, but as plain
//! verifiable data, which is what lets the fan-out and backpressure laws
//! below be proved rather than assumed. The producer side of the real
//! channel stands in [`crate::livehub`]; its consumer side suspends when
//! awaited, which nothing inside the library can do, so the sessions'
//! decisions are made here against this state and the shell performs them.

use vstd::prelude::*;

verus! {

/// How many frames a subscriber's backlog may hold before the oldest are
/// overwritten.
pub const HUB_CAPACITY: usize = 100;

/// What one poll of a subscriber's position yields.
pub enum RecvOutcome {
    /// The next frame, in publish order.
    Ready(Vec<u8>),
    /// The subscriber lagged: this many oldest frames were overwritten and
    /// are gone; its position now points at the oldest retained frame.
    Lagged(u64),
    /// Nothing published past this subscriber's position yet.
    Quiet,
}

/// The mathematical value of a [`RecvOutcome`].
pub enum RecvOutcomeView {
    Ready(Seq<u8>),
    Lagged(int),
    Quiet,
}

impl View for RecvOutcome {
    type V = RecvOutcomeView;

    open spec fn view(&self) -> RecvOutcomeView {
        match self {
            RecvOutcome::Ready(f) => RecvOutcomeView::Ready(f@),
            RecvOutcome::Lagged(n) => RecvOutcomeView::Lagged(*n as int),
            RecvOutcome::Quiet => RecvOutcomeView::Quiet,
        }
    }
}

/// The index of the oldest frame of `hist` still retained by a hub of
/// capacity [`HUB_CAPACITY`].
pub open spec fn oldest_retained(hist: Seq<Seq<u8>>) -> int {
    if hist.len() <= HUB_CAPACITY {
        0
    } else {
        hist.len() - HUB_CAPACITY
    }
}

/// What one poll at position `pos` of a hub whose full publish history is
/// `hist` yields, together with the position afterwards.
pub open spec fn recv_spec(hist: Seq<Seq<u8>>, pos: int) -> (RecvOutcomeView, int)
    recommends
        0 <= pos <= hist.len(),
{
    if pos == hist.len() {
        (RecvOutcomeView::Quiet, pos)
    } else if pos >= oldest_retained(hist) {
        (RecvOutcomeView::Ready(hist[pos]), pos + 1)
    } else {
        (RecvOutcomeView::Lagged(oldest_retained(hist) - pos), oldest_retained(hist))
    }
}

/// A subscriber handle: a position into the hub's publish history. It yields
/// every frame published after it was obtained, in publish order, except the
/// oldest ones overwritten while it lagged behind by more than the capacity.
pub struct Subscriber {
    pos: u64,
}

impl Subscriber {
    /// The position: how many published frames precede the next one this
    /// subscriber will observe.
    pub closed spec fn pos(self) -> int {
        self.pos as int
    }
}

/// The broadcast hub. It keeps no durable log: only the most recent
/// [`HUB_CAPACITY`] frames are retained to smooth bursts; the full publish
/// history exists only as the ghost `hist` against which the contracts
/// speak.
pub struct FrameHub {
    /// The retained frames, oldest first.
    window: Vec<Vec<u8>>,
    /// How many frames were ever published.
    total: u64,
    /// Every frame ever published, in order.
    hist: Ghost<Seq<Seq<u8>>>,
}

impl FrameHub {
    /// The full publish history.
    pub closed spec fn hist(self) -> Seq<Seq<u8>> {
        self.hist@
    }

    /// Well-formedness: the retained window is exactly the most recent part
    /// of the history, oldest first.
    pub closed spec fn inv(self) -> bool {
        &&& self.total as int == self.hist@.len()
        &&& self.window@.len() == self.hist@.len() - oldest_retained(self.hist@)
        &&& forall|i: int|
            0 <= i < self.window@.len() ==> self.window@[i]@ == self.hist@[oldest_retained(
                self.hist@,
            ) + i]
    }

    /// A fresh hub with nothing published.
    pub fn new() -> (r: FrameHub)
        ensures
            r.inv(),
            r.hist() == Seq::<Seq<u8>>::empty(),
    {
        FrameHub { window: Vec::new(), total: 0, hist: Ghost(Seq::empty()) }
    }

    /// Fire-and-forget publish: appends `frame` to the history, dropping the
    /// oldest retained frame once the window is full. It never fails —
    /// publishing with no subscriber is a normal outcome, not an error (the
    /// frame is simply never observed).
    pub fn publish(&mut self, frame: Vec<u8>)
        requires
            old(self).inv(),
            old(self).hist().len() < u64::MAX,
        ensures
            final(self).inv(),
            final(self).hist() == old(self).hist().push(frame@),
    {
        let ghost before = self.hist@;
        if self.window.len() == HUB_CAPACITY {
            self.window.remove(0);
        }
        self.window.push(frame);
        self.total = self.total + 1;
        proof {
            self.hist@ = before.push(frame@);
        }
    }

    /// How many frames were ever published.
    pub fn published_total(&self) -> (r: u64)
        requires
            self.inv(),
        ensures
            r as int == self.hist().len(),
    {
        self.total
    }

    /// Obtains a subscriber handle that will observe every frame published
    /// after this call, in publish order (modulo lag-induced gaps).
    pub fn subscribe(&self) -> (r: Subscriber)
        requires
            self.inv(),
        ensures
            r.pos() == self.hist().len(),
    {
        Subscriber { pos: self.total }
    }

    /// Polls `sub`'s position once; never blocks. The outcome and the moved
    /// position are exactly [`recv_spec`] of the publish history: the next
    /// frame in publish order if it is still retained, a lag report that
    /// skips forward to the oldest retained frame, or quiet when nothing new
    /// was published.
    pub fn poll(&self, sub: &mut Subscriber) -> (r: RecvOutcome)
        requires
            self.inv(),
            0 <= old(sub).pos() <= self.hist().len(),
        ensures
            (r@, final(sub).pos()) == recv_spec(self.hist(), old(sub).pos()),
            0 <= final(sub).pos() <= self.hist().len(),
    {
        let oldest: u64 = self.total - self.window.len() as u64;
        if sub.pos == self.total {
            RecvOutcome::Quiet
        } else if sub.pos >= oldest {
            let idx: usize = (sub.pos - oldest) as usize;
            let frame_ref: &Vec<u8> = &self.window[idx];
            let frame: Vec<u8> = frame_ref.clone();
            sub.pos = sub.pos + 1;
            proof {
                assert(frame@ =~= self.hist@[old(sub).pos()]);
            }
            RecvOutcome::Ready(frame)
        } else {
            let missed: u64 = oldest - sub.pos;
            sub.pos = oldest;
            RecvOutcome::Lagged(missed)
        }
    }
}

/// Fan-out law: a subscriber whose position is at the head of the history
/// (no lag) observes every subsequently published frame, in publish order.
/// With `k` frames published after its position, `steps <= k` polls yield
/// exactly the first `steps` of those frames, one per poll, as long as the
/// backlog never exceeded the capacity. Every live subscriber satisfies the
/// premise independently, so publishing `f1, f2, f3` to `n` caught-up
/// subscribers makes each of the `n` observe exactly `[f1, f2, f3]`.
pub proof fn lemma_fan_out(hist: Seq<Seq<u8>>, added: Seq<Seq<u8>>, steps: int)
    requires
        0 <= steps <= added.len(),
        added.len() <= HUB_CAPACITY,
    ensures
        polled_frames(hist + added, hist.len() as int, steps) == added.take(steps),
        polled_pos(hist + added, hist.len() as int, steps) == hist.len() + steps,
{
    let h = hist + added;
    assert(oldest_retained(h) <= hist.len() as int);
    lemma_polls_from(h, hist.len() as int, steps);
    assert(h.subrange(hist.len() as int, hist.len() + steps) =~= added.take(steps));
}

/// The sequence of frames yielded by `steps` consecutive polls starting at
/// `pos`, counting only `Ready` outcomes.
pub open spec fn polled_frames(hist: Seq<Seq<u8>>, pos: int, steps: int) -> Seq<Seq<u8>>
    decreases steps,
{
    if steps <= 0 {
        Seq::empty()
    } else {
        let (outcome, pos2) = recv_spec(hist, pos);
        let rest = polled_frames(hist, pos2, steps - 1);
        match outcome {
            RecvOutcomeView::Ready(f) => seq![f] + rest,
            _ => rest,
        }
    }
}

/// The position after `steps` consecutive polls starting at `pos`.
pub open spec fn polled_pos(hist: Seq<Seq<u8>>, pos: int, steps: int) -> int
    decreases steps,
{
    if steps <= 0 {
        pos
    } else {
        let (_, pos2) = recv_spec(hist, pos);
        polled_pos(hist, pos2, steps - 1)
    }
}

/// Backpressure law: a subscriber that fell behind by more than the capacity
/// loses exactly the oldest frames beyond its position — one lag report says
/// how many — and from then on observes every retained frame, newest
/// backlog first in publish order. So a subscriber that never reads can
/// lose only the oldest frames and still receives newly published ones
/// afterwards.
pub proof fn lemma_backpressure(hist: Seq<Seq<u8>>, pos: int)
    requires
        0 <= pos,
        hist.len() - pos > HUB_CAPACITY,
    ensures
        recv_spec(hist, pos).0 == RecvOutcomeView::Lagged(hist.len() - HUB_CAPACITY - pos),
        recv_spec(hist, pos).1 == hist.len() - HUB_CAPACITY,
        polled_frames(hist, pos, 1 + HUB_CAPACITY) == hist.skip(hist.len() - HUB_CAPACITY),
{
    let oldest = oldest_retained(hist);
    lemma_polls_from(hist, oldest, HUB_CAPACITY as int);
    assert(polled_frames(hist, pos, 1 + HUB_CAPACITY) =~= polled_frames(
        hist,
        oldest,
        HUB_CAPACITY as int,
    ));
    assert(hist.subrange(oldest, oldest + HUB_CAPACITY) =~= hist.skip(hist.len() - HUB_CAPACITY));
}

/// From any retained position, `steps` polls within the history's end yield
/// the next `steps` frames of the history in order.
pub proof fn lemma_polls_from(hist: Seq<Seq<u8>>, pos: int, steps: int)
    requires
        oldest_retained(hist) <= pos,
        0 <= steps,
        pos + steps <= hist.len(),
    ensures
        polled_frames(hist, pos, steps) == hist.subrange(pos, pos + steps),
        polled_pos(hist, pos, steps) == pos + steps,
    decreases steps,
{
    if steps == 0 {
        assert(polled_frames(hist, pos, 0) =~= hist.subrange(pos, pos));
    } else {
        lemma_polls_from(hist, pos + 1, steps - 1);
        assert(polled_frames(hist, pos, steps) =~= hist.subrange(pos, pos + steps));
    }
}

} // verus!
