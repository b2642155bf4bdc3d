use vstd::prelude::*;

verus! {

// ---------------------------------------------------------------------------
// Producer side: after each generation call, decide whether to notify.
// ---------------------------------------------------------------------------

/// Whether moving from loop count `last` to `now` is a loop boundary worth a
/// notification. Any change counts, so a count that wraps is still seen.
pub open spec fn loop_changed(last: u8, now: u8) -> bool {
    last != now
}

/// The loop count observed just before the `i`-th entry of `counts`.
pub open spec fn prev_count(start: u8, counts: Seq<u8>, i: int) -> u8 {
    if i == 0 {
        start
    } else {
        counts[i - 1]
    }
}

/// The loop count a watcher holds after observing all of `counts`.
pub open spec fn last_observed(start: u8, counts: Seq<u8>) -> u8 {
    if counts.len() == 0 {
        start
    } else {
        counts.last()
    }
}

/// How many notifications a watcher that last saw `start` sends while it
/// observes `counts` in order: one per observation that saw a change.
pub open spec fn notifications(start: u8, counts: Seq<u8>) -> nat
    decreases counts.len(),
{
    if counts.len() == 0 {
        0
    } else {
        let before = counts.drop_last();
        notifications(start, before) + if loop_changed(last_observed(start, before), counts.last()) {
            1nat
        } else {
            0nat
        }
    }
}

/// The observed loop counts never go down.
pub open spec fn non_decreasing(start: u8, counts: Seq<u8>) -> bool {
    forall|i: int| 0 <= i < counts.len() ==> prev_count(start, counts, i) <= #[trigger] counts[i]
}

/// The observed loop counts never go down, and rise by at most one between
/// two observations.
pub open spec fn steps_by_at_most_one(start: u8, counts: Seq<u8>) -> bool {
    forall|i: int|
        0 <= i < counts.len() ==> prev_count(start, counts, i) <= #[trigger] counts[i]
            <= prev_count(start, counts, i) + 1
}

/// Sits beside the sample generator on the real-time side and turns the loop
/// count read after each generation call into at most one notification.
/// It never blocks and never allocates.
pub struct LoopWatcher {
    last_loop_count: u8,
}

impl View for LoopWatcher {
    type V = u8;

    closed spec fn view(&self) -> u8 {
        self.last_loop_count
    }
}

impl LoopWatcher {
    /// A watcher for a context whose loop count is currently `loop_count`
    /// (zero for a freshly created one).
    pub fn new(loop_count: u8) -> (w: Self)
        ensures
            w@ == loop_count,
    {
        LoopWatcher { last_loop_count: loop_count }
    }

    /// The loop count seen last.
    pub fn last_loop_count(&self) -> (r: u8)
        ensures
            r == self@,
    {
        self.last_loop_count
    }

    /// Records the loop count read after a generation call; `true` means one
    /// notification is due. Several loops crossed in one call give one
    /// notification, not one per loop.
    pub fn observe(&mut self, loop_count: u8) -> (notify: bool)
        ensures
            notify == loop_changed(old(self)@, loop_count),
            final(self)@ == loop_count,
    {
        let notify = loop_count != self.last_loop_count;
        self.last_loop_count = loop_count;
        notify
    }
}

// ---------------------------------------------------------------------------
// Consumer side: a control thread waiting for a number of loops.
// ---------------------------------------------------------------------------

/// What one blocking receive on the notification channel yields.
#[derive(Clone, Copy, Debug, PartialEq, Eq, Structural)]
pub enum LoopEvent {
    /// One notification arrived.
    Looped,
    /// The producer side is gone: no notification will ever arrive again.
    Closed,
}

/// Where a wait for loop completions stands.
#[derive(Clone, Copy, Debug, PartialEq, Eq, Structural)]
pub enum WaitState {
    /// Fewer notifications than asked for so far; receive again.
    Waiting,
    /// As many notifications as asked for have arrived.
    Completed,
    /// The channel closed before enough notifications arrived.
    Closed,
}

/// Abstract state of a [`LoopWaiter`].
pub struct LoopWaitModel {
    pub target: nat,
    pub received: nat,
    pub closed: bool,
}

/// A fresh wait for `target` notifications.
pub open spec fn wait_start(target: nat) -> LoopWaitModel {
    LoopWaitModel { target, received: 0, closed: false }
}

pub open spec fn wait_state_of(m: LoopWaitModel) -> WaitState {
    if m.received >= m.target {
        WaitState::Completed
    } else if m.closed {
        WaitState::Closed
    } else {
        WaitState::Waiting
    }
}

/// One event applied to a wait. A wait that has ended ignores further events.
pub open spec fn wait_step(m: LoopWaitModel, e: LoopEvent) -> LoopWaitModel {
    if wait_state_of(m) != WaitState::Waiting {
        m
    } else {
        match e {
            LoopEvent::Looped => LoopWaitModel { received: m.received + 1, ..m },
            LoopEvent::Closed => LoopWaitModel { closed: true, ..m },
        }
    }
}

/// A sequence of events applied to a wait, in order.
pub open spec fn wait_run(m: LoopWaitModel, events: Seq<LoopEvent>) -> LoopWaitModel
    decreases events.len(),
{
    if events.len() == 0 {
        m
    } else {
        wait_step(wait_run(m, events.drop_last()), events.last())
    }
}

/// The control thread's side of the protocol: it performs blocking receives
/// and hands each outcome here, until the state is no longer `Waiting`.
pub struct LoopWaiter {
    target: u8,
    received: u8,
    closed: bool,
}

impl View for LoopWaiter {
    type V = LoopWaitModel;

    closed spec fn view(&self) -> LoopWaitModel {
        LoopWaitModel {
            target: self.target as nat,
            received: self.received as nat,
            closed: self.closed,
        }
    }
}

impl LoopWaiter {
    #[verifier::type_invariant]
    spec fn inv(self) -> bool {
        self.received <= self.target
    }

    /// A wait for `target` loop completions.
    pub fn new(target: u8) -> (w: Self)
        ensures
            w@ == wait_start(target as nat),
    {
        LoopWaiter { target, received: 0, closed: false }
    }

    /// How many notifications this wait asks for.
    pub fn target(&self) -> (r: u8)
        ensures
            r as nat == self@.target,
    {
        self.target
    }

    /// How many notifications this wait has counted.
    pub fn received(&self) -> (r: u8)
        ensures
            r as nat == self@.received,
    {
        self.received
    }

    pub fn state(&self) -> (s: WaitState)
        ensures
            s == wait_state_of(self@),
    {
        if self.received >= self.target {
            WaitState::Completed
        } else if self.closed {
            WaitState::Closed
        } else {
            WaitState::Waiting
        }
    }

    /// Takes the outcome of one blocking receive and says where the wait
    /// stands afterwards.
    pub fn on_event(&mut self, e: LoopEvent) -> (s: WaitState)
        ensures
            final(self)@ == wait_step(old(self)@, e),
            s == wait_state_of(final(self)@),
    {
        proof {
            use_type_invariant(&*self);
        }
        if self.received < self.target && !self.closed {
            match e {
                LoopEvent::Looped => {
                    self.received = self.received + 1;
                },
                LoopEvent::Closed => {
                    self.closed = true;
                },
            }
        }
        self.state()
    }
}

// ---------------------------------------------------------------------------
// Laws of the protocol.
// ---------------------------------------------------------------------------

/// Whether a `Closed` event occurs among `events`.
pub open spec fn closed_seen(events: Seq<LoopEvent>) -> bool
    decreases events.len(),
{
    if events.len() == 0 {
        false
    } else {
        closed_seen(events.drop_last()) || events.last() == LoopEvent::Closed
    }
}

/// How many `Looped` events come before the first `Closed` one.
pub open spec fn loops_before_close(events: Seq<LoopEvent>) -> nat
    decreases events.len(),
{
    if events.len() == 0 {
        0
    } else if closed_seen(events.drop_last()) {
        loops_before_close(events.drop_last())
    } else if events.last() == LoopEvent::Looped {
        loops_before_close(events.drop_last()) + 1
    } else {
        loops_before_close(events.drop_last())
    }
}

/// The events a consumer receives for `n` notifications and nothing else.
pub open spec fn looped_events(n: nat) -> Seq<LoopEvent> {
    Seq::new(n, |i: int| LoopEvent::Looped)
}

/// While the loop counts never go down, a watcher sends no more notifications
/// than the number of loops the counts advanced by.
pub proof fn lemma_notifications_bounded(start: u8, counts: Seq<u8>)
    requires
        non_decreasing(start, counts),
    ensures
        notifications(start, counts) <= last_observed(start, counts) - start,
    decreases counts.len(),
{
    if counts.len() > 0 {
        let before = counts.drop_last();
        assert forall|i: int| 0 <= i < before.len() implies prev_count(start, before, i)
            <= #[trigger] before[i] by {
            assert(before[i] == counts[i]);
            assert(prev_count(start, counts, i) <= counts[i]);
        }
        lemma_notifications_bounded(start, before);
        assert(prev_count(start, counts, counts.len() - 1) <= counts[counts.len() - 1]);
    }
}

/// While the loop counts rise by at most one between two observations, a
/// watcher sends exactly one notification per loop completed.
pub proof fn lemma_notifications_count_loops(start: u8, counts: Seq<u8>)
    requires
        steps_by_at_most_one(start, counts),
    ensures
        notifications(start, counts) == last_observed(start, counts) - start,
    decreases counts.len(),
{
    if counts.len() > 0 {
        let before = counts.drop_last();
        assert forall|i: int| 0 <= i < before.len() implies prev_count(start, before, i)
            <= #[trigger] before[i] <= prev_count(start, before, i) + 1 by {
            assert(before[i] == counts[i]);
            assert(prev_count(start, counts, i) <= counts[i] <= prev_count(start, counts, i) + 1);
        }
        lemma_notifications_count_loops(start, before);
        let k = counts.len() - 1;
        assert(prev_count(start, counts, k) <= counts[k] <= prev_count(start, counts, k) + 1);
    }
}

/// A wait for `target` notifications ends `Completed` once `target` of them
/// have arrived before any closing, ends `Closed` if the channel closes first,
/// and is otherwise still `Waiting`; it never counts more than `target`.
pub proof fn lemma_wait_outcome(target: nat, events: Seq<LoopEvent>)
    ensures
        wait_run(wait_start(target), events) == (LoopWaitModel {
            target,
            received: if loops_before_close(events) < target {
                loops_before_close(events)
            } else {
                target
            },
            closed: closed_seen(events) && loops_before_close(events) < target,
        }),
        wait_state_of(wait_run(wait_start(target), events)) == if loops_before_close(events)
            >= target {
            WaitState::Completed
        } else if closed_seen(events) {
            WaitState::Closed
        } else {
            WaitState::Waiting
        },
    decreases events.len(),
{
    if events.len() > 0 {
        lemma_wait_outcome(target, events.drop_last());
    }
}

/// `n` notifications with no closing read as `n` loops.
pub proof fn lemma_looped_events(n: nat)
    ensures
        loops_before_close(looped_events(n)) == n,
        !closed_seen(looped_events(n)),
    decreases n,
{
    if n > 0 {
        assert(looped_events(n).drop_last() =~= looped_events((n - 1) as nat));
        lemma_looped_events((n - 1) as nat);
    }
}

/// A context started at loop count zero with its loop ceiling set to `max`
/// plays on while a watcher observes `counts`. If the count rises by at most
/// one per generation call and reaches `max`, a consumer waiting for `max`
/// loops completes on exactly the notifications sent. A consumer waiting for
/// one loop more is still waiting after all of them, and observes the closing
/// of the channel as `Closed` rather than blocking for ever.
pub proof fn lemma_wait_for_loop_ceiling(max: u8, counts: Seq<u8>)
    requires
        steps_by_at_most_one(0, counts),
        forall|i: int| 0 <= i < counts.len() ==> #[trigger] counts[i] <= max,
    ensures
        notifications(0, counts) <= max,
        last_observed(0, counts) == max ==> wait_state_of(
            wait_run(wait_start(max as nat), looped_events(notifications(0, counts))),
        ) == WaitState::Completed,
        wait_state_of(
            wait_run(wait_start((max + 1) as nat), looped_events(notifications(0, counts))),
        ) == WaitState::Waiting,
        wait_state_of(
            wait_run(
                wait_start((max + 1) as nat),
                looped_events(notifications(0, counts)).push(LoopEvent::Closed),
            ),
        ) == WaitState::Closed,
{
    lemma_notifications_count_loops(0, counts);
    if counts.len() > 0 {
        assert(counts[counts.len() - 1] <= max);
    }
    let sent = notifications(0, counts);
    let events = looped_events(sent);
    lemma_looped_events(sent);
    lemma_wait_outcome(max as nat, events);
    lemma_wait_outcome((max + 1) as nat, events);
    let closing = events.push(LoopEvent::Closed);
    assert(closing.drop_last() =~= events);
    lemma_wait_outcome((max + 1) as nat, closing);
}

} // verus!
