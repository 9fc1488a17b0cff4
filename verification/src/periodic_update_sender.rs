//! A latest-wins coalescer with a bounded output rate.
//!
//! Writers overwrite one pending slot; a drainer wakes once per period,
//! emits the pending value if there is one, and exits after a period in
//! which nothing was written. The timer and the channel live in the
//! unverified rim: it calls [`PeriodicUpdateSender::on_tick`] once per
//! period while [`PeriodicUpdateSender::is_sending`] holds, forwards each
//! emission to the real sink, and reports a closed sink back through
//! [`PeriodicUpdateSender::emit_failed`].

use vstd::prelude::*;

verus! {

/// The error surfaced when the sink behind the coalescer has been closed.
#[derive(Clone, Copy, PartialEq, Eq, Structural, Debug)]
pub struct ChannelClosedError;

/// What one drainer wake-up does.
#[derive(Clone, Copy, PartialEq, Eq, Structural, Debug)]
pub enum TickOutcome<T> {
    /// The pending value, to be forwarded to the sink; the slot is now empty.
    Emit(T),
    /// Nothing was pending; the drainer has exited.
    Exit,
}

/// The coalescer's state: the single pending slot, whether a drainer is
/// active, and whether the last emission hit a closed sink.
pub struct PeriodicUpdateSender<T> {
    pub slot: Option<T>,
    pub task_alive: bool,
    pub failed: bool,
}

impl<T> PeriodicUpdateSender<T> {
    /// The pending value, if any.
    pub open spec fn spec_slot(self) -> Option<T> {
        self.slot
    }

    /// Whether a drainer is active.
    pub open spec fn spec_alive(self) -> bool {
        self.task_alive
    }

    /// Whether a failed emission is waiting to be surfaced.
    pub open spec fn spec_failed(self) -> bool {
        self.failed
    }

    /// A drainer that hit a closed sink has exited.
    pub open spec fn wf(self) -> bool {
        self.spec_failed() ==> !self.spec_alive()
    }

    /// Builds an idle coalescer. `channel_closed` reports whether the sink
    /// is already closed; construction fails exactly then.
    pub fn new(channel_closed: bool) -> (r: Result<Self, ChannelClosedError>)
        ensures
            r is Ok <==> !channel_closed,
            r matches Ok(s) ==> s.spec_slot() is None && !s.spec_alive() && !s.spec_failed()
                && s.wf(),
    {
        if channel_closed {
            Err(ChannelClosedError)
        } else {
            Ok(PeriodicUpdateSender { slot: None, task_alive: false, failed: false })
        }
    }

    /// Overwrites the pending slot with `value` and makes sure a drainer is
    /// active. A pending sink failure is surfaced instead: the call returns
    /// the closed-channel error once and leaves the coalescer idle again.
    pub fn set_value(&mut self, value: T) -> (r: Result<(), ChannelClosedError>)
        requires
            old(self).wf(),
        ensures
            final(self).wf(),
            final(self).spec_slot() == Some(value),
            r is Ok <==> !old(self).spec_failed(),
            !old(self).spec_failed() ==> final(self).spec_alive() && !final(self).spec_failed(),
            old(self).spec_failed() ==> !final(self).spec_alive() && !final(self).spec_failed(),
            *final(self) == spec_after_set(*old(self), value),
    {
        self.slot = Some(value);
        if self.failed {
            self.failed = false;
            self.task_alive = false;
            Err(ChannelClosedError)
        } else {
            self.task_alive = true;
            Ok(())
        }
    }

    /// Whether a drainer is currently active. While this holds, the control
    /// owning the coalescer treats itself as the local authority and ignores
    /// console feedback.
    pub fn is_sending(&self) -> (r: bool)
        ensures
            r == self.spec_alive(),
    {
        self.task_alive
    }

    /// One drainer wake-up: emits the pending value and clears the slot, or
    /// exits when nothing is pending.
    pub fn on_tick(&mut self) -> (r: TickOutcome<T>)
        requires
            old(self).spec_alive(),
            old(self).wf(),
        ensures
            final(self).wf(),
            final(self).spec_slot() is None,
            !final(self).spec_failed(),
            old(self).spec_slot() matches Some(v) ==> r == TickOutcome::<T>::Emit(v)
                && final(self).spec_alive(),
            old(self).spec_slot() is None ==> r is Exit && !final(self).spec_alive(),
            *final(self) == spec_after_tick(*old(self)).0,
    {
        let pending = self.slot.take();
        match pending {
            Some(v) => TickOutcome::Emit(v),
            None => {
                self.task_alive = false;
                TickOutcome::Exit
            },
        }
    }

    /// Reports that forwarding an emission hit a closed sink: the drainer
    /// terminates and the failure is surfaced by the next `set_value`.
    pub fn emit_failed(&mut self)
        requires
            old(self).wf(),
        ensures
            final(self).wf(),
            final(self).spec_failed(),
            !final(self).spec_alive(),
            final(self).spec_slot() == old(self).spec_slot(),
    {
        self.failed = true;
        self.task_alive = false;
    }
}

/// The state after `set_value(value)`, whatever it returns.
pub open spec fn spec_after_set<T>(s: PeriodicUpdateSender<T>, value: T) -> PeriodicUpdateSender<
    T,
> {
    PeriodicUpdateSender { slot: Some(value), task_alive: !s.spec_failed(), failed: false }
}

/// The state and emission of one drainer wake-up on a live coalescer.
pub open spec fn spec_after_tick<T>(s: PeriodicUpdateSender<T>) -> (
    PeriodicUpdateSender<T>,
    Option<T>,
) {
    match s.spec_slot() {
        Some(v) => (
            PeriodicUpdateSender { slot: None, task_alive: s.spec_alive(), failed: s.spec_failed() },
            Some(v),
        ),
        None => (PeriodicUpdateSender { slot: None, task_alive: false, failed: s.spec_failed() }, None),
    }
}

/// The state after a whole burst of writes, one `set_value` per element in
/// order.
pub open spec fn spec_after_set_seq<T>(s: PeriodicUpdateSender<T>, values: Seq<T>) -> PeriodicUpdateSender<
    T,
> {
    values.fold_left(s, |acc: PeriodicUpdateSender<T>, v: T| spec_after_set(acc, v))
}

/// Latest wins: however many writes land between two drainer wake-ups, the
/// next wake-up emits exactly the last written value and nothing else. Each
/// wake-up emits at most one value, so over a window the emission count is
/// bounded by the wake-up count.
pub proof fn lemma_coalescer_latest_wins<T>(s: PeriodicUpdateSender<T>, values: Seq<T>)
    requires
        values.len() > 0,
    ensures
        spec_after_tick(spec_after_set_seq(s, values)).1 == Some(values.last()),
    decreases values.len(),
{
    if values.len() == 1 {
        assert(spec_after_set_seq(s, values) == spec_after_set(s, values[0]));
    } else {
        lemma_coalescer_latest_wins(s, values.drop_last());
        assert(spec_after_set_seq(s, values) == spec_after_set(
            spec_after_set_seq(s, values.drop_last()),
            values.last(),
        ));
    }
}

/// How many values a run of `n` consecutive drainer wake-ups emits, with
/// nothing written in between.
pub open spec fn spec_tick_run_emissions<T>(s: PeriodicUpdateSender<T>, n: nat) -> nat
    decreases n,
{
    if n == 0 {
        0
    } else {
        let next = spec_after_tick(s);
        (if next.1 is Some {
            1nat
        } else {
            0nat
        }) + spec_tick_run_emissions(next.0, (n - 1) as nat)
    }
}

/// Bounded rate: each wake-up emits at most one value, so a window spanning
/// `n` wake-ups sees at most `n` emissions — together with the timer's one
/// wake-up per period, at most one update per period leaves the coalescer.
pub proof fn lemma_coalescer_rate<T>(s: PeriodicUpdateSender<T>, n: nat)
    ensures
        spec_tick_run_emissions(s, n) <= n,
    decreases n,
{
    if n > 0 {
        lemma_coalescer_rate(spec_after_tick(s).0, (n - 1) as nat);
    }
}

/// Idle exit: when nothing is written for two consecutive periods, the
/// drainer terminates — the first wake-up drains or finds the slot empty,
/// the second finds it empty and exits, so `is_sending` is false afterwards.
pub proof fn lemma_coalescer_idle_exit<T>(s: PeriodicUpdateSender<T>)
    ensures
        !spec_after_tick(spec_after_tick(s).0).0.spec_alive(),
{
}

} // verus!
