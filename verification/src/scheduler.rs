//! When to look for groups again.
//!
//! The scan for groups runs beside the panel, one scan at a time. The
//! scheduler counts the updates of the panel, starts a scan once enough of
//! them have passed and none is under way, and gives the handle of a
//! finished scan back exactly once.

use vstd::prelude::*;

verus! {

/// How many updates pass between two scans.
pub const REFRESH_THRESHOLD: u32 = 10000;

/// The count that a new scheduler starts with: close to the threshold, so
/// that the first scan starts soon after the panel opens.
pub const STARTUP_TICK: u32 = 9975;

/// The state of a scheduler as far as its decisions go: how many updates it
/// has counted, and whether a scan is under way.
pub struct SchedulerState {
    pub tick: nat,
    pub pending: bool,
}

/// What can happen to a scheduler.
pub enum SchedulerEvent {
    /// The panel was updated once.
    Tick,
    /// The operator asked for a scan as soon as possible.
    Refresh { threshold: nat },
    /// The scheduler was asked whether to start a scan.
    MaybeLaunch { threshold: nat },
    /// The scheduler was asked for the scan under way, which has finished
    /// or not.
    Harvest { finished: bool },
}

/// Whether a scheduler in state `s` starts a scan when asked: none is under
/// way, and the count has reached the threshold.
pub open spec fn launches(s: SchedulerState, threshold: nat) -> bool {
    !s.pending && s.tick >= threshold
}

/// Whether a scheduler in state `s` hands out its scan when asked: one is
/// under way, and it has finished.
pub open spec fn harvests(s: SchedulerState, finished: bool) -> bool {
    s.pending && finished
}

/// The state that follows `s` after `event`.
pub open spec fn step(s: SchedulerState, event: SchedulerEvent) -> SchedulerState {
    match event {
        SchedulerEvent::Tick => SchedulerState { tick: s.tick + 1, pending: s.pending },
        SchedulerEvent::Refresh { threshold } => SchedulerState {
            tick: threshold,
            pending: s.pending,
        },
        SchedulerEvent::MaybeLaunch { threshold } => if launches(s, threshold) {
            SchedulerState { tick: 0, pending: true }
        } else {
            s
        },
        SchedulerEvent::Harvest { finished } => if harvests(s, finished) {
            SchedulerState { tick: s.tick, pending: false }
        } else {
            s
        },
    }
}

/// The state that follows `s` after all of `events`, in order.
pub open spec fn run(s: SchedulerState, events: Seq<SchedulerEvent>) -> SchedulerState
    decreases events.len(),
{
    if events.len() == 0 {
        s
    } else {
        step(run(s, events.drop_last()), events.last())
    }
}

/// How many scans a scheduler that starts in `s` starts during `events`.
pub open spec fn launch_count(s: SchedulerState, events: Seq<SchedulerEvent>) -> nat
    decreases events.len(),
{
    if events.len() == 0 {
        0
    } else {
        let earlier = launch_count(s, events.drop_last());
        match events.last() {
            SchedulerEvent::MaybeLaunch { threshold } => if launches(
                run(s, events.drop_last()),
                threshold,
            ) {
                earlier + 1
            } else {
                earlier
            },
            _ => earlier,
        }
    }
}

/// How many scans a scheduler that starts in `s` hands out during `events`.
pub open spec fn harvest_count(s: SchedulerState, events: Seq<SchedulerEvent>) -> nat
    decreases events.len(),
{
    if events.len() == 0 {
        0
    } else {
        let earlier = harvest_count(s, events.drop_last());
        match events.last() {
            SchedulerEvent::Harvest { finished } => if harvests(
                run(s, events.drop_last()),
                finished,
            ) {
                earlier + 1
            } else {
                earlier
            },
            _ => earlier,
        }
    }
}

/// How many scans are under way in state `s`: one or none.
pub open spec fn in_flight(s: SchedulerState) -> nat {
    if s.pending {
        1
    } else {
        0
    }
}

/// `count` updates of the panel, and nothing else.
pub open spec fn ticks(count: nat) -> Seq<SchedulerEvent> {
    Seq::new(count, |i: int| SchedulerEvent::Tick)
}

/// Counts the updates of the panel and owns the handle of the scan that is
/// under way, if any. `H` is the handle of a scan.
#[derive(Debug)]
pub struct RefreshScheduler<H> {
    tick: u32,
    pending: Option<H>,
}

impl<H> View for RefreshScheduler<H> {
    type V = SchedulerState;

    open spec fn view(&self) -> SchedulerState {
        SchedulerState { tick: self.counted(), pending: self.handle() is Some }
    }
}

impl<H> RefreshScheduler<H> {
    /// The updates counted since the last scan started.
    pub closed spec fn counted(&self) -> nat {
        self.tick as nat
    }

    /// The handle of the scan under way, if any.
    pub closed spec fn handle(&self) -> Option<H> {
        self.pending
    }

    /// A scheduler with no scan under way, about to start its first.
    pub fn new() -> (scheduler: Self)
        ensures
            scheduler@ == (SchedulerState { tick: STARTUP_TICK as nat, pending: false }),
            scheduler.handle() is None,
    {
        RefreshScheduler { tick: STARTUP_TICK, pending: None }
    }

    /// The updates counted since the last scan started.
    pub fn tick(&self) -> (count: u32)
        ensures
            count == self@.tick,
    {
        self.tick
    }

    /// Whether a scan is under way.
    pub fn is_pending(&self) -> (pending: bool)
        ensures
            pending == self@.pending,
    {
        self.pending.is_some()
    }

    /// The handle of the scan under way, to ask it whether it has finished.
    pub fn pending(&self) -> (handle: Option<&H>)
        ensures
            handle is Some == self.handle() is Some,
            handle matches Some(h) ==> *h == self.handle()->0,
    {
        self.pending.as_ref()
    }

    /// Counts one update of the panel. To be called once per update,
    /// whether a scan is under way or not. The count must have room for one
    /// more, which it has unless a scan has been stuck for billions of
    /// updates.
    pub fn tick_once(&mut self)
        requires
            old(self)@.tick < u32::MAX,
        ensures
            final(self)@ == step(old(self)@, SchedulerEvent::Tick),
            final(self).handle() == old(self).handle(),
    {
        self.tick = self.tick + 1;
    }

    /// Notes that the operator asked for a scan: the count jumps to
    /// `threshold`, so that the next [`maybe_launch`](Self::maybe_launch)
    /// with that threshold starts a scan unless one is under way.
    pub fn request_refresh(&mut self, threshold: u32)
        ensures
            final(self)@ == step(old(self)@, SchedulerEvent::Refresh { threshold: threshold as nat }),
            final(self).handle() == old(self).handle(),
    {
        self.tick = threshold;
    }

    /// Starts a scan if none is under way and at least `threshold` updates
    /// were counted: calls `start`, keeps the handle it returns, and counts
    /// from zero again. Otherwise does nothing, and `start` is not called.
    /// Returns whether a scan was started.
    pub fn maybe_launch<F: FnOnce() -> H>(&mut self, threshold: u32, start: F) -> (launched: bool)
        requires
            start.requires(()),
        ensures
            launched == launches(old(self)@, threshold as nat),
            final(self)@ == step(
                old(self)@,
                SchedulerEvent::MaybeLaunch { threshold: threshold as nat },
            ),
            launched ==> (final(self).handle() matches Some(h) && start.ensures((), h)),
            !launched ==> final(self).handle() == old(self).handle(),
    {
        if self.pending.is_none() && self.tick >= threshold {
            let handle = start();
            self.pending = Some(handle);
            self.tick = 0;
            true
        } else {
            false
        }
    }

    /// Hands out the handle of the scan under way if that scan has
    /// finished, and holds none afterwards. With no scan under way, or with
    /// one that has not finished, returns `None` and changes nothing.
    pub fn try_harvest(&mut self, finished: bool) -> (harvested: Option<H>)
        ensures
            final(self)@ == step(old(self)@, SchedulerEvent::Harvest { finished }),
            harvests(old(self)@, finished) ==> harvested == old(self).handle(),
            harvests(old(self)@, finished) ==> final(self).handle() is None,
            !harvests(old(self)@, finished) ==> harvested is None,
            !harvests(old(self)@, finished) ==> final(self).handle() == old(self).handle(),
    {
        if finished && self.pending.is_some() {
            self.pending.take()
        } else {
            None
        }
    }
}

impl<H> Default for RefreshScheduler<H> {
    /// The scheduler that [`RefreshScheduler::new`] gives.
    fn default() -> (scheduler: Self)
        ensures
            scheduler@ == (SchedulerState { tick: STARTUP_TICK as nat, pending: false }),
            scheduler.handle() is None,
    {
        RefreshScheduler::new()
    }
}

/// While a scan is under way no other is started, however often the
/// scheduler is asked and whatever the count.
pub proof fn lemma_pending_blocks_launch(s: SchedulerState, threshold: nat)
    requires
        s.pending,
    ensures
        !launches(s, threshold),
        step(s, SchedulerEvent::MaybeLaunch { threshold }) == s,
{
}

/// Updates alone change the count and nothing else.
pub proof fn lemma_ticks_only_count(s: SchedulerState, count: nat)
    ensures
        run(s, ticks(count)) == (SchedulerState { tick: s.tick + count, pending: s.pending }),
        launch_count(s, ticks(count)) == 0,
        harvest_count(s, ticks(count)) == 0,
    decreases count,
{
    if count > 0 {
        let shorter = (count - 1) as nat;
        lemma_ticks_only_count(s, shorter);
        assert(ticks(count).drop_last() =~= ticks(shorter));
        assert(ticks(count).last() == SchedulerEvent::Tick);
    }
}

/// After any number of updates, a scheduler with a scan under way still
/// starts no second one; and one whose count stays below the threshold
/// starts none at all.
pub proof fn lemma_no_second_launch_after_ticks(s: SchedulerState, count: nat, threshold: nat)
    requires
        s.pending || s.tick + count < threshold,
    ensures
        !launches(run(s, ticks(count)), threshold),
        step(run(s, ticks(count)), SchedulerEvent::MaybeLaunch { threshold }) == run(
            s,
            ticks(count),
        ),
{
    lemma_ticks_only_count(s, count);
}

/// Single flight: whatever happens to a scheduler, the scans it started and
/// has not handed out yet are one or none, and are one exactly when it
/// holds a handle.
pub proof fn lemma_single_flight(s: SchedulerState, events: Seq<SchedulerEvent>)
    ensures
        in_flight(s) + launch_count(s, events) == harvest_count(s, events) + in_flight(
            run(s, events),
        ),
        launch_count(s, events) <= harvest_count(s, events) + 1,
    decreases events.len(),
{
    if events.len() > 0 {
        lemma_single_flight(s, events.drop_last());
    }
}

/// The count falls back to zero exactly when a scan is started: asking for
/// a launch leaves the count alone unless it starts one.
pub proof fn lemma_count_resets_on_launch(s: SchedulerState, threshold: nat)
    ensures
        launches(s, threshold) ==> step(s, SchedulerEvent::MaybeLaunch { threshold }).tick == 0,
        !launches(s, threshold) ==> step(s, SchedulerEvent::MaybeLaunch { threshold }).tick
            == s.tick,
{
}

} // verus!
