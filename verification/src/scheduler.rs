//! The sync scheduler: decides, for a stream of primary-window move and
//! resize events, when the panel's geometry is recomputed and applied.
//!
//! Each event class (moved, resized) owns a monotonically increasing
//! generation counter. A deferred sync captures the counter's value when it
//! is scheduled and, on waking, executes only if the live counter still
//! equals the captured value: a newer event of the same class logically
//! cancels every older deferred sync without cancellable timers. Resize
//! events are additionally throttled: an immediate sync runs only when at
//! least [`SYNC_THROTTLE_MS`] milliseconds have passed since the last
//! applied sync.
//!
//! The scheduler is pure: it takes the current time as an argument and
//! returns plans. The shell performs the waiting and the window calls, and
//! reports each executed sync back through [`SchedulerState::record_sync`].
//! On primary-window destruction the shell closes the panel window; that
//! transition is terminal and needs no scheduling decision.

use vstd::prelude::*;

verus! {

/// Minimum interval between immediate syncs during a resize stream, in
/// milliseconds.
pub const SYNC_THROTTLE_MS: u64 = 80;

/// Delay of the quick deferred sync after a move event, in milliseconds: a
/// perceptual-latency budget, so the panel appears to move with the primary.
pub const MOVE_SYNC_DEFER_MS: u64 = 16;

/// Delay of the settle sync after a move or resize event, in milliseconds:
/// the authoritative correction once the gesture has stopped.
pub const SETTLE_SYNC_DELAY_MS: u64 = 150;

/// The two independent event classes, each with its own generation counter.
#[derive(Clone, Copy, Debug, PartialEq, Eq, Structural)]
pub enum EventClass {
    Moved,
    Resized,
}

/// A sync to execute after a delay, carrying the generation captured when it
/// was scheduled. On waking it executes only if its class's live generation
/// still equals `generation`.
#[derive(Clone, Copy, Debug, PartialEq, Eq, Structural)]
pub struct DeferredSync {
    /// How long to wait before the generation check, in milliseconds.
    pub delay_ms: u64,
    /// The generation captured at schedule time.
    pub generation: u64,
    /// The event class whose live counter decides whether this sync fires.
    pub class: EventClass,
    /// Whether the executed sync raises the panel's z-order.
    pub raise_focus: bool,
}

/// What a move event asks the shell to do: two deferred focus-raising syncs
/// with the same captured generation, a quick one and a later safety one.
/// The double schedule compensates for window-manager event coalescing; the
/// longer delay is the authoritative correction.
#[derive(Clone, Copy, Debug, PartialEq, Eq, Structural)]
pub struct MovedPlan {
    pub quick: DeferredSync,
    pub settle: DeferredSync,
}

/// What a resize event asks the shell to do: persist the new window size,
/// run an immediate non-focus-raising sync if the throttle window has
/// elapsed, and always schedule a deferred focus-raising settle sync.
#[derive(Clone, Copy, Debug, PartialEq, Eq, Structural)]
pub struct ResizedPlan {
    /// Always set: the new size is persisted on every resize, so a restart
    /// restores the prior window size.
    pub persist_size: bool,
    /// Whether to sync right now, without raising focus. True exactly when
    /// the throttle interval has elapsed since the last applied sync.
    pub immediate: bool,
    pub settle: DeferredSync,
}

/// The scheduler's entire shared state: one generation counter per event
/// class and the time of the last applied sync. Each field is a single word,
/// updated with atomic read-modify-write by the shell; no multi-field
/// transaction is ever needed.
#[derive(Clone, Copy, Debug, PartialEq, Eq, Structural)]
pub struct SchedulerState {
    /// Generation counter for move events; incremented on every move event,
    /// never reset.
    pub moved_generation: u64,
    /// Generation counter for resize events; incremented on every resize
    /// event, never reset.
    pub resized_generation: u64,
    /// Monotonic time of the last applied sync, in milliseconds.
    pub last_sync_ms: u64,
}

/// True when a sync may run now without violating the throttle: at least
/// [`SYNC_THROTTLE_MS`] milliseconds since the last applied sync.
pub open spec fn spec_throttle_allows(s: SchedulerState, now_ms: u64) -> bool {
    now_ms >= s.last_sync_ms + SYNC_THROTTLE_MS
}

/// True when a deferred sync that captured `generation` for `class` still
/// speaks for the newest event of its class and therefore executes.
pub open spec fn spec_should_fire(s: SchedulerState, class: EventClass, generation: u64) -> bool {
    generation == s.spec_generation(class)
}

impl SchedulerState {
    /// The state a process starts in: no event seen, no sync applied yet.
    pub fn new() -> (s: SchedulerState)
        ensures
            s == (SchedulerState { moved_generation: 0, resized_generation: 0, last_sync_ms: 0 }),
    {
        SchedulerState { moved_generation: 0, resized_generation: 0, last_sync_ms: 0 }
    }

    /// The live generation counter of an event class.
    pub open spec fn spec_generation(self, class: EventClass) -> u64 {
        match class {
            EventClass::Moved => self.moved_generation,
            EventClass::Resized => self.resized_generation,
        }
    }

    /// The state after a move event: its generation stepped, all else kept.
    pub open spec fn spec_on_moved(self) -> SchedulerState {
        SchedulerState { moved_generation: (self.moved_generation + 1) as u64, ..self }
    }

    /// The state after a resize event: its generation stepped, all else kept.
    pub open spec fn spec_on_resized(self) -> SchedulerState {
        SchedulerState { resized_generation: (self.resized_generation + 1) as u64, ..self }
    }

    /// The plan a move event returns, given the generation it captured.
    pub open spec fn spec_moved_plan(generation: u64) -> MovedPlan {
        MovedPlan {
            quick: DeferredSync {
                delay_ms: MOVE_SYNC_DEFER_MS,
                generation,
                class: EventClass::Moved,
                raise_focus: true,
            },
            settle: DeferredSync {
                delay_ms: SETTLE_SYNC_DELAY_MS,
                generation,
                class: EventClass::Moved,
                raise_focus: true,
            },
        }
    }

    /// The plan a resize event returns, given the generation it captured and
    /// whether the throttle window had elapsed.
    pub open spec fn spec_resized_plan(generation: u64, immediate: bool) -> ResizedPlan {
        ResizedPlan {
            persist_size: true,
            immediate,
            settle: DeferredSync {
                delay_ms: SETTLE_SYNC_DELAY_MS,
                generation,
                class: EventClass::Resized,
                raise_focus: true,
            },
        }
    }

    /// A primary-window move event: step the move generation and schedule
    /// two deferred focus-raising syncs tagged with the new generation.
    pub fn on_primary_moved(&mut self) -> (plan: MovedPlan)
        requires
            old(self).moved_generation < u64::MAX,
        ensures
            *final(self) == old(self).spec_on_moved(),
            plan == Self::spec_moved_plan(final(self).moved_generation),
    {
        self.moved_generation = self.moved_generation + 1;
        let g = self.moved_generation;
        MovedPlan {
            quick: DeferredSync {
                delay_ms: MOVE_SYNC_DEFER_MS,
                generation: g,
                class: EventClass::Moved,
                raise_focus: true,
            },
            settle: DeferredSync {
                delay_ms: SETTLE_SYNC_DELAY_MS,
                generation: g,
                class: EventClass::Moved,
                raise_focus: true,
            },
        }
    }

    /// A primary-window resize event: persist the new size, sync immediately
    /// if the throttle window has elapsed, and always schedule a deferred
    /// settle sync tagged with the stepped resize generation.
    pub fn on_primary_resized(&mut self, now_ms: u64) -> (plan: ResizedPlan)
        requires
            old(self).resized_generation < u64::MAX,
        ensures
            *final(self) == old(self).spec_on_resized(),
            plan == Self::spec_resized_plan(
                final(self).resized_generation,
                spec_throttle_allows(*old(self), now_ms),
            ),
    {
        let immediate = self.throttle_allows(now_ms);
        self.resized_generation = self.resized_generation + 1;
        let g = self.resized_generation;
        ResizedPlan {
            persist_size: true,
            immediate,
            settle: DeferredSync {
                delay_ms: SETTLE_SYNC_DELAY_MS,
                generation: g,
                class: EventClass::Resized,
                raise_focus: true,
            },
        }
    }

    /// Whether a sync may run now without violating the throttle.
    pub fn throttle_allows(&self, now_ms: u64) -> (r: bool)
        ensures
            r == spec_throttle_allows(*self, now_ms),
    {
        if now_ms >= self.last_sync_ms {
            now_ms - self.last_sync_ms >= SYNC_THROTTLE_MS
        } else {
            false
        }
    }

    /// Whether a woken deferred sync still speaks for the newest event of
    /// its class. A superseded sync is a no-op: logical cancellation.
    pub fn should_fire(&self, task: &DeferredSync) -> (r: bool)
        ensures
            r == spec_should_fire(*self, task.class, task.generation),
    {
        let live = match task.class {
            EventClass::Moved => self.moved_generation,
            EventClass::Resized => self.resized_generation,
        };
        task.generation == live
    }

    /// Record that a sync was applied now: the throttle measures from here.
    pub fn record_sync(&mut self, now_ms: u64)
        ensures
            *final(self) == (SchedulerState { last_sync_ms: now_ms, ..*old(self) }),
    {
        self.last_sync_ms = now_ms;
    }
}

/// The current time in milliseconds, for the throttle's bookkeeping.
///
/// Relies on std::time::SystemTime::now and duration_since: the system
/// clock's distance from the Unix epoch, in milliseconds; a clock reading
/// before the epoch comes out as zero. Nothing is assumed of the value: every
/// caller takes the time as an argument and is verified for all of them.
#[verifier::external_body]
pub fn now_millis() -> u64 {
    std::time::SystemTime::now()
        .duration_since(std::time::UNIX_EPOCH)
        .unwrap_or_default()
        .as_millis() as u64
}

/// The state after `n` consecutive move events.
pub open spec fn spec_moved_events(s: SchedulerState, n: nat) -> SchedulerState
    decreases n,
{
    if n == 0 {
        s
    } else {
        spec_moved_events(s, (n - 1) as nat).spec_on_moved()
    }
}

/// Law: move generations grow by exactly one per event and nothing else of
/// the state changes, so the counter read at any wake-up is the number of
/// move events seen so far.
pub proof fn lemma_moved_generation_monotonic(s: SchedulerState, n: nat)
    requires
        s.moved_generation + n <= u64::MAX,
    ensures
        spec_moved_events(s, n).moved_generation == s.moved_generation + n,
        spec_moved_events(s, n).resized_generation == s.resized_generation,
        spec_moved_events(s, n).last_sync_ms == s.last_sync_ms,
    decreases n,
{
    if n > 0 {
        lemma_moved_generation_monotonic(s, (n - 1) as nat);
    }
}

/// Law: of the deferred syncs scheduled by a burst of `n` move events, only
/// the ones scheduled by the last event fire; every earlier one wakes to
/// find its captured generation superseded and is a no-op.
pub proof fn lemma_only_latest_moved_fires(s: SchedulerState, n: nat, k: nat)
    requires
        1 <= k <= n,
        s.moved_generation + n <= u64::MAX,
    ensures
        spec_should_fire(
            spec_moved_events(s, n),
            EventClass::Moved,
            (s.moved_generation + k) as u64,
        ) <==> k == n,
{
    lemma_moved_generation_monotonic(s, n);
}

/// The number of immediate (throttled) syncs that a stream of resize events
/// at the given times produces, when the shell records each immediate sync
/// at its event's time.
pub open spec fn spec_immediate_count(s: SchedulerState, times: Seq<u64>) -> nat
    decreases times.len(),
{
    if times.len() == 0 {
        0
    } else {
        let t = times[0];
        let stepped = s.spec_on_resized();
        if spec_throttle_allows(s, t) {
            1 + spec_immediate_count(
                SchedulerState { last_sync_ms: t, ..stepped },
                times.drop_first(),
            )
        } else {
            spec_immediate_count(stepped, times.drop_first())
        }
    }
}

/// Law: immediate syncs are at least [`SYNC_THROTTLE_MS`] apart, so a resize
/// stream whose events all lie at or before `hi` produces at most
/// `(hi - last_sync) / SYNC_THROTTLE_MS` immediate syncs.
pub proof fn lemma_immediate_syncs_spaced(s: SchedulerState, times: Seq<u64>, hi: u64)
    requires
        forall|i: int| 0 <= i < times.len() ==> times[i] <= hi,
    ensures
        spec_immediate_count(s, times) * SYNC_THROTTLE_MS <= if s.last_sync_ms <= hi {
            hi - s.last_sync_ms
        } else {
            0
        },
    decreases times.len(),
{
    if times.len() > 0 {
        let t = times[0];
        let stepped = s.spec_on_resized();
        if spec_throttle_allows(s, t) {
            lemma_immediate_syncs_spaced(
                SchedulerState { last_sync_ms: t, ..stepped },
                times.drop_first(),
                hi,
            );
        } else {
            lemma_immediate_syncs_spaced(stepped, times.drop_first(), hi);
        }
    }
}

/// Law: the throttle bound. For any resize stream confined to a window of
/// `hi - lo` milliseconds, the number of immediate syncs is at most the
/// window's length divided by [`SYNC_THROTTLE_MS`], plus one; the deferred
/// settle sync guarantees the final correction separately.
pub proof fn lemma_throttle_bound(s: SchedulerState, times: Seq<u64>, lo: u64, hi: u64)
    requires
        lo <= hi,
        forall|i: int| 0 <= i < times.len() ==> lo <= #[trigger] times[i] <= hi,
    ensures
        spec_immediate_count(s, times) * SYNC_THROTTLE_MS <= (hi - lo) + SYNC_THROTTLE_MS,
    decreases times.len(),
{
    if times.len() > 0 {
        let t = times[0];
        let stepped = s.spec_on_resized();
        if spec_throttle_allows(s, t) {
            lemma_immediate_syncs_spaced(
                SchedulerState { last_sync_ms: t, ..stepped },
                times.drop_first(),
                hi,
            );
        } else {
            lemma_throttle_bound(stepped, times.drop_first(), lo, hi);
        }
    }
}

} // verus!
