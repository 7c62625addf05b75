//! The clock / tick barrier.
//!
//! A rendezvous barrier paces every registered consumer to a common
//! logical clock rate: the driver emits one tick to all subscribers,
//! suspends until every currently registered subscriber has
//! acknowledged that tick, and only then may emit the next one. No
//! subscriber can observe tick N+1 until all subscribers have
//! acknowledged tick N, which keeps independently scheduled subsystems
//! advancing in lock-step without drift.
//!
//! This module holds the barrier's state machine and its protocol; the
//! embedding program supplies the actual channels, tasks and pacing
//! sleeps around it. Pacing cadence: the driver batches
//! `TICKS_PER_FRAME` ticks (the target logical frequency divided by the
//! target frame rate) per fixed real-time frame, then sleeps for the
//! remainder of the frame - one tick per frame would run far below real
//! speed, so the batch size is chosen explicitly here.
use vstd::prelude::*;

verus! {

/// Target logical clock frequency, in ticks per second.
pub const FREQUENCY: u64 = 4194304;

/// Target real-time frame rate the pacing loop sleeps against.
pub const FPS: u64 = 60;

/// Ticks the driver emits per real-time frame.
pub const TICKS_PER_FRAME: u64 = FREQUENCY / FPS;

/// The tick-barrier state: a monotonically increasing tick counter, the
/// number of registered subscribers, and the completion-counting gate of
/// the round in flight.
#[derive(Clone, Copy, Debug, PartialEq, Eq, Structural)]
pub struct Clock {
    /// Ticks emitted so far.
    pub ticks: u64,
    /// Registered subscribers; each must acknowledge every tick.
    pub syncer_count: usize,
    /// Acknowledgments received for the tick in flight.
    pub acks: usize,
    /// Whether a tick has been emitted and not yet fully acknowledged.
    pub round_open: bool,
}

impl Clock {
    /// The state after registering one more subscriber.
    pub open spec fn spec_subscribe(self) -> Clock {
        Clock { syncer_count: (self.syncer_count + 1) as usize, ..self }
    }

    /// The state after emitting a tick: the counter advances and the
    /// acknowledgment gate resets.
    pub open spec fn spec_begin_tick(self) -> Clock {
        Clock { ticks: (self.ticks + 1) as u64, acks: 0, round_open: true, ..self }
    }

    /// The state after one subscriber acknowledges the tick in flight.
    pub open spec fn spec_acknowledge(self) -> Clock {
        Clock { acks: (self.acks + 1) as usize, ..self }
    }

    /// Whether the round in flight may close: every registered
    /// subscriber has acknowledged.
    pub open spec fn spec_can_end(self) -> bool {
        self.round_open && self.acks == self.syncer_count
    }

    /// The state after closing a fully acknowledged round.
    pub open spec fn spec_end_tick(self) -> Clock {
        Clock { round_open: false, ..self }
    }

    /// The state after `k` subscribers acknowledge in turn.
    pub open spec fn apply_acks(self, k: nat) -> Clock
        decreases k,
    {
        if k == 0 {
            self
        } else {
            self.apply_acks((k - 1) as nat).spec_acknowledge()
        }
    }

    /// A fresh barrier: no ticks emitted, no subscribers, no round in
    /// flight.
    pub fn new() -> (r: Clock)
        ensures
            r == (Clock { ticks: 0u64, syncer_count: 0usize, acks: 0usize, round_open: false }),
    {
        Clock { ticks: 0, syncer_count: 0, acks: 0, round_open: false }
    }

    /// Registers a new consumer between ticks and returns its handle
    /// index; every subsequent tick waits for its acknowledgment too.
    pub fn syncer(&mut self) -> (id: usize)
        requires
            !old(self).round_open,
            old(self).syncer_count < usize::MAX,
        ensures
            *final(self) == old(self).spec_subscribe(),
            id == old(self).syncer_count,
    {
        let id = self.syncer_count;
        self.syncer_count = self.syncer_count + 1;
        id
    }

    /// Emits the next tick: only allowed once the previous round has
    /// fully closed, so no subscriber can observe this tick before all
    /// subscribers acknowledged the last one.
    pub fn begin_tick(&mut self)
        requires
            !old(self).round_open,
            old(self).ticks < u64::MAX,
        ensures
            *final(self) == old(self).spec_begin_tick(),
    {
        self.ticks = self.ticks + 1;
        self.acks = 0;
        self.round_open = true;
    }

    /// Records one subscriber's acknowledgment of the tick in flight.
    pub fn acknowledge(&mut self)
        requires
            old(self).round_open,
            old(self).acks < old(self).syncer_count,
        ensures
            *final(self) == old(self).spec_acknowledge(),
    {
        self.acks = self.acks + 1;
    }

    /// Whether every registered subscriber has acknowledged the tick in
    /// flight.
    pub fn all_acknowledged(&self) -> (r: bool)
        ensures
            r == (self.acks == self.syncer_count),
    {
        self.acks == self.syncer_count
    }

    /// Closes a fully acknowledged round; the next tick may then be
    /// emitted.
    pub fn end_tick(&mut self)
        requires
            old(self).spec_can_end(),
        ensures
            *final(self) == old(self).spec_end_tick(),
    {
        self.round_open = false;
    }
}

/// Acknowledgments accumulate one by one and touch nothing else.
pub proof fn lemma_apply_acks_counts(c: Clock, k: nat)
    requires
        c.acks + k <= usize::MAX,
    ensures
        c.apply_acks(k).acks == c.acks + k,
        c.apply_acks(k).ticks == c.ticks,
        c.apply_acks(k).syncer_count == c.syncer_count,
        c.apply_acks(k).round_open == c.round_open,
    decreases k,
{
    if k > 0 {
        lemma_apply_acks_counts(c, (k - 1) as nat);
    }
}

/// Tick barrier: with N registered subscribers, a round opened by a
/// tick cannot close - so no subscriber can observe the next tick -
/// until all N have acknowledged; after exactly N acknowledgments it
/// can.
pub proof fn lemma_round_needs_every_ack(c: Clock, k: nat)
    requires
        !c.round_open,
        c.ticks < u64::MAX,
        k < c.syncer_count,
    ensures
        !c.spec_begin_tick().apply_acks(k).spec_can_end(),
        c.spec_begin_tick().apply_acks(c.syncer_count as nat).spec_can_end(),
{
    lemma_apply_acks_counts(c.spec_begin_tick(), k);
    lemma_apply_acks_counts(c.spec_begin_tick(), c.syncer_count as nat);
}

/// Adding a subscriber between ticks leaves the tick counter untouched
/// and raises the acknowledgment requirement of subsequent rounds by
/// exactly one: the new round cannot close until all N+1 subscribers
/// acknowledged.
pub proof fn lemma_subscribe_between_ticks(c: Clock, k: nat)
    requires
        !c.round_open,
        c.ticks < u64::MAX,
        c.syncer_count < usize::MAX,
        k < c.syncer_count + 1,
    ensures
        c.spec_subscribe().ticks == c.ticks,
        !c.spec_subscribe().spec_begin_tick().apply_acks(k).spec_can_end(),
        c.spec_subscribe().spec_begin_tick().apply_acks(
            (c.syncer_count + 1) as nat,
        ).spec_can_end(),
{
    lemma_round_needs_every_ack(c.spec_subscribe(), k);
}

} // verus!
