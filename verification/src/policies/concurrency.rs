use vstd::prelude::*;

verus! {

/// One step of slot accounting: an attempt takes a slot (granted only while
/// fewer than `limit` are held) or gives one back.
#[derive(Clone, Copy, PartialEq, Eq, Structural, Debug)]
pub enum SlotEvent {
    Acquire,
    Release,
}

/// The number of held slots after applying `event` to a state holding `cur`
/// of `limit` slots.
pub open spec fn slot_step(limit: nat, cur: nat, event: SlotEvent) -> nat {
    match event {
        SlotEvent::Acquire => if cur < limit {
            cur + 1
        } else {
            cur
        },
        SlotEvent::Release => if cur > 0 {
            (cur - 1) as nat
        } else {
            cur
        },
    }
}

/// The number of held slots after a whole sequence of acquire and release
/// steps, starting from none held.
pub open spec fn slots_after(limit: nat, events: Seq<SlotEvent>) -> nat
    decreases events.len(),
{
    if events.len() == 0 {
        0
    } else {
        slot_step(limit, slots_after(limit, events.drop_last()), events.last())
    }
}

/// Concurrency bound: whatever the interleaving of acquisitions and releases,
/// the number of held slots never exceeds the limit.
pub proof fn lemma_concurrency_bound(limit: nat, events: Seq<SlotEvent>)
    ensures
        slots_after(limit, events) <= limit,
    decreases events.len(),
{
    if events.len() > 0 {
        lemma_concurrency_bound(limit, events.drop_last());
    }
}

/// Caps the number of envelopes simultaneously in flight against the
/// transport: an attempt holds one of `limit` slots for exactly the duration
/// of its transport call.
#[derive(Debug)]
pub struct ConcurrencyLimiter {
    limit: u64,
    in_flight: u64,
}

impl ConcurrencyLimiter {
    /// The number of slots.
    pub closed spec fn spec_limit(&self) -> u64 {
        self.limit
    }

    /// The number of slots currently held.
    pub closed spec fn spec_in_flight(&self) -> u64 {
        self.in_flight
    }

    /// No more slots are ever held than exist.
    pub open spec fn wf(&self) -> bool {
        &&& self.spec_limit() >= 1
        &&& self.spec_in_flight() <= self.spec_limit()
    }

    pub fn new(limit: u64) -> (r: ConcurrencyLimiter)
        requires
            limit >= 1,
        ensures
            r.wf(),
            r.spec_limit() == limit,
            r.spec_in_flight() == 0,
    {
        ConcurrencyLimiter { limit, in_flight: 0 }
    }

    /// Whether a slot is free right now.
    pub fn has_capacity(&self) -> (r: bool)
        ensures
            r == (self.spec_in_flight() < self.spec_limit()),
    {
        self.in_flight < self.limit
    }

    /// Take a slot if one is free; granted exactly when fewer slots are held
    /// than exist.
    pub fn try_acquire(&mut self) -> (granted: bool)
        requires
            old(self).wf(),
        ensures
            final(self).wf(),
            final(self).spec_limit() == old(self).spec_limit(),
            granted <==> old(self).spec_in_flight() < old(self).spec_limit(),
            final(self).spec_in_flight() as nat == slot_step(
                old(self).spec_limit() as nat,
                old(self).spec_in_flight() as nat,
                SlotEvent::Acquire,
            ),
    {
        if self.in_flight < self.limit {
            self.in_flight = self.in_flight + 1;
            true
        } else {
            false
        }
    }

    /// Give a held slot back, unconditionally, as soon as the attempt's
    /// transport call returns.
    pub fn release(&mut self)
        requires
            old(self).wf(),
            old(self).spec_in_flight() >= 1,
        ensures
            final(self).wf(),
            final(self).spec_limit() == old(self).spec_limit(),
            final(self).spec_in_flight() as nat == slot_step(
                old(self).spec_limit() as nat,
                old(self).spec_in_flight() as nat,
                SlotEvent::Release,
            ),
    {
        self.in_flight = self.in_flight - 1;
    }

    /// The number of attempts currently in flight.
    pub fn in_flight(&self) -> (r: u64)
        ensures
            r == self.spec_in_flight(),
    {
        self.in_flight
    }
}

} // verus!
