use vstd::prelude::*;
use crate::config::{spec_tick_threshold, tick_threshold, RANGE_COUNT};

verus! {

broadcast use vstd::array::group_array_axioms;

/// A counter after one more tick; it wraps at the end of `u32`.
pub open spec fn next_count(v: u32) -> u32 {
    if v == u32::MAX {
        0
    } else {
        (v + 1) as u32
    }
}

/// The counters after one tick: every counter moves on by one.
pub open spec fn spec_tick(c: Seq<u32>) -> Seq<u32> {
    Seq::new(c.len(), |i: int| next_count(c[i]))
}

/// Whether range `r`'s counter has passed its threshold.
pub open spec fn crossed(c: Seq<u32>, r: int) -> bool {
    c[r] > spec_tick_threshold(r)
}

/// The counters after `take_and_maybe_reset(r)`.
pub open spec fn spec_take(c: Seq<u32>, r: int) -> Seq<u32> {
    if crossed(c, r) {
        c.update(r, 0)
    } else {
        c
    }
}

/// What `take_and_maybe_reset(r)` returns: the count it cleared, or zero.
pub open spec fn spec_taken(c: Seq<u32>, r: int) -> u32 {
    if crossed(c, r) {
        c[r]
    } else {
        0
    }
}

/// One per-range tick counter for each configured range.
///
/// The interrupt handler calls `on_tick`; the main loop calls
/// `take_and_maybe_reset`. The caller runs each call with the tick
/// interrupt masked, so that no tick falls between a read and its reset.
pub struct TickClock {
    counters: [u32; 7],
}

impl View for TickClock {
    type V = Seq<u32>;

    closed spec fn view(&self) -> Seq<u32> {
        self.counters@
    }
}

impl TickClock {
    pub open spec fn wf(&self) -> bool {
        self@.len() == RANGE_COUNT
    }

    /// All counters at zero.
    pub fn new() -> (c: TickClock)
        ensures
            c.wf(),
            c@ == Seq::new(RANGE_COUNT as nat, |i: int| 0u32),
    {
        let c = TickClock { counters: [0u32; 7] };
        assert(c@ =~= Seq::new(RANGE_COUNT as nat, |i: int| 0u32));
        c
    }

    /// The counter of range `range`.
    pub fn counter(&self, range: usize) -> (v: u32)
        requires
            self.wf(),
            range < RANGE_COUNT,
        ensures
            v == self@[range as int],
    {
        self.counters[range]
    }

    /// One hardware tick: every counter moves on by one. O(1), never blocks.
    pub fn on_tick(&mut self)
        requires
            old(self).wf(),
        ensures
            final(self).wf(),
            final(self)@ == spec_tick(old(self)@),
    {
        let mut i: usize = 0;
        while i < RANGE_COUNT
            invariant
                i <= RANGE_COUNT,
                self@.len() == RANGE_COUNT,
                old(self)@.len() == RANGE_COUNT,
                forall|j: int| 0 <= j < i ==> self@[j] == next_count(old(self)@[j]),
                forall|j: int| i <= j < RANGE_COUNT ==> self@[j] == old(self)@[j],
            decreases RANGE_COUNT - i,
        {
            let v = self.counters[i];
            self.counters[i] = if v == u32::MAX {
                0
            } else {
                v + 1
            };
            i += 1;
        }
        assert(self@ =~= spec_tick(old(self)@));
    }

    /// Reads range `range`'s counter; where it has passed the range's
    /// threshold, clears it and returns the count read (never zero then).
    /// Otherwise returns zero and changes nothing.
    pub fn take_and_maybe_reset(&mut self, range: usize) -> (r: u32)
        requires
            old(self).wf(),
            range < RANGE_COUNT,
        ensures
            final(self).wf(),
            final(self)@ == spec_take(old(self)@, range as int),
            r == spec_taken(old(self)@, range as int),
            r != 0 <==> crossed(old(self)@, range as int),
    {
        let v = self.counters[range];
        if v > tick_threshold(range) {
            self.counters[range] = 0;
            v
        } else {
            0
        }
    }

    /// Sets range `range`'s counter just past its threshold, so that the
    /// next `take_and_maybe_reset(range)` fires at once.
    pub fn force_advance(&mut self, range: usize)
        requires
            old(self).wf(),
            range < RANGE_COUNT,
        ensures
            final(self).wf(),
            final(self)@ == old(self)@.update(range as int, (spec_tick_threshold(range as int) + 1) as u32),
            crossed(final(self)@, range as int),
    {
        let t = tick_threshold(range);
        self.counters[range] = t + 1;
    }
}

/// What can happen to the counters: a tick, or a take on one range.
#[derive(PartialEq, Eq, Structural)]
pub enum ClockEvent {
    Tick,
    Take(usize),
}

/// Every take in the run names a configured range.
pub open spec fn events_valid(evs: Seq<ClockEvent>) -> bool {
    forall|k: int| 0 <= k < evs.len() ==> (#[trigger] evs[k] matches ClockEvent::Take(q) ==> q < RANGE_COUNT)
}

/// The counters after one event.
pub open spec fn apply_event(c: Seq<u32>, e: ClockEvent) -> Seq<u32> {
    match e {
        ClockEvent::Tick => spec_tick(c),
        ClockEvent::Take(r) => spec_take(c, r as int),
    }
}

/// The counters after a run of events, first event first.
pub open spec fn replay(c: Seq<u32>, evs: Seq<ClockEvent>) -> Seq<u32>
    decreases evs.len(),
{
    if evs.len() == 0 {
        c
    } else {
        apply_event(replay(c, evs.drop_last()), evs.last())
    }
}

/// Number of ticks in a run of events.
pub open spec fn tick_count(evs: Seq<ClockEvent>) -> int
    decreases evs.len(),
{
    if evs.len() == 0 {
        0
    } else {
        tick_count(evs.drop_last()) + if evs.last() is Tick {
            1int
        } else {
            0int
        }
    }
}

/// Sum of what the takes on range `r` returned over a run of events.
pub open spec fn taken_sum(c: Seq<u32>, evs: Seq<ClockEvent>, r: int) -> int
    decreases evs.len(),
{
    if evs.len() == 0 {
        0
    } else {
        taken_sum(c, evs.drop_last(), r) + match evs.last() {
            ClockEvent::Take(q) => if q as int == r {
                spec_taken(replay(c, evs.drop_last()), r) as int
            } else {
                0int
            },
            ClockEvent::Tick => 0int,
        }
    }
}

/// No tick is lost or counted twice: over any run of ticks and takes, a
/// range's counter ends at its start value plus the ticks, less what the
/// takes on that range cleared (while the sum stays within `u32`).
pub proof fn lemma_ticks_conserved(c: Seq<u32>, evs: Seq<ClockEvent>, r: int)
    requires
        c.len() == RANGE_COUNT,
        0 <= r < RANGE_COUNT,
        events_valid(evs),
        c[r] + tick_count(evs) <= u32::MAX,
    ensures
        replay(c, evs).len() == RANGE_COUNT,
        replay(c, evs)[r] + taken_sum(c, evs, r) == c[r] + tick_count(evs),
        taken_sum(c, evs, r) >= 0,
    decreases evs.len(),
{
    if evs.len() > 0 {
        let pre = evs.drop_last();
        lemma_tick_count_nonneg(pre);
        assert(tick_count(pre) <= tick_count(evs));
        assert forall|k: int| 0 <= k < pre.len() implies #[trigger] pre[k] == evs[k] by {}
        assert(events_valid(pre));
        lemma_ticks_conserved(c, pre, r);
        let before = replay(c, pre);
        assert(evs.last() == evs[evs.len() - 1]);
        match evs.last() {
            ClockEvent::Tick => {
                assert(before[r] <= c[r] + tick_count(pre));
                assert(spec_tick(before)[r] == next_count(before[r]));
            },
            ClockEvent::Take(q) => {
                assert(q < RANGE_COUNT);
                assert(spec_take(before, q as int).len() == before.len());
            },
        }
    }
}

proof fn lemma_tick_count_nonneg(evs: Seq<ClockEvent>)
    ensures
        tick_count(evs) >= 0,
    decreases evs.len(),
{
    if evs.len() > 0 {
        lemma_tick_count_nonneg(evs.drop_last());
    }
}

/// A range that no take touched has counted every tick.
pub proof fn lemma_untouched_counts_all(c: Seq<u32>, evs: Seq<ClockEvent>, r: int)
    requires
        c.len() == RANGE_COUNT,
        0 <= r < RANGE_COUNT,
        events_valid(evs),
        c[r] + tick_count(evs) <= u32::MAX,
        forall|k: int| 0 <= k < evs.len() ==> evs[k] != ClockEvent::Take(r as usize),
    ensures
        replay(c, evs)[r] == c[r] + tick_count(evs),
    decreases evs.len(),
{
    lemma_ticks_conserved(c, evs, r);
    lemma_untouched_takes_nothing(c, evs, r);
}

proof fn lemma_untouched_takes_nothing(c: Seq<u32>, evs: Seq<ClockEvent>, r: int)
    requires
        0 <= r < RANGE_COUNT,
        forall|k: int| 0 <= k < evs.len() ==> evs[k] != ClockEvent::Take(r as usize),
    ensures
        taken_sum(c, evs, r) == 0,
    decreases evs.len(),
{
    if evs.len() > 0 {
        let pre = evs.drop_last();
        assert forall|k: int| 0 <= k < pre.len() implies pre[k] != ClockEvent::Take(r as usize) by {
            assert(pre[k] == evs[k]);
        }
        lemma_untouched_takes_nothing(c, pre, r);
        assert(evs[evs.len() - 1] != ClockEvent::Take(r as usize));
    }
}

} // verus!
