use vstd::prelude::*;
use crate::config::{HISTORY_LEN, PPM_CEILING, PPM_FLOOR, RANGE_COUNT};

verus! {

broadcast use vstd::array::group_array_axioms;

/// A reading held to the band that the chart can show.
pub open spec fn spec_clamp(v: u32) -> u32 {
    if v < PPM_FLOOR {
        PPM_FLOOR
    } else if v > PPM_CEILING {
        PPM_CEILING
    } else {
        v
    }
}

/// A buffer of one range after one advance: the oldest sample leaves, the
/// clamped reading comes in last.
pub open spec fn spec_advance(s: Seq<u32>, x: u32) -> Seq<u32> {
    s.subrange(1, s.len() as int).push(spec_clamp(x))
}

/// Every sample lies within the band the chart shows.
pub open spec fn in_band(s: Seq<u32>) -> bool {
    forall|k: int| 0 <= k < s.len() ==> PPM_FLOOR <= #[trigger] s[k] <= PPM_CEILING
}

/// Holds `v` to `[PPM_FLOOR, PPM_CEILING]`, leaving values inside unchanged.
pub fn clamp_ppm(v: u32) -> (r: u32)
    ensures
        r == spec_clamp(v),
        PPM_FLOOR <= r <= PPM_CEILING,
        PPM_FLOOR <= v <= PPM_CEILING ==> r == v,
{
    if v < PPM_FLOOR {
        PPM_FLOOR
    } else if v > PPM_CEILING {
        PPM_CEILING
    } else {
        v
    }
}

/// One rolling buffer of `HISTORY_LEN` samples per range, oldest first.
pub struct RangeHistory {
    samples: [[u32; 320]; 7],
}

impl View for RangeHistory {
    type V = Seq<Seq<u32>>;

    closed spec fn view(&self) -> Seq<Seq<u32>> {
        self.samples@.map_values(|b: [u32; 320]| b@)
    }
}

impl RangeHistory {
    pub open spec fn wf(&self) -> bool {
        &&& self@.len() == RANGE_COUNT
        &&& forall|r: int|
            0 <= r < RANGE_COUNT ==> (#[trigger] self@[r]).len() == HISTORY_LEN && in_band(
                self@[r],
            )
    }

    /// Every buffer filled with `PPM_FLOOR`.
    pub fn new() -> (h: RangeHistory)
        ensures
            h.wf(),
            forall|r: int, k: int|
                0 <= r < RANGE_COUNT && 0 <= k < HISTORY_LEN ==> #[trigger] h@[r][k] == PPM_FLOOR,
    {
        let h = RangeHistory { samples: [[PPM_FLOOR; 320]; 7] };
        h
    }

    /// The buffer of range `range`, oldest first.
    pub fn buffer(&self, range: usize) -> (b: [u32; 320])
        requires
            self.wf(),
            range < RANGE_COUNT,
        ensures
            b@ == self@[range as int],
    {
        self.samples[range]
    }

    /// The newest sample of range `range`.
    pub fn latest(&self, range: usize) -> (v: u32)
        requires
            self.wf(),
            range < RANGE_COUNT,
        ensures
            v == self@[range as int][HISTORY_LEN - 1],
    {
        self.samples[range][319]
    }

    /// The sample before the newest of range `range`.
    pub fn previous(&self, range: usize) -> (v: u32)
        requires
            self.wf(),
            range < RANGE_COUNT,
        ensures
            v == self@[range as int][HISTORY_LEN - 2],
    {
        self.samples[range][318]
    }

    /// Drops the oldest sample of range `range` and appends `clamp(new_sample)`.
    /// The other ranges are left as they were.
    pub fn advance(&mut self, range: usize, new_sample: u32)
        requires
            old(self).wf(),
            range < RANGE_COUNT,
        ensures
            final(self).wf(),
            final(self)@ == old(self)@.update(
                range as int,
                spec_advance(old(self)@[range as int], new_sample),
            ),
            final(self)@[range as int].len() == HISTORY_LEN,
            final(self)@[range as int][HISTORY_LEN - 1] == spec_clamp(new_sample),
            final(self)@[range as int].subrange(0, HISTORY_LEN - 1) == old(self)@[range as int].subrange(
                1,
                HISTORY_LEN as int,
            ),
    {
        let ghost before = self@[range as int];
        let mut buf: [u32; 320] = self.samples[range];
        assert(buf@ == before);
        let mut j: usize = 0;
        while j < HISTORY_LEN - 1
            invariant
                j < HISTORY_LEN,
                buf@.len() == HISTORY_LEN,
                before.len() == HISTORY_LEN,
                forall|k: int| 0 <= k < j ==> buf@[k] == before[k + 1],
                forall|k: int| j <= k < HISTORY_LEN ==> buf@[k] == before[k],
            decreases HISTORY_LEN - j,
        {
            let next = buf[j + 1];
            buf[j] = next;
            j += 1;
        }
        buf[319] = clamp_ppm(new_sample);
        assert(buf@ =~= spec_advance(before, new_sample));
        self.samples[range] = buf;
        assert(self@ =~= old(self)@.update(range as int, spec_advance(before, new_sample)));
        assert(spec_advance(before, new_sample).subrange(0, HISTORY_LEN - 1) =~= before.subrange(
            1,
            HISTORY_LEN as int,
        ));
        assert forall|r: int| 0 <= r < RANGE_COUNT implies (#[trigger] self@[r]).len()
            == HISTORY_LEN && in_band(self@[r]) by {
            if r == range as int {
                assert forall|k: int| 0 <= k < HISTORY_LEN implies PPM_FLOOR <= #[trigger] self@[r][k]
                    <= PPM_CEILING by {
                    if k < HISTORY_LEN - 1 {
                        assert(self@[r][k] == before[k + 1]);
                    }
                }
            }
        }
    }
}

} // verus!
