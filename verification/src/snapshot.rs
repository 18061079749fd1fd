use vstd::prelude::*;

verus! {

/// Upper bound on a stored utilization value: 100.0%, in tenths of a percent.
pub const MAX_TENTHS: u32 = 1000;

/// One per-core CPU utilization reading, each value in tenths of a percent
/// (`125` is 12.5%).
///
/// Index `i` always refers to the same logical core across consecutive
/// snapshots. A snapshot is immutable once produced; the distributor replaces
/// the previous one wholesale, never in part.
pub struct Snapshot {
    pub cores: Vec<u32>,
}

impl View for Snapshot {
    type V = Seq<u32>;

    open spec fn view(&self) -> Seq<u32> {
        self.cores@
    }
}

/// Every value is a valid percentage: at most 100.0%.
pub open spec fn values_in_range(s: Seq<u32>) -> bool {
    forall|i: int| 0 <= i < s.len() ==> s[i] <= MAX_TENTHS
}

/// A single reading clamped to the valid percentage range.
pub open spec fn clamp_value(v: u32) -> u32 {
    if v > MAX_TENTHS {
        MAX_TENTHS
    } else {
        v
    }
}

/// A raw reading with every out-of-range value clamped to 100.0%.
pub open spec fn clamped(s: Seq<u32>) -> Seq<u32> {
    Seq::new(s.len(), |i: int| clamp_value(s[i]))
}

impl Snapshot {
    /// All stored values are valid percentages.
    pub open spec fn wf(&self) -> bool {
        values_in_range(self@)
    }

    /// Builds a snapshot from a raw reading, clamping each value to 100.0%.
    pub fn from_reading(reading: Vec<u32>) -> (r: Snapshot)
        ensures
            r@ == clamped(reading@),
            r.wf(),
            r@.len() == reading@.len(),
    {
        let mut cores: Vec<u32> = Vec::new();
        let mut i: usize = 0;
        while i < reading.len()
            invariant
                i <= reading.len(),
                cores@.len() == i,
                forall|j: int| 0 <= j < i ==> cores@[j] == clamped(reading@)[j],
            decreases reading.len() - i,
        {
            let v = reading[i];
            if v > MAX_TENTHS {
                cores.push(MAX_TENTHS);
            } else {
                cores.push(v);
            }
            i = i + 1;
        }
        proof {
            assert(cores@ =~= clamped(reading@));
        }
        let r = Snapshot { cores };
        proof {
            assert forall|j: int| 0 <= j < r@.len() implies r@[j] <= MAX_TENTHS by {
                assert(r@[j] == clamp_value(reading@[j]));
            }
        }
        r
    }

    /// The number of logical cores covered by this snapshot.
    pub fn core_count(&self) -> (n: usize)
        ensures
            n == self@.len(),
    {
        self.cores.len()
    }

    /// The utilization of core `i`, in tenths of a percent.
    pub fn value_at(&self, i: usize) -> (v: u32)
        requires
            i < self@.len(),
        ensures
            v == self@[i as int],
    {
        self.cores[i]
    }
}

impl Clone for Snapshot {
    fn clone(&self) -> (r: Self)
        ensures
            r@ == self@,
    {
        let cores = self.cores.clone();
        proof {
            assert(cores@ =~= self.cores@);
        }
        Snapshot { cores }
    }
}

} // verus!
