//! Creation times with one-second resolution.
use vstd::prelude::*;

verus! {

/// Earliest creation time a [`Timestamp`] may hold, in seconds since the Unix epoch.
pub const MIN_SECS: i64 = -8_000_000_000_000;

/// Latest creation time a [`Timestamp`] may hold, in seconds since the Unix epoch.
pub const MAX_SECS: i64 = 8_000_000_000_000;

/// A point in time, counted in whole seconds since the Unix epoch (UTC).
///
/// The range is kept well inside what calendar libraries can represent
/// (about 253,000 years either side of 1970).
#[derive(Clone, Copy, Debug, PartialEq, Eq, Structural)]
pub struct Timestamp {
    secs: i64,
}

impl Timestamp {
    pub open spec fn in_range(secs: int) -> bool {
        MIN_SECS <= secs <= MAX_SECS
    }

    pub closed spec fn spec_secs(self) -> int {
        self.secs as int
    }

    pub open spec fn wf(self) -> bool {
        Self::in_range(self.spec_secs())
    }

    /// `new` is `old` after one backflow step.
    pub open spec fn backflow_post(old: Timestamp, new: Timestamp) -> bool {
        &&& new.wf()
        &&& new.spec_secs() == old.spec_secs() - 1
    }

    /// The timestamp `secs` seconds after the epoch, if it lies in range.
    pub fn from_secs(secs: i64) -> (r: Option<Timestamp>)
        ensures
            r is Some <==> Self::in_range(secs as int),
            r matches Some(t) ==> t.spec_secs() == secs && t.wf(),
    {
        if MIN_SECS <= secs && secs <= MAX_SECS {
            Some(Timestamp { secs })
        } else {
            None
        }
    }

    /// Seconds since the epoch.
    pub fn secs(&self) -> (r: i64)
        ensures
            r as int == self.spec_secs(),
    {
        self.secs
    }

    /// Whether one more backflow step stays in range.
    pub fn can_backflow(&self) -> (r: bool)
        ensures
            r == Self::in_range(self.spec_secs() - 1),
    {
        self.secs > MIN_SECS && self.secs <= MAX_SECS + 1
    }

    /// Moves the time one second into the past.
    pub fn backflow(&mut self)
        requires
            Self::in_range(old(self).spec_secs() - 1),
        ensures
            Self::backflow_post(*old(self), *final(self)),
    {
        self.secs = self.secs - 1;
    }
}

/// Each backflow step moves a timestamp exactly one second back, so a run
/// of `n` consecutive steps (`steps[0]` the start, each next entry the
/// previous one after a step) ends exactly `n` seconds before it started.
pub proof fn lemma_backflow_distance(steps: Seq<Timestamp>)
    requires
        steps.len() > 0,
        forall|i: int|
            0 <= i < steps.len() - 1 ==> #[trigger] Timestamp::backflow_post(steps[i], steps[i + 1]),
    ensures
        steps.last().spec_secs() == steps[0].spec_secs() - (steps.len() - 1),
    decreases steps.len(),
{
    if steps.len() > 1 {
        let prefix = steps.drop_last();
        assert forall|i: int| 0 <= i < prefix.len() - 1 implies #[trigger] Timestamp::backflow_post(
            prefix[i],
            prefix[i + 1],
        ) by {
            assert(Timestamp::backflow_post(steps[i], steps[i + 1]));
        }
        lemma_backflow_distance(prefix);
        let k = steps.len() - 2;
        assert(Timestamp::backflow_post(steps[k], steps[k + 1]));
        assert(prefix.last() == steps[k]);
    }
}

} // verus!
