//! The search: the per-worker loop that backflows, regenerates and tests a
//! candidate, and the coordinator's decisions about a whole search.
use vstd::prelude::*;
use vstd::string::is_ascii;
use crate::timestamp::Timestamp;
use crate::candidate::{Candidate, KeyError, hex_of};
use crate::matching::ends_with;

verus! {

/// The iteration counter after one more iteration; it stops at the largest
/// value it can hold.
pub open spec fn next_count(n: u64) -> u64 {
    if n < u64::MAX {
        (n + 1) as u64
    } else {
        n
    }
}

/// Counters of one worker: how far the current candidate has been moved back
/// from its anchor, the budget for that, and how many candidates the worker
/// has tested in all.
pub struct SearchState {
    max_backflow: usize,
    backflow: usize,
    iterations: u64,
}

impl SearchState {
    pub closed spec fn spec_max_backflow(&self) -> nat {
        self.max_backflow as nat
    }

    pub closed spec fn spec_backflow(&self) -> nat {
        self.backflow as nat
    }

    pub closed spec fn spec_iterations(&self) -> u64 {
        self.iterations
    }

    pub open spec fn wf(&self) -> bool {
        self.spec_backflow() <= self.spec_max_backflow()
    }

    /// Fresh counters for a worker whose candidates may move back at most
    /// `max_backflow` seconds from their anchor.
    pub fn new(max_backflow: usize) -> (r: SearchState)
        ensures
            r.wf(),
            r.spec_max_backflow() == max_backflow,
            r.spec_backflow() == 0,
            r.spec_iterations() == 0,
    {
        SearchState { max_backflow, backflow: 0, iterations: 0 }
    }

    pub fn max_backflow(&self) -> (r: usize)
        ensures
            r == self.spec_max_backflow(),
    {
        self.max_backflow
    }

    pub fn backflow(&self) -> (r: usize)
        ensures
            r == self.spec_backflow(),
    {
        self.backflow
    }

    pub fn iterations(&self) -> (r: u64)
        ensures
            r == self.spec_iterations(),
    {
        self.iterations
    }

    /// Whether the backflow budget of the current candidate is spent, so that
    /// the worker must start over from a new anchor.
    pub fn needs_anchor(&self) -> (r: bool)
        ensures
            r == (self.spec_backflow() >= self.spec_max_backflow()),
    {
        self.backflow >= self.max_backflow
    }

    /// Starts the budget over for a new anchor; the iteration count goes on.
    pub fn reanchor(&mut self)
        ensures
            final(self).wf(),
            final(self).spec_max_backflow() == old(self).spec_max_backflow(),
            final(self).spec_backflow() == 0,
            final(self).spec_iterations() == old(self).spec_iterations(),
    {
        self.backflow = 0;
    }

    /// Records one tested fingerprint. Returns the iteration number to report
    /// when it matches the target, and nothing otherwise.
    pub fn record(&mut self, fingerprint: &str, target: &str) -> (r: Option<u64>)
        requires
            old(self).wf(),
            old(self).spec_backflow() < old(self).spec_max_backflow(),
            is_ascii(fingerprint),
        ensures
            final(self).wf(),
            r == (if ends_with(fingerprint@, target@) {
                Some(old(self).spec_iterations())
            } else {
                None::<u64>
            }),
            final(self).spec_max_backflow() == old(self).spec_max_backflow(),
            final(self).spec_backflow() == old(self).spec_backflow() + 1,
            final(self).spec_iterations() == next_count(old(self).spec_iterations()),
    {
        let found = crate::matching::matches(fingerprint, target);
        let r = if found {
            Some(self.iterations)
        } else {
            None
        };
        self.backflow = self.backflow + 1;
        if self.iterations < u64::MAX {
            self.iterations = self.iterations + 1;
        }
        r
    }
}

/// A match found by a worker: a copy of the candidate, its fingerprint, and
/// the worker's iteration number at which it was found.
pub struct Found {
    pub candidate: Candidate,
    pub fingerprint: String,
    pub iterations: u64,
}

/// One worker of the search. It owns its candidate, which stays
/// `anchor - backflow` seconds after the epoch, where `backflow` never
/// exceeds the budget.
pub struct Worker {
    identity: String,
    target: String,
    anchor: Timestamp,
    state: SearchState,
    candidate: Candidate,
    last_fingerprint: String,
}

impl Worker {
    pub closed spec fn spec_identity(&self) -> Seq<char> {
        self.identity@
    }

    pub closed spec fn spec_target(&self) -> Seq<char> {
        self.target@
    }

    pub closed spec fn spec_anchor(&self) -> Timestamp {
        self.anchor
    }

    pub closed spec fn spec_state(&self) -> SearchState {
        self.state
    }

    pub closed spec fn spec_candidate(&self) -> &Candidate {
        &self.candidate
    }

    pub closed spec fn spec_last_fingerprint(&self) -> Seq<char> {
        self.last_fingerprint@
    }

    /// The next step must anchor a new candidate: the budget is spent, or the
    /// candidate's time cannot move back further.
    pub open spec fn must_reanchor(&self) -> bool {
        ||| self.spec_state().spec_backflow() >= self.spec_state().spec_max_backflow()
        ||| !Timestamp::in_range(self.spec_candidate().spec_created_at().spec_secs() - 1)
    }

    /// A candidate freshly anchored at `now` cannot move back at all.
    pub open spec fn stalls(&self, now: Timestamp) -> bool {
        ||| self.spec_state().spec_max_backflow() == 0
        ||| !Timestamp::in_range(now.spec_secs() - 1)
    }

    pub open spec fn wf(&self) -> bool {
        &&& self.spec_anchor().wf()
        &&& self.spec_state().wf()
        &&& self.spec_candidate().wf()
        &&& self.spec_candidate().spec_identity() == self.spec_identity()
        &&& self.spec_candidate().spec_created_at().spec_secs()
            == self.spec_anchor().spec_secs() - self.spec_state().spec_backflow()
    }

    /// A worker for `identity` looking for `target`, whose first candidate is
    /// anchored at `anchor`.
    pub fn new(identity: &str, target: &str, max_backflow: usize, anchor: Timestamp) -> (r: Worker)
        requires
            anchor.wf(),
        ensures
            r.wf(),
            r.spec_identity() == identity@,
            r.spec_target() == target@,
            r.spec_anchor() == anchor,
            r.spec_state().spec_max_backflow() == max_backflow,
            r.spec_state().spec_backflow() == 0,
            r.spec_state().spec_iterations() == 0,
            r.spec_candidate().spec_generated_at() is None,
    {
        Worker {
            identity: identity.to_owned(),
            target: target.to_owned(),
            anchor,
            state: SearchState::new(max_backflow),
            candidate: Candidate::new(identity, anchor),
            last_fingerprint: String::new(),
        }
    }

    pub fn state(&self) -> (r: &SearchState)
        ensures
            r == self.spec_state(),
    {
        &self.state
    }

    pub fn anchor(&self) -> (r: Timestamp)
        ensures
            r == self.spec_anchor(),
    {
        self.anchor
    }

    /// The fingerprint tested by the latest step, empty before the first.
    pub fn last_fingerprint(&self) -> (r: &str)
        ensures
            r@ == self.spec_last_fingerprint(),
    {
        self.last_fingerprint.as_str()
    }

    pub fn candidate(&self) -> (r: &Candidate)
        ensures
            r == self.spec_candidate(),
    {
        &self.candidate
    }

    /// One iteration of the worker loop. When the candidate's backflow budget
    /// is spent (or its time cannot move back further), a new candidate is
    /// anchored at `now` first. Then the candidate moves one second back, a
    /// key is generated for it, and its fingerprint is tested against the
    /// target. A failed generation ends the worker with that error.
    pub fn step(&mut self, now: Timestamp) -> (r: Result<Option<Found>, KeyError>)
        requires
            old(self).wf(),
            now.wf(),
        ensures
            final(self).spec_identity() == old(self).spec_identity(),
            final(self).spec_target() == old(self).spec_target(),
            final(self).spec_state().spec_max_backflow() == old(self).spec_state().spec_max_backflow(),
            r is Err ==> r == Err::<Option<Found>, KeyError>(KeyError::GenerationFailure),
            r is Ok ==> {
                &&& final(self).wf()
                &&& final(self).spec_candidate().is_consistent()
                &&& final(self).spec_anchor() == if old(self).must_reanchor() {
                    now
                } else {
                    old(self).spec_anchor()
                }
            },
            // anchored afresh, but the new candidate cannot move back: no
            // key is generated and the step succeeds
            old(self).must_reanchor() && old(self).stalls(now) ==> {
                &&& r matches Ok(None)
                &&& final(self).spec_state().spec_backflow() == 0
                &&& final(self).spec_state().spec_iterations() == old(self).spec_state().spec_iterations()
                &&& final(self).spec_candidate().spec_generated_at() is None
            },
            // one candidate moved back, generated and tested
            r is Ok && !(old(self).must_reanchor() && old(self).stalls(now)) ==> {
                &&& final(self).spec_state().spec_backflow() == (if old(self).must_reanchor() {
                    0
                } else {
                    old(self).spec_state().spec_backflow()
                }) + 1
                &&& final(self).spec_state().spec_iterations() == next_count(
                    old(self).spec_state().spec_iterations(),
                )
                &&& final(self).spec_candidate().spec_generated_at() == Some(
                    final(self).spec_candidate().spec_created_at(),
                )
                &&& final(self).spec_last_fingerprint() == hex_of(
                    final(self).spec_candidate().spec_fingerprint(),
                )
                &&& (r matches Ok(Some(_))) == ends_with(
                    final(self).spec_last_fingerprint(),
                    old(self).spec_target(),
                )
            },
            r matches Ok(Some(f)) ==> {
                &&& f.candidate.wf()
                &&& f.candidate.spec_identity() == old(self).spec_identity()
                &&& f.candidate.spec_created_at() == final(self).spec_candidate().spec_created_at()
                &&& f.candidate.spec_generated_at() == Some(f.candidate.spec_created_at())
                &&& f.fingerprint@ == final(self).spec_last_fingerprint()
                &&& f.fingerprint@ == hex_of(f.candidate.spec_fingerprint())
                &&& ends_with(f.fingerprint@, old(self).spec_target())
                &&& f.iterations == old(self).spec_state().spec_iterations()
            },
    {
        if self.state.needs_anchor() || !self.candidate.created_at().can_backflow() {
            self.candidate = Candidate::new(self.identity.as_str(), now);
            self.anchor = now;
            self.state.reanchor();
            if self.state.needs_anchor() || !self.candidate.created_at().can_backflow() {
                return Ok(None);
            }
        }
        self.candidate.backflow();
        match self.candidate.regenerate() {
            Ok(()) => {},
            Err(e) => return Err(e),
        }
        let fp = match self.candidate.fingerprint() {
            Ok(s) => s,
            Err(_) => return Err(KeyError::GenerationFailure),
        };
        let found = self.state.record(fp.as_str(), self.target.as_str());
        self.last_fingerprint = fp.clone();
        match found {
            Some(iterations) => {
                let candidate = self.candidate.duplicate();
                Ok(Some(Found { candidate, fingerprint: fp, iterations }))
            },
            None => Ok(None),
        }
    }
}

/// A worker's candidate never drifts further into the past than the
/// backflow budget allows: its creation time lies between `anchor -
/// max_backflow` and the anchor.
pub proof fn lemma_worker_drift_bounded(w: &Worker)
    requires
        w.wf(),
    ensures
        w.spec_anchor().spec_secs() - w.spec_state().spec_max_backflow()
            <= w.spec_candidate().spec_created_at().spec_secs()
            <= w.spec_anchor().spec_secs(),
{
}

/// Why a search returned no key.
#[derive(Clone, Copy, Debug, PartialEq, Eq, Structural)]
pub enum SearchError {
    /// The search was asked to run with no workers.
    NoWorkersSpawned,
    /// Every worker ended before any of them reported a match.
    ChannelClosed,
}

/// The reported estimate of work done by all workers: the reporting
/// worker's count times the number of workers, stopping at the largest
/// value a `u64` holds.
pub open spec fn estimate(iterations: u64, thread_count: usize) -> u64 {
    if iterations * thread_count <= u64::MAX {
        (iterations * thread_count) as u64
    } else {
        u64::MAX
    }
}

/// Estimates the iterations of all workers from one worker's count.
pub fn estimate_total(iterations: u64, thread_count: usize) -> (r: u64)
    ensures
        r == estimate(iterations, thread_count),
{
    let t = thread_count as u64;
    if t == 0 {
        return 0;
    }
    if iterations > u64::MAX / t {
        proof {
            assert(iterations * t > u64::MAX) by (nonlinear_arith)
                requires
                    iterations > u64::MAX / t,
                    t > 0,
            ;
        }
        u64::MAX
    } else {
        proof {
            assert(iterations * t <= u64::MAX) by (nonlinear_arith)
                requires
                    iterations <= u64::MAX / t,
                    t > 0,
            ;
        }
        iterations * t
    }
}

/// Checks that a search would start at least one worker.
pub fn check_workers(thread_count: usize) -> (r: Result<(), SearchError>)
    ensures
        thread_count == 0 <==> r == Err::<(), SearchError>(SearchError::NoWorkersSpawned),
        thread_count > 0 <==> r is Ok,
{
    if thread_count == 0 {
        Err(SearchError::NoWorkersSpawned)
    } else {
        Ok(())
    }
}

/// What a search returns, given the first result that reached the
/// coordinator (`None` when every worker ended without one). The first
/// result wins whatever the number of workers, and its iteration count is
/// scaled to an estimate for all workers.
pub fn first_result<T>(thread_count: usize, first: Option<(T, u64)>) -> (r: Result<(T, u64), SearchError>)
    ensures
        thread_count == 0 ==> r == Err::<(T, u64), SearchError>(SearchError::NoWorkersSpawned),
        thread_count > 0 && first is None ==> r == Err::<(T, u64), SearchError>(
            SearchError::ChannelClosed,
        ),
        thread_count > 0 && first is Some ==> r == Ok::<(T, u64), SearchError>(
            ((first->0).0, estimate((first->0).1, thread_count)),
        ),
{
    if thread_count == 0 {
        return Err(SearchError::NoWorkersSpawned);
    }
    match first {
        Some((payload, iterations)) => Ok((payload, estimate_total(iterations, thread_count))),
        None => Err(SearchError::ChannelClosed),
    }
}

} // verus!
