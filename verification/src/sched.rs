//! The download stage's decision core: a bounded fan-out over a fixed list
//! of URLs. The scheduler says which URL may start next and accounts for
//! completions; the caller performs the actual transfers and reports each
//! outcome. At most `limit` transfers are ever marked in flight, one task's
//! failure takes nothing away from the others, and the stage is done only
//! when every URL has a terminal outcome — the barrier the poll loop waits
//! on before persisting.

use vstd::prelude::*;

verus! {

/// The scheduler's mathematical state.
#[verifier::ext_equal]
pub ghost struct SchedModel {
    pub queue: Seq<Seq<char>>,
    pub next: int,
    pub in_flight: int,
    pub completed: int,
    pub failed: int,
    pub limit: int,
}

impl SchedModel {
    /// Accounting that holds at every step: the cursor splits the queue
    /// into started and waiting URLs, every started URL is in flight or
    /// completed, failures are completions, and the bound is respected.
    pub open spec fn wf(self) -> bool {
        &&& 1 <= self.limit
        &&& 0 <= self.next <= self.queue.len()
        &&& 0 <= self.in_flight
        &&& 0 <= self.failed <= self.completed
        &&& self.in_flight + self.completed == self.next
        &&& self.in_flight <= self.limit
    }

    /// Whether a new transfer may start now.
    pub open spec fn can_start(self) -> bool {
        self.in_flight < self.limit && self.next < self.queue.len()
    }
}

/// What starting the next transfer does: under the bound and with URLs
/// still waiting, the cursor's URL starts and goes in flight; otherwise
/// nothing changes and nothing starts.
pub open spec fn spec_start_next(m: SchedModel) -> (SchedModel, Option<Seq<char>>) {
    if m.can_start() {
        (
            SchedModel { next: m.next + 1, in_flight: m.in_flight + 1, ..m },
            Some(m.queue[m.next]),
        )
    } else {
        (m, None)
    }
}

/// What one terminal outcome does: the transfer leaves flight, counts as
/// completed, and as failed when it failed. Nothing else moves.
pub open spec fn spec_complete(m: SchedModel, success: bool) -> SchedModel {
    SchedModel {
        in_flight: m.in_flight - 1,
        completed: m.completed + 1,
        failed: m.failed + if success {
            0int
        } else {
            1int
        },
        ..m
    }
}

/// The bound is never exceeded: a well-formed scheduler has at most `limit`
/// transfers in flight, and starting one more keeps it so.
pub proof fn lemma_concurrency_bound(m: SchedModel)
    requires
        m.wf(),
    ensures
        m.in_flight <= m.limit,
        spec_start_next(m).0.wf(),
        spec_start_next(m).0.in_flight <= m.limit,
{
}

/// Failure is isolated: a failed outcome leaves the queue, the cursor, the
/// room for new starts and the completion count exactly as a success would;
/// only the failure count differs. No URL is dropped and no later start is
/// blocked by it.
pub proof fn lemma_failure_isolated(m: SchedModel)
    requires
        m.wf(),
        0 < m.in_flight,
    ensures
        spec_complete(m, false).queue == spec_complete(m, true).queue,
        spec_complete(m, false).next == spec_complete(m, true).next,
        spec_complete(m, false).in_flight == spec_complete(m, true).in_flight,
        spec_complete(m, false).completed == spec_complete(m, true).completed,
        spec_complete(m, false).limit == spec_complete(m, true).limit,
        spec_complete(m, false).failed == spec_complete(m, true).failed + 1,
        spec_complete(m, false).wf(),
        spec_complete(m, false).can_start() == spec_complete(m, true).can_start(),
{
}

/// The bounded fan-out over one cycle's URLs.
pub struct DownloadScheduler {
    pub queue: Vec<String>,
    pub next: usize,
    pub in_flight: usize,
    pub completed: usize,
    pub failed: usize,
    pub limit: usize,
}

impl View for DownloadScheduler {
    type V = SchedModel;

    open spec fn view(&self) -> SchedModel {
        SchedModel {
            queue: self.queue.deep_view(),
            next: self.next as int,
            in_flight: self.in_flight as int,
            completed: self.completed as int,
            failed: self.failed as int,
            limit: self.limit as int,
        }
    }
}

impl DownloadScheduler {
    /// A stage over the given URLs with the given concurrency bound.
    pub fn new(urls: Vec<String>, limit: usize) -> (r: DownloadScheduler)
        requires
            1 <= limit,
        ensures
            r@.wf(),
            r@.queue == urls.deep_view(),
            r@.next == 0,
            r@.in_flight == 0,
            r@.completed == 0,
            r@.failed == 0,
            r@.limit == limit as int,
    {
        DownloadScheduler { queue: urls, next: 0, in_flight: 0, completed: 0, failed: 0, limit }
    }

    /// Hand out the next URL to fetch if the bound leaves room and URLs are
    /// waiting; the URL is in flight from here until its `complete`.
    pub fn start_next(&mut self) -> (r: Option<String>)
        requires
            old(self)@.wf(),
        ensures
            final(self)@.wf(),
            (final(self)@, match r {
                Some(u) => Some(u@),
                None => None,
            }) == spec_start_next(old(self)@),
            final(self)@.in_flight <= old(self)@.limit,
    {
        if self.in_flight < self.limit && self.next < self.queue.len() {
            let url = self.queue[self.next].clone();
            self.next = self.next + 1;
            self.in_flight = self.in_flight + 1;
            proof {
                assert(self@ =~= spec_start_next(old(self)@).0);
            }
            Some(url)
        } else {
            proof {
                assert(self@ =~= spec_start_next(old(self)@).0);
            }
            None
        }
    }

    /// Record one transfer's terminal outcome, success or failure alike.
    pub fn complete(&mut self, success: bool)
        requires
            old(self)@.wf(),
            0 < old(self)@.in_flight,
        ensures
            final(self)@.wf(),
            final(self)@ == spec_complete(old(self)@, success),
    {
        self.in_flight = self.in_flight - 1;
        self.completed = self.completed + 1;
        if !success {
            self.failed = self.failed + 1;
        }
        proof {
            assert(self@ =~= spec_complete(old(self)@, success));
        }
    }

    /// The barrier the poll loop waits on: every URL has a terminal
    /// outcome, none is waiting and none is in flight.
    pub fn all_done(&self) -> (r: bool)
        requires
            self@.wf(),
        ensures
            r == (self@.completed == self@.queue.len()),
            r ==> self@.in_flight == 0 && self@.next == self@.queue.len(),
    {
        self.completed == self.queue.len()
    }

    /// How many transfers failed so far.
    pub fn failed_count(&self) -> (r: usize)
        ensures
            r as int == self@.failed,
    {
        self.failed
    }
}

} // verus!
