//! Progress log of a background computation and the shared channel through
//! which it reaches the renderer.
//!
//! A `SampleHistory` is an append-only run of `(iteration, error)` samples
//! with strictly increasing iteration numbers, mirrored by two scalars that
//! always hold the latest report. `ProgressChannel` shares one history
//! between the reporting worker and the reading renderer behind a lock
//! whose invariant is the history's well-formedness, so a reader can never
//! observe a torn sample or an out-of-order iteration run.
//!
//! The error value is carried opaquely as the bit pattern of the reporter's
//! floating-point number; this log never interprets it.

use vstd::prelude::*;
use vstd::rwlock::{RwLock, RwLockPredicate};

verus! {

/// One progress report: the iteration it belongs to and the bit pattern of
/// the reported error value.
#[derive(Clone, Copy, Debug, PartialEq, Eq, Structural)]
pub struct ProgressSample {
    pub iteration: u64,
    pub error_bits: u64,
}

/// Iteration numbers strictly increase along the run.
pub open spec fn strictly_increasing_iterations(s: Seq<ProgressSample>) -> bool {
    forall|i: int, j: int| 0 <= i < j < s.len() ==> s[i].iteration < s[j].iteration
}

/// Any contiguous window of a strictly increasing run is itself strictly
/// increasing.
pub proof fn lemma_window_strictly_increasing(s: Seq<ProgressSample>, start: int, end: int)
    requires
        strictly_increasing_iterations(s),
        0 <= start <= end <= s.len(),
    ensures
        strictly_increasing_iterations(s.subrange(start, end)),
{
    let w = s.subrange(start, end);
    assert forall|i: int, j: int| 0 <= i < j < w.len() implies w[i].iteration < w[j].iteration by {
        assert(w[i] == s[start + i]);
        assert(w[j] == s[start + j]);
    }
}

/// Append-only log of progress samples with latest-report mirrors.
pub struct SampleHistory {
    samples: Vec<ProgressSample>,
    last_iteration: u64,
    last_error_bits: u64,
}

impl SampleHistory {
    /// The recorded run, oldest first.
    pub closed spec fn log(self) -> Seq<ProgressSample> {
        self.samples@
    }

    /// Mirror of the latest recorded iteration (`0` when empty).
    pub closed spec fn last_it(self) -> u64 {
        self.last_iteration
    }

    /// Mirror of the latest recorded error bits (`0` when empty).
    pub closed spec fn last_err(self) -> u64 {
        self.last_error_bits
    }

    /// Well formed: iterations strictly increase and the mirrors match the
    /// last sample.
    pub open spec fn wf(self) -> bool {
        &&& strictly_increasing_iterations(self.log())
        &&& self.log().len() > 0 ==> self.last_it() == self.log().last().iteration
            && self.last_err() == self.log().last().error_bits
        &&& self.log().len() == 0 ==> self.last_it() == 0 && self.last_err() == 0
    }

    /// An empty history.
    pub fn new() -> (h: SampleHistory)
        ensures
            h.wf(),
            h.log().len() == 0,
    {
        SampleHistory { samples: Vec::new(), last_iteration: 0, last_error_bits: 0 }
    }

    /// Number of samples recorded so far.
    pub fn len(&self) -> (n: usize)
        ensures
            n == self.log().len(),
    {
        self.samples.len()
    }

    /// The latest recorded iteration (`0` when empty).
    pub fn last_iteration(&self) -> (n: u64)
        ensures
            n == self.last_it(),
    {
        self.last_iteration
    }

    /// The latest recorded error bits (`0` when empty).
    pub fn last_error_bits(&self) -> (n: u64)
        ensures
            n == self.last_err(),
    {
        self.last_error_bits
    }

    /// Appends one report. A report is accepted exactly when it keeps the
    /// iteration run strictly increasing (the first report always is);
    /// a stale or duplicate iteration leaves the history unchanged.
    pub fn record(&mut self, iteration: u64, error_bits: u64) -> (accepted: bool)
        requires
            old(self).wf(),
        ensures
            final(self).wf(),
            accepted <==> (old(self).log().len() == 0 || iteration > old(self).last_it()),
            accepted ==> final(self).log() == old(self).log().push(
                ProgressSample { iteration, error_bits },
            ) && final(self).last_it() == iteration && final(self).last_err() == error_bits,
            !accepted ==> *final(self) == *old(self),
    {
        if self.samples.len() == 0 || iteration > self.last_iteration {
            let s = ProgressSample { iteration, error_bits };
            self.samples.push(s);
            self.last_iteration = iteration;
            self.last_error_bits = error_bits;
            proof {
                let log = self.samples@;
                let pre = old(self).samples@;
                assert forall|i: int, j: int| 0 <= i < j < log.len() implies log[i].iteration
                    < log[j].iteration by {
                    if j < log.len() - 1 {
                        assert(log[i] == pre[i] && log[j] == pre[j]);
                    } else {
                        if i < log.len() - 1 {
                            assert(log[i] == pre[i]);
                            if pre.len() > 0 && i < pre.len() - 1 {
                                assert(pre[i].iteration < pre[pre.len() - 1].iteration);
                            }
                        }
                    }
                }
            }
            true
        } else {
            false
        }
    }

    /// The rendered window: the last `min(width, len)` samples, oldest
    /// first — the whole history when it is short enough, otherwise a
    /// contiguous suffix. Nothing is removed from the underlying log.
    pub fn window(&self, width: usize) -> (w: Vec<ProgressSample>)
        ensures
            w@.len() == if width <= self.log().len() {
                width as int
            } else {
                self.log().len() as int
            },
            w@ == self.log().subrange(self.log().len() - w@.len(), self.log().len() as int),
    {
        let len = self.samples.len();
        let start = if width <= len {
            len - width
        } else {
            0
        };
        let mut w: Vec<ProgressSample> = Vec::new();
        let mut i = start;
        while i < len
            invariant
                start <= i <= len,
                len == self.log().len(),
                w@ == self.log().subrange(start as int, i as int),
            decreases len - i,
        {
            let s = self.samples[i];
            w.push(s);
            proof {
                assert(self.log().subrange(start as int, i + 1) =~= self.log().subrange(
                    start as int,
                    i as int,
                ).push(self.log()[i as int]));
            }
            i = i + 1;
        }
        proof {
            assert(w@ =~= self.log().subrange(len - w@.len(), len as int));
        }
        w
    }
}

/// Lock invariant of the shared progress channel: the protected history is
/// always well formed.
pub struct HistoryInv {}

impl RwLockPredicate<SampleHistory> for HistoryInv {
    open spec fn inv(self, v: SampleHistory) -> bool {
        v.wf()
    }
}

/// Thread-safe mailbox between the computation worker (writer) and the
/// renderer (reader): one history behind one exclusive lock, held only for
/// an append or a bounded copy. Every value a reader can observe satisfies
/// the lock invariant, so no interleaving of reports and snapshots can show
/// a torn sample or a non-increasing iteration run.
pub struct ProgressChannel {
    lock: RwLock<SampleHistory, HistoryInv>,
}

impl ProgressChannel {
    /// Well formed: the lock carries the history invariant.
    pub closed spec fn wf(self) -> bool {
        self.lock.pred() == (HistoryInv {  })
    }

    /// A channel holding an empty history.
    pub fn new() -> (c: ProgressChannel)
        ensures
            c.wf(),
    {
        ProgressChannel { lock: RwLock::new(SampleHistory::new(), Ghost(HistoryInv {  })) }
    }

    /// The worker-side callback: appends one `(iteration, error)` report
    /// under the lock and reports whether it was accepted (see
    /// `SampleHistory::record`). Lock hold time is one append and two
    /// scalar writes.
    pub fn report(&self, iteration: u64, error_bits: u64) -> (accepted: bool)
        requires
            self.wf(),
    {
        let (mut h, wh) = self.lock.acquire_write();
        let accepted = h.record(iteration, error_bits);
        wh.release_write(h);
        accepted
    }

    /// The renderer-side read: a snapshot of the rendered window, taken
    /// whole under the lock. Whatever reports ran before or run after, the
    /// snapshot is a strictly increasing iteration run of at most `width`
    /// samples.
    pub fn snapshot_window(&self, width: usize) -> (w: Vec<ProgressSample>)
        requires
            self.wf(),
        ensures
            w@.len() <= width,
            strictly_increasing_iterations(w@),
    {
        let rh = self.lock.acquire_read();
        let w = rh.borrow().window(width);
        proof {
            let log = rh.view().log();
            lemma_window_strictly_increasing(log, log.len() - w@.len(), log.len() as int);
        }
        rh.release_read();
        w
    }

    /// The latest `(iteration, error_bits)` mirrors, taken under the lock,
    /// so the pair always comes from one single report.
    pub fn snapshot_latest(&self) -> (r: (u64, u64))
        requires
            self.wf(),
    {
        let rh = self.lock.acquire_read();
        let it = rh.borrow().last_iteration();
        let eb = rh.borrow().last_error_bits();
        rh.release_read();
        (it, eb)
    }
}

} // verus!
