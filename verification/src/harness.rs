//! The spawn loop's bookkeeping, as a state machine.
//!
//! The harness tracks how many task units have been spawned, whether a sample
//! is due for the index that was just spawned, the baseline counters of the
//! previous sample, how many reports have been emitted and how many tasks
//! have been joined. The unverified shell around the library performs the
//! actual spawning, sleeping and joining; every decision — when to sample,
//! what delta to report, when the run is complete — is made here.

use vstd::arithmetic::div_mod::lemma_div_of0;
use vstd::arithmetic::div_mod::lemma_div_plus_one;
use vstd::arithmetic::div_mod::lemma_fundamental_div_mod;
use vstd::arithmetic::div_mod::lemma_fundamental_div_mod_converse;
use vstd::arithmetic::div_mod::lemma_mod_bound;
use vstd::arithmetic::div_mod::lemma_small_mod;
use vstd::prelude::*;

use crate::config::Config;
use crate::stats::counter_in_range;
use crate::stats::measure;
use crate::stats::SampleReport;
use crate::stats::StatsError;
use crate::stats::StatsSnapshot;

verus! {

broadcast use crate::config::Config::lemma_in_range;

/// The number of sampled indices among the spawn indices `0 .. n`: those
/// divisible by `k`.
pub open spec fn sample_count(n: int, k: int) -> int
    decreases n,
{
    if n <= 0 {
        0
    } else {
        sample_count(n - 1, k) + if (n - 1) % k == 0 {
            1int
        } else {
            0int
        }
    }
}

/// For positive `m` and `k`, the quotient `m / k` grows by one exactly when
/// `m` is a multiple of `k`.
proof fn lemma_div_step(m: int, k: int)
    requires
        1 <= k,
        1 <= m,
    ensures
        m / k == (m - 1) / k + if m % k == 0 {
            1int
        } else {
            0int
        },
{
    let q = m / k;
    let r = m % k;
    lemma_mod_bound(m, k);
    lemma_fundamental_div_mod(m, k);
    if r == 0 {
        assert(m - 1 == (q - 1) * k + (k - 1)) by (nonlinear_arith)
            requires
                m == k * q + r,
                r == 0,
        ;
        lemma_fundamental_div_mod_converse(m - 1, k, q - 1, k - 1);
    } else {
        assert(m - 1 == q * k + (r - 1)) by (nonlinear_arith)
            requires
                m == k * q + r,
        ;
        lemma_fundamental_div_mod_converse(m - 1, k, q, r - 1);
    }
}

/// Closed form of `sample_count`: there is one sampled index per started
/// stride of `k`, so `sample_count(n, k) == (n - 1) / k + 1` for positive `n`.
pub proof fn lemma_sample_count_closed(n: int, k: int)
    requires
        1 <= k,
        0 <= n,
    ensures
        sample_count(n, k) == if n == 0 {
            0int
        } else {
            (n - 1) / k + 1
        },
    decreases n,
{
    if n == 0 {
    } else if n == 1 {
        assert(sample_count(0, k) == 0);
        lemma_small_mod(0, k as nat);
        lemma_div_of0(k);
    } else {
        lemma_sample_count_closed(n - 1, k);
        lemma_div_step(n - 1, k);
    }
}

/// A multiple of `k` has seen exactly `i / k` sampled indices before it, so
/// the next sampled index after `i - 1` is `sample_count(i, k) * k == i`.
proof fn lemma_sample_count_multiple(i: int, k: int)
    requires
        1 <= k,
        0 <= i,
        i % k == 0,
    ensures
        sample_count(i, k) * k == i,
{
    if i == 0 {
    } else {
        lemma_sample_count_closed(i, k);
        lemma_div_step(i, k);
        lemma_fundamental_div_mod(i, k);
        assert(sample_count(i, k) * k == i) by (nonlinear_arith)
            requires
                sample_count(i, k) == i / k,
                i == k * (i / k) + i % k,
                i % k == 0,
        ;
    }
}

/// The bookkeeping of one experiment run.
///
/// A well-formed harness obeys, at every step, the invariants of the run:
/// the number of emitted reports (plus the one currently due) equals the
/// number of sampled indices among the spawns so far, a due sample always
/// sits at index `reports * interval`, joins never outnumber spawns, and the
/// retained baseline counters fit the signed deltas of a report.
pub struct Harness {
    config: Config,
    spawned: usize,
    pending_sample: bool,
    reports_emitted: usize,
    last_allocated: u64,
    last_resident: u64,
    joined: usize,
    history: Ghost<Seq<SampleReport>>,
    samples: Ghost<Seq<StatsSnapshot>>,
}

impl Harness {
    /// The configuration the run was started with.
    pub closed spec fn config_spec(&self) -> Config {
        self.config
    }

    /// How many task units have been spawned so far.
    pub closed spec fn spawned_spec(&self) -> int {
        self.spawned as int
    }

    /// Whether the index spawned last is a sampled index whose report has
    /// not been emitted yet.
    pub closed spec fn pending_spec(&self) -> bool {
        self.pending_sample
    }

    /// How many reports have been emitted so far.
    pub closed spec fn reports_spec(&self) -> int {
        self.reports_emitted as int
    }

    /// The allocated-bytes counter of the previous sample (zero before the
    /// first sample).
    pub closed spec fn last_allocated_spec(&self) -> u64 {
        self.last_allocated
    }

    /// The resident-bytes counter of the previous sample (zero before the
    /// first sample).
    pub closed spec fn last_resident_spec(&self) -> u64 {
        self.last_resident
    }

    /// How many spawned task units have been joined so far.
    pub closed spec fn joined_spec(&self) -> int {
        self.joined as int
    }

    /// The reports emitted so far, in order of emission.
    pub closed spec fn history_spec(&self) -> Seq<SampleReport> {
        self.history@
    }

    /// The snapshots the emitted reports were computed from, in order; the
    /// report `history_spec()[j]` holds the deltas of `samples_spec()[j]`
    /// against `samples_spec()[j - 1]` (against zero for the first).
    pub closed spec fn samples_spec(&self) -> Seq<StatsSnapshot> {
        self.samples@
    }

    /// The run's invariant; established by `new` and preserved by every
    /// method.
    pub open spec fn wf(&self) -> bool {
        &&& self.config_spec().wf()
        &&& self.spawned_spec() <= self.config_spec().total_spec()
        &&& self.joined_spec() <= self.spawned_spec()
        &&& counter_in_range(self.last_allocated_spec())
        &&& counter_in_range(self.last_resident_spec())
        &&& self.reports_spec() + (if self.pending_spec() {
            1int
        } else {
            0int
        }) == sample_count(self.spawned_spec(), self.config_spec().interval_spec())
        &&& self.pending_spec() ==> self.spawned_spec() >= 1 && (self.spawned_spec() - 1)
            % self.config_spec().interval_spec() == 0 && self.spawned_spec() - 1
            == self.reports_spec() * self.config_spec().interval_spec()
        &&& self.history_spec().len() == self.reports_spec()
        &&& self.samples_spec().len() == self.reports_spec()
        &&& forall|j: int|
            0 <= j < self.reports_spec() ==> (#[trigger] self.history_spec()[j]).index as int == j
                * self.config_spec().interval_spec()
        &&& forall|j: int|
            0 <= j < self.reports_spec() ==> (#[trigger] self.history_spec()[j]).delta_allocated
                == self.samples_spec()[j].allocated - if j == 0 {
                0int
            } else {
                self.samples_spec()[j - 1].allocated as int
            }
        &&& forall|j: int|
            0 <= j < self.reports_spec() ==> (#[trigger] self.history_spec()[j]).delta_resident
                == self.samples_spec()[j].resident - if j == 0 {
                0int
            } else {
                self.samples_spec()[j - 1].resident as int
            }
        &&& self.last_allocated_spec() == if self.reports_spec() == 0 {
            0u64
        } else {
            self.samples_spec()[self.reports_spec() - 1].allocated
        }
        &&& self.last_resident_spec() == if self.reports_spec() == 0 {
            0u64
        } else {
            self.samples_spec()[self.reports_spec() - 1].resident
        }
    }

    /// Every task unit has been spawned and no sample report is still due.
    pub open spec fn done_spawning_spec(&self) -> bool {
        &&& self.spawned_spec() == self.config_spec().total_spec()
        &&& !self.pending_spec()
    }

    /// The run is complete: everything spawned, everything joined, nothing
    /// left to report.
    pub open spec fn finished_spec(&self) -> bool {
        &&& self.done_spawning_spec()
        &&& self.joined_spec() == self.spawned_spec()
    }

    /// A fresh run: nothing spawned, nothing reported, nothing joined, and
    /// both baseline counters at zero.
    pub fn new(config: Config) -> (h: Harness)
        requires
            config.wf(),
        ensures
            h.wf(),
            h.config_spec() == config,
            h.spawned_spec() == 0,
            !h.pending_spec(),
            h.reports_spec() == 0,
            h.joined_spec() == 0,
            h.last_allocated_spec() == 0,
            h.last_resident_spec() == 0,
            h.history_spec() == Seq::<SampleReport>::empty(),
            h.samples_spec() == Seq::<StatsSnapshot>::empty(),
    {
        proof {
            assert(sample_count(0, config.interval_spec()) == 0);
        }
        Harness {
            config,
            spawned: 0,
            pending_sample: false,
            reports_emitted: 0,
            last_allocated: 0,
            last_resident: 0,
            joined: 0,
            history: Ghost(Seq::empty()),
            samples: Ghost(Seq::empty()),
        }
    }

    /// Whether every task unit has been spawned.
    pub fn spawning_done(&self) -> (r: bool)
        ensures
            r == (self.spawned_spec() == self.config_spec().total_spec()),
    {
        self.spawned == self.config.total_tasks()
    }

    /// Whether a sample is due for the index that was just spawned.
    pub fn sample_pending(&self) -> (r: bool)
        ensures
            r == self.pending_spec(),
    {
        self.pending_sample
    }

    /// Records that one more task unit has been handed to the runtime. A
    /// sample becomes due exactly when the spawn index is a multiple of the
    /// sampling stride — including index 0, which establishes the first
    /// baseline.
    pub fn note_spawn(&mut self)
        requires
            old(self).wf(),
            !old(self).pending_spec(),
            old(self).spawned_spec() < old(self).config_spec().total_spec(),
        ensures
            final(self).wf(),
            final(self).config_spec() == old(self).config_spec(),
            final(self).spawned_spec() == old(self).spawned_spec() + 1,
            final(self).pending_spec() == (old(self).spawned_spec() % old(
                self,
            ).config_spec().interval_spec() == 0),
            final(self).reports_spec() == old(self).reports_spec(),
            final(self).joined_spec() == old(self).joined_spec(),
            final(self).last_allocated_spec() == old(self).last_allocated_spec(),
            final(self).last_resident_spec() == old(self).last_resident_spec(),
    {
        let index: usize = self.spawned;
        self.spawned = self.spawned + 1;
        self.pending_sample = index % self.config.sample_interval() == 0;
        proof {
            if self.pending_sample {
                lemma_sample_count_multiple(
                    index as int,
                    self.config_spec().interval_spec(),
                );
            }
        }
    }

    /// Emits the report for the sample that is due: the deltas of the given
    /// current counters against the counters of the previous sample, at the
    /// spawn index of the due sample. The given counters become the new
    /// baseline, replacing the previous one.
    pub fn record_sample(&mut self, current: StatsSnapshot) -> (r: SampleReport)
        requires
            old(self).wf(),
            old(self).pending_spec(),
            counter_in_range(current.allocated),
            counter_in_range(current.resident),
        ensures
            final(self).wf(),
            final(self).config_spec() == old(self).config_spec(),
            final(self).spawned_spec() == old(self).spawned_spec(),
            !final(self).pending_spec(),
            final(self).reports_spec() == old(self).reports_spec() + 1,
            final(self).joined_spec() == old(self).joined_spec(),
            final(self).last_allocated_spec() == current.allocated,
            final(self).last_resident_spec() == current.resident,
            r.index == old(self).spawned_spec() - 1,
            r.index == old(self).reports_spec() * old(self).config_spec().interval_spec(),
            (r.index as int) % old(self).config_spec().interval_spec() == 0,
            r.delta_allocated == current.allocated - old(self).last_allocated_spec(),
            r.delta_resident == current.resident - old(self).last_resident_spec(),
            final(self).history_spec() == old(self).history_spec().push(r),
            final(self).samples_spec() == old(self).samples_spec().push(current),
    {
        proof {
            let e = old(self).reports_spec();
            let k = old(self).config_spec().interval_spec();
            assert(e <= e * k) by (nonlinear_arith)
                requires
                    e >= 0,
                    k >= 1,
            ;
        }
        let index: usize = self.spawned - 1;
        let delta_allocated: i64 = current.allocated as i64 - self.last_allocated as i64;
        let delta_resident: i64 = current.resident as i64 - self.last_resident as i64;
        let report = SampleReport { index, delta_allocated, delta_resident };
        self.last_allocated = current.allocated;
        self.last_resident = current.resident;
        self.pending_sample = false;
        self.reports_emitted = self.reports_emitted + 1;
        self.history = Ghost(self.history@.push(report));
        self.samples = Ghost(self.samples@.push(current));
        report
    }

    /// Emits the report for the sample that is due, as `record_sample` does,
    /// after checking that both counters fit the signed deltas of a report.
    /// Counters that do not fit are rejected and leave the bookkeeping
    /// exactly as it was.
    pub fn record_sample_checked(&mut self, current: StatsSnapshot) -> (r: Result<
        SampleReport,
        StatsError,
    >)
        requires
            old(self).wf(),
            old(self).pending_spec(),
        ensures
            final(self).wf(),
            final(self).config_spec() == old(self).config_spec(),
            final(self).spawned_spec() == old(self).spawned_spec(),
            final(self).joined_spec() == old(self).joined_spec(),
            r is Ok <==> counter_in_range(current.allocated) && counter_in_range(
                current.resident,
            ),
            r matches Ok(rep) ==> !final(self).pending_spec(),
            r matches Ok(rep) ==> final(self).reports_spec() == old(self).reports_spec() + 1,
            r matches Ok(rep) ==> final(self).last_allocated_spec() == current.allocated,
            r matches Ok(rep) ==> final(self).last_resident_spec() == current.resident,
            r matches Ok(rep) ==> rep.index == old(self).spawned_spec() - 1,
            r matches Ok(rep) ==> rep.index == old(self).reports_spec() * old(
                self,
            ).config_spec().interval_spec(),
            r matches Ok(rep) ==> rep.delta_allocated == current.allocated - old(
                self,
            ).last_allocated_spec(),
            r matches Ok(rep) ==> rep.delta_resident == current.resident - old(
                self,
            ).last_resident_spec(),
            r matches Ok(rep) ==> final(self).history_spec() == old(self).history_spec().push(
                rep,
            ),
            r matches Err(e) ==> e == StatsError::CounterOutOfRange,
            r is Err ==> *final(self) == *old(self),
    {
        if current.allocated <= i64::MAX as u64 && current.resident <= i64::MAX as u64 {
            Ok(self.record_sample(current))
        } else {
            Err(StatsError::CounterOutOfRange)
        }
    }

    /// Takes a measurement from the process allocator and emits the report
    /// for the sample that is due. On any failure — the allocator refusing
    /// the request, or a counter too large for a signed delta — the
    /// bookkeeping is left exactly as it was, so a fatal error has no
    /// partial effect.
    pub fn sample_now(&mut self) -> (r: Result<SampleReport, StatsError>)
        requires
            old(self).wf(),
            old(self).pending_spec(),
        ensures
            final(self).wf(),
            final(self).config_spec() == old(self).config_spec(),
            final(self).spawned_spec() == old(self).spawned_spec(),
            final(self).joined_spec() == old(self).joined_spec(),
            r matches Ok(rep) ==> !final(self).pending_spec(),
            r matches Ok(rep) ==> final(self).reports_spec() == old(self).reports_spec() + 1,
            r matches Ok(rep) ==> rep.index == old(self).spawned_spec() - 1,
            r matches Ok(rep) ==> rep.index == old(self).reports_spec() * old(
                self,
            ).config_spec().interval_spec(),
            r matches Ok(rep) ==> rep.delta_allocated == final(self).last_allocated_spec() - old(
                self,
            ).last_allocated_spec(),
            r matches Ok(rep) ==> rep.delta_resident == final(self).last_resident_spec() - old(
                self,
            ).last_resident_spec(),
            r matches Ok(rep) ==> final(self).history_spec() == old(self).history_spec().push(
                rep,
            ),
            r is Err ==> *final(self) == *old(self),
    {
        let snap: StatsSnapshot = match measure() {
            Ok(s) => s,
            Err(e) => {
                return Err(e);
            },
        };
        self.record_sample_checked(snap)
    }

    /// Records that one more task unit has been joined. Joining happens only
    /// after every task has been spawned, and never more often than tasks
    /// were spawned: each handle is joined exactly once.
    pub fn note_join(&mut self)
        requires
            old(self).wf(),
            old(self).done_spawning_spec(),
            old(self).joined_spec() < old(self).spawned_spec(),
        ensures
            final(self).wf(),
            final(self).config_spec() == old(self).config_spec(),
            final(self).spawned_spec() == old(self).spawned_spec(),
            final(self).pending_spec() == old(self).pending_spec(),
            final(self).reports_spec() == old(self).reports_spec(),
            final(self).joined_spec() == old(self).joined_spec() + 1,
            final(self).last_allocated_spec() == old(self).last_allocated_spec(),
            final(self).last_resident_spec() == old(self).last_resident_spec(),
    {
        self.joined = self.joined + 1;
    }

    /// Whether every spawned task unit has been joined.
    pub fn all_joined(&self) -> (r: bool)
        ensures
            r == (self.joined_spec() == self.spawned_spec()),
    {
        self.joined == self.spawned
    }

    /// How many task units have been spawned so far.
    pub fn spawned(&self) -> (r: usize)
        ensures
            r == self.spawned_spec(),
    {
        self.spawned
    }

    /// How many reports have been emitted so far.
    pub fn reports_emitted(&self) -> (r: usize)
        ensures
            r == self.reports_spec(),
    {
        self.reports_emitted
    }

    /// How many task units have been joined so far.
    pub fn joined(&self) -> (r: usize)
        ensures
            r == self.joined_spec(),
    {
        self.joined
    }
}

/// Law: a run that has spawned all of its tasks and has no sample still due
/// has emitted exactly one report per started stride of the sampling
/// interval — none when the total is zero, `(total - 1) / interval + 1`
/// otherwise, which is the ceiling of `total / interval`.
pub proof fn lemma_report_count_when_done(h: Harness)
    requires
        h.wf(),
        h.done_spawning_spec(),
    ensures
        h.config_spec().total_spec() == 0 ==> h.reports_spec() == 0,
        h.config_spec().total_spec() >= 1 ==> h.reports_spec() == (h.config_spec().total_spec()
            - 1) / h.config_spec().interval_spec() + 1,
        h.config_spec().total_spec() >= 1 ==> h.reports_spec() == (h.config_spec().total_spec()
            + h.config_spec().interval_spec() - 1) / h.config_spec().interval_spec(),
{
    let t = h.config_spec().total_spec();
    let k = h.config_spec().interval_spec();
    lemma_sample_count_closed(t, k);
    if t >= 1 {
        lemma_div_plus_one(t - 1, k);
    }
}

/// Law: the sampled indices are exactly the multiples of the sampling
/// interval — the `j`-th emitted report, counting from zero, was taken at
/// spawn index `j * interval`.
pub proof fn lemma_report_indices(h: Harness, j: int)
    requires
        h.wf(),
        0 <= j < h.reports_spec(),
    ensures
        h.history_spec()[j].index as int == j * h.config_spec().interval_spec(),
{
}

/// Law: every report's deltas are computed against the immediately
/// preceding snapshot, not against the run's original baseline — the `j`-th
/// report holds the growth of both counters between the `j - 1`-th and the
/// `j`-th measurement (between zero and the first, for the report at index
/// zero).
pub proof fn lemma_deltas_are_consecutive(h: Harness, j: int)
    requires
        h.wf(),
        0 <= j < h.reports_spec(),
    ensures
        h.history_spec()[j].delta_allocated == h.samples_spec()[j].allocated - if j == 0 {
            0int
        } else {
            h.samples_spec()[j - 1].allocated as int
        },
        h.history_spec()[j].delta_resident == h.samples_spec()[j].resident - if j == 0 {
            0int
        } else {
            h.samples_spec()[j - 1].resident as int
        },
{
}

/// Law: in a finished run the number of joins equals the number of spawns,
/// and both equal the configured total — no task is leaked and none is
/// joined twice.
pub proof fn lemma_all_tasks_joined(h: Harness)
    requires
        h.wf(),
        h.finished_spec(),
    ensures
        h.joined_spec() == h.config_spec().total_spec(),
        h.spawned_spec() == h.config_spec().total_spec(),
{
}

} // verus!
