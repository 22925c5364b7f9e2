use super::job::{EncodingJob, JobStatus, FULL_PROGRESS};
use super::messages::WorkerMessage;
use crate::utils::humanize::{file_size_text, format_file_size};
use vstd::prelude::*;

verus! {

/// Overall queue state.
///
/// Times are milliseconds on a clock of the owner's choosing that never
/// runs backwards.
pub struct QueueState {
    pub jobs: Vec<EncodingJob>,
    pub current_job_index: usize,
    pub config_job_index: usize,
    pub start_time: Option<u64>,
    pub end_time: Option<u64>,
    pub total_jobs_to_encode: usize,
    pub converted_count: usize,
    pub skipped_count: usize,
    pub error_count: usize,
    pub encoding_progress_done: usize,
}

/// The number of jobs of which `pred` holds.
pub open spec fn tally(jobs: Seq<EncodingJob>, pred: spec_fn(EncodingJob) -> bool) -> nat
    decreases jobs.len(),
{
    if jobs.len() == 0 {
        0
    } else {
        tally(jobs.drop_last(), pred) + if pred(jobs.last()) {
            1nat
        } else {
            0nat
        }
    }
}

/// The test for a job that has reached its end.
pub open spec fn ended() -> spec_fn(EncodingJob) -> bool {
    |job: EncodingJob| job.status.terminal()
}

/// The test for a job whose encode succeeded.
pub open spec fn succeeded() -> spec_fn(EncodingJob) -> bool {
    |job: EncodingJob| job.status.success()
}

/// The test for a job that a cancelled run leaves behind: it waits for the
/// encoder or holds the active slot.
pub open spec fn unfinished() -> spec_fn(EncodingJob) -> bool {
    |job: EncodingJob| job.status is Pending || job.status.active()
}

/// The bytes that a list of jobs has saved, job by job.
pub open spec fn saved_bytes(jobs: Seq<EncodingJob>) -> nat
    decreases jobs.len(),
{
    if jobs.len() == 0 {
        0
    } else {
        saved_bytes(jobs.drop_last()) + match super::job::reduction(
            jobs.last().source_size,
            jobs.last().output_size,
        ) {
            Some((saved, _)) => saved as nat,
            None => 0nat,
        }
    }
}

/// A tally never exceeds the number of jobs.
pub proof fn lemma_tally_bound(jobs: Seq<EncodingJob>, pred: spec_fn(EncodingJob) -> bool)
    ensures
        tally(jobs, pred) <= jobs.len(),
    decreases jobs.len(),
{
    if jobs.len() > 0 {
        lemma_tally_bound(jobs.drop_last(), pred);
    }
}

/// Replacing one job changes a tally by what the old and the new job count.
pub proof fn lemma_tally_update(
    jobs: Seq<EncodingJob>,
    i: int,
    job: EncodingJob,
    pred: spec_fn(EncodingJob) -> bool,
)
    requires
        0 <= i < jobs.len(),
    ensures
        tally(jobs.update(i, job), pred) + (if pred(jobs[i]) {
            1nat
        } else {
            0nat
        }) == tally(jobs, pred) + (if pred(job) {
            1nat
        } else {
            0nat
        }),
    decreases jobs.len(),
{
    let changed = jobs.update(i, job);
    if i == jobs.len() - 1 {
        assert(changed.drop_last() =~= jobs.drop_last());
    } else {
        lemma_tally_update(jobs.drop_last(), i, job, pred);
        assert(changed.drop_last() =~= jobs.drop_last().update(i, job));
    }
}

/// A tally over the first `k + 1` jobs is the tally over the first `k` and
/// what job `k` counts.
pub proof fn lemma_tally_step(jobs: Seq<EncodingJob>, k: int, pred: spec_fn(EncodingJob) -> bool)
    requires
        0 <= k < jobs.len(),
    ensures
        tally(jobs.take(k + 1), pred) == tally(jobs.take(k), pred) + if pred(jobs[k]) {
            1nat
        } else {
            0nat
        },
{
    assert(jobs.take(k + 1).drop_last() =~= jobs.take(k));
}

/// The overall progress of a run in hundredths of a percent: each finished
/// encode counts in full, the running one by its own progress, over the
/// number of jobs handed to the worker; never more than 100 %, and zero
/// where nothing was handed over.
pub open spec fn progress_value(completed: nat, current: nat, total: nat) -> nat {
    if total == 0 {
        0
    } else {
        let raw = (completed * (FULL_PROGRESS as nat) + current) / total;
        if raw > FULL_PROGRESS as nat {
            FULL_PROGRESS as nat
        } else {
            raw
        }
    }
}

/// The time that a run still needs, estimated from the time it has taken
/// for the progress it has made: nothing before the first progress and
/// nothing once it is complete; else the whole run is taken to last
/// `elapsed / (progress / 100 %)`, rounded down, and what exceeds the elapsed
/// time remains. An estimate of no time at all is not given.
pub open spec fn remaining_estimate(progress: nat, elapsed: nat) -> Option<nat> {
    if progress == 0 || progress >= FULL_PROGRESS as nat {
        None
    } else {
        let whole = elapsed * (FULL_PROGRESS as nat) / progress;
        if whole > elapsed {
            Some((whole - elapsed) as nat)
        } else {
            None
        }
    }
}

/// The time between two readings of the clock, zero where the later one
/// is not later.
pub open spec fn time_between(start: u64, end: u64) -> u64 {
    if end >= start {
        (end - start) as u64
    } else {
        0
    }
}

/// Job `idx` of `after` differs from that of `before` in its status alone,
/// and every other job is as it was.
pub open spec fn only_status_changed(
    before: Seq<EncodingJob>,
    idx: int,
    after: Seq<EncodingJob>,
) -> bool {
    &&& after.len() == before.len()
    &&& 0 <= idx < before.len()
    &&& forall|j: int| 0 <= j < before.len() && j != idx ==> after[j] == before[j]
    &&& same_but_status(before[idx], after[idx])
}

/// Two jobs agree in everything but, possibly, their status.
pub open spec fn same_but_status(a: EncodingJob, b: EncodingJob) -> bool {
    &&& a.path == b.path
    &&& a.metadata == b.metadata
    &&& a.audio_tracks == b.audio_tracks
    &&& a.subtitle_tracks == b.subtitle_tracks
    &&& a.track_selection == b.track_selection
    &&& a.output_path == b.output_path
    &&& a.crf == b.crf
    &&& a.source_size == b.source_size
    &&& a.output_size == b.output_size
    &&& a.source_deleted == b.source_deleted
    &&& a.source_kept_vmaf == b.source_kept_vmaf
}

/// Two jobs agree in everything but, possibly, what is recorded of their
/// source.
pub open spec fn same_but_source(a: EncodingJob, b: EncodingJob) -> bool {
    &&& a.path == b.path
    &&& a.metadata == b.metadata
    &&& a.audio_tracks == b.audio_tracks
    &&& a.subtitle_tracks == b.subtitle_tracks
    &&& a.track_selection == b.track_selection
    &&& a.status == b.status
    &&& a.output_path == b.output_path
    &&& a.crf == b.crf
    &&& a.source_size == b.source_size
    &&& a.output_size == b.output_size
}

/// Every job has kept its status or taken one step that the life of a job
/// allows.
pub open spec fn follows_lifecycle(before: Seq<EncodingJob>, after: Seq<EncodingJob>) -> bool {
    &&& after.len() == before.len()
    &&& forall|i: int|
        0 <= i < before.len() ==> (#[trigger] after[i]).status == before[i].status
            || before[i].status.allows(&after[i].status)
}

impl QueueState {
    /// What holds of every queue: each job is well formed; only the job at
    /// the current index can hold the active slot; and the three totals
    /// together count no more jobs than have reached their end.
    pub open spec fn wf(&self) -> bool {
        &&& forall|i: int| 0 <= i < self.jobs@.len() ==> (#[trigger] self.jobs@[i]).wf()
        &&& forall|i: int|
            0 <= i < self.jobs@.len() && (#[trigger] self.jobs@[i]).status.active() ==> i
                == self.current_job_index
        &&& self.totals() <= tally(self.jobs@, ended())
    }

    /// The jobs counted as converted, skipped or failed, together.
    pub open spec fn totals(&self) -> nat {
        (self.converted_count + self.skipped_count + self.error_count) as nat
    }

    /// The progress of the job at the current index, zero unless it encodes.
    pub open spec fn current_progress(&self) -> nat {
        if self.current_job_index < self.jobs@.len() {
            match self.jobs@[self.current_job_index as int].status {
                JobStatus::Encoding { progress } => progress as nat,
                _ => 0,
            }
        } else {
            0
        }
    }

    /// The overall progress of the run, in hundredths of a percent.
    pub open spec fn progress(&self) -> nat {
        progress_value(
            tally(self.jobs@, succeeded()),
            self.current_progress(),
            self.total_jobs_to_encode as nat,
        )
    }

    /// The time that the run has taken at `now`: up to its end where it has
    /// ended, nothing where it has not begun.
    pub open spec fn elapsed(&self, now: u64) -> Option<u64> {
        match self.start_time {
            Some(start) => Some(
                match self.end_time {
                    Some(end) => time_between(start, end),
                    None => time_between(start, now),
                },
            ),
            None => None,
        }
    }

    /// Every job has reached its end.
    pub open spec fn completed(&self) -> bool {
        forall|i: int| 0 <= i < self.jobs@.len() ==> (#[trigger] self.jobs@[i]).status.terminal()
    }

    /// The queue takes a progress report for job `idx`: the job may step to
    /// that progress, and no other job holds the active slot.
    pub open spec fn accepts_progress(&self, idx: usize, shown: u32) -> bool {
        &&& idx < self.jobs@.len()
        &&& self.jobs@[idx as int].status.allows(&JobStatus::Encoding { progress: shown })
        &&& (idx == self.current_job_index || self.current_job_index >= self.jobs@.len()
            || !self.jobs@[self.current_job_index as int].status.active())
    }

    /// The queue takes an outcome for job `idx`: the job holds the active
    /// slot.
    pub open spec fn accepts_outcome(&self, idx: usize) -> bool {
        idx < self.jobs@.len() && self.jobs@[idx as int].status.active()
    }

    /// The queue takes a report on the source of job `idx`: its encode
    /// succeeded and nothing is recorded of its source yet.
    pub open spec fn accepts_source_report(&self, idx: usize) -> bool {
        &&& idx < self.jobs@.len()
        &&& self.jobs@[idx as int].status.success()
        &&& !self.jobs@[idx as int].source_deleted
        &&& self.jobs@[idx as int].source_kept_vmaf.is_none()
    }

    /// Everything but the jobs, the current index and the three totals is
    /// the same in both queues.
    pub open spec fn same_run(&self, other: &QueueState) -> bool {
        &&& self.config_job_index == other.config_job_index
        &&& self.start_time == other.start_time
        &&& self.end_time == other.end_time
        &&& self.total_jobs_to_encode == other.total_jobs_to_encode
        &&& self.encoding_progress_done == other.encoding_progress_done
    }

    /// The same queue with its end at `end_time`.
    pub open spec fn ending_at(self, end_time: Option<u64>) -> QueueState {
        QueueState { end_time, ..self }
    }

    /// The three totals are the same in both queues.
    pub open spec fn same_totals(&self, other: &QueueState) -> bool {
        &&& self.converted_count == other.converted_count
        &&& self.skipped_count == other.skipped_count
        &&& self.error_count == other.error_count
    }

    pub fn new() -> (queue: Self)
        ensures
            queue.wf(),
            queue.jobs@.len() == 0,
            queue.current_job_index == 0,
            queue.config_job_index == 0,
            queue.start_time.is_none(),
            queue.end_time.is_none(),
            queue.total_jobs_to_encode == 0,
            queue.converted_count == 0,
            queue.skipped_count == 0,
            queue.error_count == 0,
            queue.encoding_progress_done == 0,
    {
        QueueState {
            jobs: Vec::new(),
            current_job_index: 0,
            config_job_index: 0,
            start_time: None,
            end_time: None,
            total_jobs_to_encode: 0,
            converted_count: 0,
            skipped_count: 0,
            error_count: 0,
            encoding_progress_done: 0,
        }
    }

    /// The number of jobs that have reached their end.
    pub fn ended_count(&self) -> (count: usize)
        ensures
            count == tally(self.jobs@, ended()),
    {
        let mut count: usize = 0;
        let mut k: usize = 0;
        proof {
            assert(self.jobs@.take(0) =~= Seq::<EncodingJob>::empty());
        }
        while k < self.jobs.len()
            invariant
                k <= self.jobs@.len(),
                count == tally(self.jobs@.take(k as int), ended()),
                count <= k,
            decreases self.jobs@.len() - k,
        {
            proof {
                lemma_tally_step(self.jobs@, k as int, ended());
            }
            if self.jobs[k].status.is_terminal() {
                count += 1;
            }
            k += 1;
        }
        proof {
            assert(self.jobs@.take(k as int) =~= self.jobs@);
        }
        count
    }

    /// Tells whether the queue is well formed.
    pub fn is_well_formed(&self) -> (ok: bool)
        ensures
            ok == self.wf(),
    {
        let mut k: usize = 0;
        while k < self.jobs.len()
            invariant
                k <= self.jobs@.len(),
                forall|i: int| 0 <= i < k ==> (#[trigger] self.jobs@[i]).wf(),
                forall|i: int|
                    0 <= i < k && (#[trigger] self.jobs@[i]).status.active() ==> i
                        == self.current_job_index,
            decreases self.jobs@.len() - k,
        {
            if !self.jobs[k].is_well_formed() {
                return false;
            }
            if self.jobs[k].status.is_active() && k != self.current_job_index {
                return false;
            }
            k += 1;
        }
        let ended = self.ended_count();
        let sum: u128 = (self.converted_count as u128) + (self.skipped_count as u128) + (
        self.error_count as u128);
        sum <= ended as u128
    }

    /// The time the run has taken at `now`.
    pub fn elapsed_time(&self, now: u64) -> (elapsed: Option<u64>)
        ensures
            elapsed == self.elapsed(now),
    {
        match self.start_time {
            Some(start) => Some(
                match self.end_time {
                    Some(end) => end.saturating_sub(start),
                    None => now.saturating_sub(start),
                },
            ),
            None => None,
        }
    }

    /// The number of jobs whose encode succeeded.
    pub fn completed_count(&self) -> (count: usize)
        ensures
            count == tally(self.jobs@, succeeded()),
    {
        let mut count: usize = 0;
        let mut k: usize = 0;
        proof {
            assert(self.jobs@.take(0) =~= Seq::<EncodingJob>::empty());
        }
        while k < self.jobs.len()
            invariant
                k <= self.jobs@.len(),
                count == tally(self.jobs@.take(k as int), succeeded()),
                count <= k,
            decreases self.jobs@.len() - k,
        {
            proof {
                lemma_tally_step(self.jobs@, k as int, succeeded());
            }
            if self.jobs[k].status.is_success() {
                count += 1;
            }
            k += 1;
        }
        proof {
            assert(self.jobs@.take(k as int) =~= self.jobs@);
        }
        count
    }

    /// The overall progress of the run, in hundredths of a percent.
    pub fn overall_progress(&self) -> (progress: u32)
        ensures
            progress == self.progress(),
            progress <= FULL_PROGRESS,
            self.total_jobs_to_encode == 0 ==> progress == 0,
    {
        if self.total_jobs_to_encode == 0 {
            return 0;
        }
        let completed = self.completed_count();
        let current: u32 = if self.current_job_index < self.jobs.len() {
            match self.jobs[self.current_job_index].status {
                JobStatus::Encoding { progress } => progress,
                _ => 0,
            }
        } else {
            0
        };
        assert((completed as int) * 10_000 <= 0xffff_ffff_ffff_ffff * 10_000) by (nonlinear_arith)
            requires
                completed <= 0xffff_ffff_ffff_ffff,
        ;
        let sum: u128 = (completed as u128) * (FULL_PROGRESS as u128) + (current as u128);
        let raw: u128 = sum / (self.total_jobs_to_encode as u128);
        if raw > FULL_PROGRESS as u128 {
            FULL_PROGRESS
        } else {
            raw as u32
        }
    }

    /// The time the run still needs at `now`, estimated from its progress.
    pub fn estimated_time_remaining(&self, now: u64) -> (remaining: Option<u64>)
        ensures
            remaining == (match self.elapsed(now) {
                Some(elapsed) => match remaining_estimate(self.progress(), elapsed as nat) {
                    Some(left) => Some(
                        if left > u64::MAX {
                            u64::MAX
                        } else {
                            left as u64
                        },
                    ),
                    None => None,
                },
                None => None,
            }),
            self.progress() == 0 || self.progress() == FULL_PROGRESS ==> remaining.is_none(),
            remaining matches Some(left) ==> left > 0,
    {
        let progress = self.overall_progress();
        if progress == 0 || progress >= FULL_PROGRESS {
            return None;
        }
        match self.elapsed_time(now) {
            Some(elapsed) => {
                assert((elapsed as int) * 10_000 <= 0xffff_ffff_ffff_ffff * 10_000)
                    by (nonlinear_arith)
                    requires
                        elapsed <= 0xffff_ffff_ffff_ffff,
                ;
                let whole: u128 = (elapsed as u128) * (FULL_PROGRESS as u128) / (progress as u128);
                if whole > elapsed as u128 {
                    let left: u128 = whole - (elapsed as u128);
                    if left > u64::MAX as u128 {
                        Some(u64::MAX)
                    } else {
                        Some(left as u64)
                    }
                } else {
                    None
                }
            },
            None => None,
        }
    }

    /// Check if all jobs are in a terminal state
    pub fn all_completed(&self) -> (done: bool)
        ensures
            done == self.completed(),
    {
        let mut k: usize = 0;
        while k < self.jobs.len()
            invariant
                k <= self.jobs@.len(),
                forall|i: int| 0 <= i < k ==> (#[trigger] self.jobs@[i]).status.terminal(),
            decreases self.jobs@.len() - k,
        {
            if !self.jobs[k].status.is_terminal() {
                return false;
            }
            k += 1;
        }
        true
    }

    /// Get total space saved across all completed jobs, as a number of
    /// bytes and as it is shown; a total beyond the largest number is given
    /// as the largest number.
    pub fn total_space_saved(&self) -> (total: (u64, String))
        ensures
            total.0 == (if saved_bytes(self.jobs@) > u64::MAX {
                u64::MAX as nat
            } else {
                saved_bytes(self.jobs@)
            }),
            total.1@ == file_size_text(total.0),
    {
        let bytes = self.saved_total();
        (bytes, format_file_size(bytes))
    }

    /// The bytes saved across all completed jobs, at most `u64::MAX`.
    pub fn saved_total(&self) -> (total: u64)
        ensures
            total == (if saved_bytes(self.jobs@) > u64::MAX {
                u64::MAX as nat
            } else {
                saved_bytes(self.jobs@)
            }),
    {
        let mut total: u64 = 0;
        let mut k: usize = 0;
        proof {
            assert(self.jobs@.take(0) =~= Seq::<EncodingJob>::empty());
        }
        while k < self.jobs.len()
            invariant
                k <= self.jobs@.len(),
                total == (if saved_bytes(self.jobs@.take(k as int)) > u64::MAX {
                    u64::MAX as nat
                } else {
                    saved_bytes(self.jobs@.take(k as int))
                }),
            decreases self.jobs@.len() - k,
        {
            proof {
                assert(self.jobs@.take(k + 1).drop_last() =~= self.jobs@.take(k as int));
            }
            match self.jobs[k].size_reduction() {
                Some((saved, _)) => {
                    total = total.saturating_add(saved);
                },
                None => {},
            }
            k += 1;
        }
        proof {
            assert(self.jobs@.take(k as int) =~= self.jobs@);
        }
        total
    }

    /// Reset the queue for a new session
    pub fn reset(&mut self)
        ensures
            final(self).wf(),
            final(self).jobs@.len() == 0,
            final(self).current_job_index == 0,
            final(self).config_job_index == 0,
            final(self).start_time.is_none(),
            final(self).end_time.is_none(),
            final(self).total_jobs_to_encode == 0,
            final(self).converted_count == 0,
            final(self).skipped_count == 0,
            final(self).error_count == 0,
            final(self).encoding_progress_done == 0,
    {
        self.jobs.clear();
        self.current_job_index = 0;
        self.config_job_index = 0;
        self.start_time = None;
        self.end_time = None;
        self.total_jobs_to_encode = 0;
        self.converted_count = 0;
        self.skipped_count = 0;
        self.error_count = 0;
        self.encoding_progress_done = 0;
    }
}

impl Default for QueueState {
    fn default() -> (queue: Self)
        ensures
            queue.wf(),
            queue.jobs@.len() == 0,
            queue.total_jobs_to_encode == 0,
            queue.totals() == 0,
    {
        Self::new()
    }
}

} // verus!
