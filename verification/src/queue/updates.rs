use super::job::{EncodingJob, JobStatus, FULL_PROGRESS};
use super::messages::WorkerMessage;
use super::state::{
    ended, follows_lifecycle, lemma_tally_bound, lemma_tally_step, lemma_tally_update,
    only_status_changed, progress_value, same_but_source, same_but_status, succeeded, tally,
    unfinished, QueueState,
};
use vstd::prelude::*;

verus! {

/// A progress report as the queue shows it: never beyond 100 %.
pub open spec fn shown_progress(progress: u32) -> u32 {
    if progress > FULL_PROGRESS {
        FULL_PROGRESS
    } else {
        progress
    }
}

/// What a cancelled run makes of one job: a job that waits for the encoder
/// or holds the active slot is skipped as cancelled; every other job stays
/// as it is.
pub open spec fn cancelled_job(before: EncodingJob, after: EncodingJob) -> bool {
    if unfinished()(before) {
        &&& same_but_status(before, after)
        &&& after.status matches JobStatus::Skipped { reason }
        &&& reason@ == "Cancelled"@
    } else {
        after == before
    }
}

/// What one message of the worker makes of the queue.
///
/// A progress report moves the job to that progress (at most 100 %) and
/// makes it the current one, if the job may take that step and no other job
/// holds the active slot. An outcome ends the job that holds the active slot
/// and is counted: successes and quality warnings as converted, errors as
/// errors. A cancellation skips every job that waits or runs and counts
/// them as skipped. A report on the source is recorded with a job whose
/// encode succeeded and of whose source nothing is recorded yet. A message
/// that the queue does not take leaves it as it is.
pub open spec fn message_effect(before: QueueState, msg: WorkerMessage, after: QueueState) -> bool {
    match msg {
        WorkerMessage::Progress(idx, progress) => {
            let shown = shown_progress(progress);
            if before.accepts_progress(idx, shown) {
                &&& only_status_changed(before.jobs@, idx as int, after.jobs@)
                &&& after.jobs@[idx as int].status == (JobStatus::Encoding { progress: shown })
                &&& after.current_job_index == idx
                &&& after.same_run(&before)
                &&& after.same_totals(&before)
            } else {
                after == before
            }
        },
        WorkerMessage::Done(idx) => {
            if before.accepts_outcome(idx) {
                &&& only_status_changed(before.jobs@, idx as int, after.jobs@)
                &&& after.jobs@[idx as int].status is Done
                &&& after.current_job_index == before.current_job_index
                &&& after.same_run(&before)
                &&& after.converted_count == before.converted_count + 1
                &&& after.skipped_count == before.skipped_count
                &&& after.error_count == before.error_count
            } else {
                after == before
            }
        },
        WorkerMessage::DoneWithVmaf(idx, score) => {
            if before.accepts_outcome(idx) {
                &&& only_status_changed(before.jobs@, idx as int, after.jobs@)
                &&& after.jobs@[idx as int].status == (JobStatus::DoneWithVmaf { score })
                &&& after.current_job_index == before.current_job_index
                &&& after.same_run(&before)
                &&& after.converted_count == before.converted_count + 1
                &&& after.skipped_count == before.skipped_count
                &&& after.error_count == before.error_count
            } else {
                after == before
            }
        },
        WorkerMessage::QualityWarning(idx, vmaf, threshold) => {
            if before.accepts_outcome(idx) {
                &&& only_status_changed(before.jobs@, idx as int, after.jobs@)
                &&& after.jobs@[idx as int].status == (JobStatus::QualityWarning {
                    vmaf,
                    threshold,
                })
                &&& after.current_job_index == before.current_job_index
                &&& after.same_run(&before)
                &&& after.converted_count == before.converted_count + 1
                &&& after.skipped_count == before.skipped_count
                &&& after.error_count == before.error_count
            } else {
                after == before
            }
        },
        WorkerMessage::Error(idx, text) => {
            if before.accepts_outcome(idx) {
                &&& only_status_changed(before.jobs@, idx as int, after.jobs@)
                &&& after.jobs@[idx as int].status matches JobStatus::Error { message }
                &&& message@ == text@
                &&& after.current_job_index == before.current_job_index
                &&& after.same_run(&before)
                &&& after.converted_count == before.converted_count
                &&& after.skipped_count == before.skipped_count
                &&& after.error_count == before.error_count + 1
            } else {
                after == before
            }
        },
        WorkerMessage::Cancelled => {
            &&& after.jobs@.len() == before.jobs@.len()
            &&& forall|i: int|
                0 <= i < before.jobs@.len() ==> cancelled_job(
                    before.jobs@[i],
                    #[trigger] after.jobs@[i],
                )
            &&& after.current_job_index == before.current_job_index
            &&& after.same_run(&before)
            &&& after.converted_count == before.converted_count
            &&& after.skipped_count == before.skipped_count + tally(before.jobs@, unfinished())
            &&& after.error_count == before.error_count
        },
        WorkerMessage::SourceDeleted(idx) => {
            if before.accepts_source_report(idx) {
                &&& after.jobs@.len() == before.jobs@.len()
                &&& forall|j: int|
                    0 <= j < before.jobs@.len() && j != idx ==> after.jobs@[j] == before.jobs@[j]
                &&& same_but_source(before.jobs@[idx as int], after.jobs@[idx as int])
                &&& after.jobs@[idx as int].source_deleted
                &&& after.jobs@[idx as int].source_kept_vmaf.is_none()
                &&& after.current_job_index == before.current_job_index
                &&& after.same_run(&before)
                &&& after.same_totals(&before)
            } else {
                after == before
            }
        },
        WorkerMessage::SourceKeptLowVmaf(idx, score) => {
            if before.accepts_source_report(idx) {
                &&& after.jobs@.len() == before.jobs@.len()
                &&& forall|j: int|
                    0 <= j < before.jobs@.len() && j != idx ==> after.jobs@[j] == before.jobs@[j]
                &&& same_but_source(before.jobs@[idx as int], after.jobs@[idx as int])
                &&& !after.jobs@[idx as int].source_deleted
                &&& after.jobs@[idx as int].source_kept_vmaf == Some(score)
                &&& after.current_job_index == before.current_job_index
                &&& after.same_run(&before)
                &&& after.same_totals(&before)
            } else {
                after == before
            }
        },
        WorkerMessage::SourceDeleteFailed(_, _) => after == before,
    }
}

/// Whether a message ends the run: an outcome does when it leaves no job
/// unfinished, a cancellation always, anything else never.
pub open spec fn ends_run(msg: WorkerMessage, after: QueueState) -> bool {
    match msg {
        WorkerMessage::Done(_) => after.completed(),
        WorkerMessage::DoneWithVmaf(_, _) => after.completed(),
        WorkerMessage::QualityWarning(_, _, _) => after.completed(),
        WorkerMessage::Error(_, _) => after.completed(),
        WorkerMessage::Cancelled => true,
        _ => false,
    }
}

impl QueueState {
    /// Ends job `idx` in `status` if it holds the active slot, and counts it:
    /// as an error where `failed`, else as converted.
    fn settle(&mut self, idx: usize, status: JobStatus, failed: bool) -> (taken: bool)
        requires
            old(self).wf(),
            status.terminal(),
        ensures
            final(self).wf(),
            taken == old(self).accepts_outcome(idx),
            taken ==> only_status_changed(old(self).jobs@, idx as int, final(self).jobs@),
            taken ==> final(self).jobs@[idx as int].status == status,
            taken && failed ==> final(self).error_count == old(self).error_count + 1
                && final(self).converted_count == old(self).converted_count,
            taken && !failed ==> final(self).converted_count == old(self).converted_count + 1
                && final(self).error_count == old(self).error_count,
            taken ==> final(self).skipped_count == old(self).skipped_count,
            !taken ==> *final(self) == *old(self),
            final(self).current_job_index == old(self).current_job_index,
            final(self).same_run(old(self)),
    {
        if idx < self.jobs.len() && self.jobs[idx].status.is_active() {
            self.jobs[idx].status = status;
            proof {
                assert(self.jobs@ =~= old(self).jobs@.update(idx as int, self.jobs@[idx as int]));
                lemma_tally_update(old(self).jobs@, idx as int, self.jobs@[idx as int], ended());
                lemma_tally_bound(self.jobs@, ended());
                assert(tally(self.jobs@, ended()) == tally(old(self).jobs@, ended()) + 1);
            }
            if failed {
                self.error_count += 1;
            } else {
                self.converted_count += 1;
            }
            true
        } else {
            false
        }
    }

    /// Skips every job that waits or runs, and counts them.
    fn skip_unfinished(&mut self)
        requires
            old(self).wf(),
        ensures
            final(self).wf(),
            message_effect(*old(self), WorkerMessage::Cancelled, *final(self)),
    {
        let ghost before = *self;
        let mut k: usize = 0;
        proof {
            assert(before.jobs@.take(0) =~= Seq::<EncodingJob>::empty());
        }
        while k < self.jobs.len()
            invariant
                k <= self.jobs@.len(),
                self.jobs@.len() == before.jobs@.len(),
                before.wf(),
                self.same_run(&before),
                self.current_job_index == before.current_job_index,
                self.converted_count == before.converted_count,
                self.error_count == before.error_count,
                self.skipped_count == before.skipped_count + tally(
                    before.jobs@.take(k as int),
                    unfinished(),
                ),
                forall|j: int|
                    0 <= j < k ==> cancelled_job(before.jobs@[j], #[trigger] self.jobs@[j]),
                forall|j: int| k <= j < self.jobs@.len() ==> self.jobs@[j] == before.jobs@[j],
                forall|j: int| 0 <= j < self.jobs@.len() ==> (#[trigger] self.jobs@[j]).wf(),
                forall|j: int|
                    0 <= j < self.jobs@.len() && (#[trigger] self.jobs@[j]).status.active() ==> j
                        == self.current_job_index,
                self.totals() <= tally(self.jobs@, ended()),
            decreases self.jobs@.len() - k,
        {
            let ghost jobs_before = self.jobs@;
            proof {
                lemma_tally_step(before.jobs@, k as int, unfinished());
                lemma_tally_bound(self.jobs@, ended());
            }
            let waits = matches!(self.jobs[k].status, JobStatus::Pending)
                || self.jobs[k].status.is_active();
            if waits {
                self.jobs[k].status = JobStatus::Skipped { reason: "Cancelled".to_string() };
                proof {
                    assert(self.jobs@ =~= jobs_before.update(k as int, self.jobs@[k as int]));
                    lemma_tally_update(jobs_before, k as int, self.jobs@[k as int], ended());
                    lemma_tally_bound(self.jobs@, ended());
                }
                self.skipped_count += 1;
            }
            k += 1;
        }
        proof {
            assert(before.jobs@.take(k as int) =~= before.jobs@);
        }
    }

    /// Takes one message of the worker into the queue and tells whether the
    /// run has ended with it.
    pub fn apply_message(&mut self, msg: WorkerMessage) -> (finished: bool)
        requires
            old(self).wf(),
        ensures
            final(self).wf(),
            message_effect(*old(self), msg, *final(self)),
            finished == ends_run(msg, *final(self)),
            follows_lifecycle(old(self).jobs@, final(self).jobs@),
            final(self).converted_count >= old(self).converted_count,
            final(self).skipped_count >= old(self).skipped_count,
            final(self).error_count >= old(self).error_count,
            final(self).totals() <= final(self).jobs@.len(),
    {
        proof {
            lemma_tally_bound(self.jobs@, ended());
        }
        let finished = match msg {
            WorkerMessage::Progress(idx, progress) => {
                let shown = if progress > FULL_PROGRESS {
                    FULL_PROGRESS
                } else {
                    progress
                };
                let next = JobStatus::Encoding { progress: shown };
                let slot_free = idx == self.current_job_index || self.current_job_index
                    >= self.jobs.len() || !self.jobs[self.current_job_index].status.is_active();
                if idx < self.jobs.len() && slot_free && self.jobs[idx].status.can_become(&next) {
                    self.jobs[idx].status = next;
                    self.current_job_index = idx;
                    proof {
                        assert(self.jobs@ =~= old(self).jobs@.update(
                            idx as int,
                            self.jobs@[idx as int],
                        ));
                        lemma_tally_update(
                            old(self).jobs@,
                            idx as int,
                            self.jobs@[idx as int],
                            ended(),
                        );
                    }
                }
                false
            },
            WorkerMessage::Done(idx) => {
                self.settle(idx, JobStatus::Done, false);
                self.all_completed()
            },
            WorkerMessage::DoneWithVmaf(idx, score) => {
                self.settle(idx, JobStatus::DoneWithVmaf { score }, false);
                self.all_completed()
            },
            WorkerMessage::QualityWarning(idx, vmaf, threshold) => {
                self.settle(idx, JobStatus::QualityWarning { vmaf, threshold }, false);
                self.all_completed()
            },
            WorkerMessage::Error(idx, text) => {
                self.settle(idx, JobStatus::Error { message: text }, true);
                self.all_completed()
            },
            WorkerMessage::Cancelled => {
                self.skip_unfinished();
                true
            },
            WorkerMessage::SourceDeleted(idx) => {
                if idx < self.jobs.len() && self.jobs[idx].status.is_success()
                    && !self.jobs[idx].source_deleted && self.jobs[idx].source_kept_vmaf.is_none() {
                    self.jobs[idx].source_deleted = true;
                    proof {
                        assert(self.jobs@ =~= old(self).jobs@.update(
                            idx as int,
                            self.jobs@[idx as int],
                        ));
                        lemma_tally_update(
                            old(self).jobs@,
                            idx as int,
                            self.jobs@[idx as int],
                            ended(),
                        );
                    }
                }
                false
            },
            WorkerMessage::SourceKeptLowVmaf(idx, score) => {
                if idx < self.jobs.len() && self.jobs[idx].status.is_success()
                    && !self.jobs[idx].source_deleted && self.jobs[idx].source_kept_vmaf.is_none() {
                    self.jobs[idx].source_kept_vmaf = Some(score);
                    proof {
                        assert(self.jobs@ =~= old(self).jobs@.update(
                            idx as int,
                            self.jobs@[idx as int],
                        ));
                        lemma_tally_update(
                            old(self).jobs@,
                            idx as int,
                            self.jobs@[idx as int],
                            ended(),
                        );
                    }
                }
                false
            },
            WorkerMessage::SourceDeleteFailed(_, _) => false,
        };
        proof {
            lemma_tally_bound(self.jobs@, ended());
        }
        finished
    }
}

/// Whatever message arrives, every job keeps its status or takes one step
/// that the life of a job allows.
pub proof fn lemma_messages_follow_lifecycle(
    before: QueueState,
    msg: WorkerMessage,
    after: QueueState,
)
    requires
        message_effect(before, msg, after),
    ensures
        follows_lifecycle(before.jobs@, after.jobs@),
{
}

/// Whatever message arrives, none of the three totals falls, and together
/// they never exceed the number of jobs.
pub proof fn lemma_totals_grow_within_bounds(
    before: QueueState,
    msg: WorkerMessage,
    after: QueueState,
)
    requires
        before.wf(),
        after.wf(),
        message_effect(before, msg, after),
    ensures
        before.converted_count <= after.converted_count,
        before.skipped_count <= after.skipped_count,
        before.error_count <= after.error_count,
        before.totals() <= before.jobs@.len(),
        after.totals() <= after.jobs@.len(),
{
    lemma_tally_bound(before.jobs@, ended());
    lemma_tally_bound(after.jobs@, ended());
}

/// The overall progress never falls as more is completed: for a fixed
/// number of jobs handed over, it grows with the number of finished encodes
/// and with the progress of the running one, and a job that finishes counts
/// at least what its progress counted before.
pub proof fn lemma_progress_value_monotone(
    completed: nat,
    current: nat,
    later_completed: nat,
    later_current: nat,
    total: nat,
)
    requires
        completed * (FULL_PROGRESS as nat) + current <= later_completed * (FULL_PROGRESS as nat)
            + later_current,
    ensures
        progress_value(completed, current, total) <= progress_value(
            later_completed,
            later_current,
            total,
        ),
        progress_value(completed, current, total) <= FULL_PROGRESS,
{
    if total > 0 {
        let a = completed * (FULL_PROGRESS as nat) + current;
        let b = later_completed * (FULL_PROGRESS as nat) + later_current;
        assert(a / total <= b / total) by (nonlinear_arith)
            requires
                a <= b,
                total > 0,
        ;
    }
}

/// A progress report, a finished encode or a report on the source never
/// lowers the overall progress of the run.
pub proof fn lemma_progress_never_falls(before: QueueState, msg: WorkerMessage, after: QueueState)
    requires
        before.wf(),
        message_effect(before, msg, after),
        !(msg is Error),
        !(msg is Cancelled),
    ensures
        before.progress() <= after.progress(),
        after.progress() <= FULL_PROGRESS,
{
    let total = before.total_jobs_to_encode as nat;
    let full = FULL_PROGRESS as nat;
    let done_before = tally(before.jobs@, succeeded());
    let done_after = tally(after.jobs@, succeeded());
    if after == before {
        lemma_progress_value_monotone(
            done_before,
            before.current_progress(),
            done_after,
            after.current_progress(),
            total,
        );
    } else {
        let idx = msg.job().unwrap() as int;
        assert(after.jobs@ =~= before.jobs@.update(idx, after.jobs@[idx]));
        lemma_tally_update(before.jobs@, idx, after.jobs@[idx], succeeded());
        assert(before.jobs@[idx].wf());
        if before.current_job_index < before.jobs@.len() {
            assert(before.jobs@[before.current_job_index as int].wf());
        }
        match msg {
            WorkerMessage::Progress(_, _) => {
                assert(done_after == done_before);
                assert(before.current_progress() <= after.current_progress());
            },
            WorkerMessage::SourceDeleted(_) | WorkerMessage::SourceKeptLowVmaf(_, _) => {
                assert(done_after == done_before);
                assert(before.current_progress() == after.current_progress());
            },
            _ => {
                assert(done_after == done_before + 1);
                assert(before.current_progress() <= full);
                assert((done_before + 1) * full == done_before * full + full)
                    by (nonlinear_arith);
            },
        }
        lemma_progress_value_monotone(
            done_before,
            before.current_progress(),
            done_after,
            after.current_progress(),
            total,
        );
    }
}

} // verus!
