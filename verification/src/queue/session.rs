use super::job::{output_path_for, EncodingJob, JobStatus};
use super::state::{
    ended, follows_lifecycle, lemma_tally_bound, lemma_tally_step, lemma_tally_update,
    only_status_changed, same_but_status, tally, QueueState,
};
use super::worker::WorkerJob;
use crate::analyzer::AnalysisResult;
use crate::error::AppError;
use crate::tracks::selection::{audio_indices_of, subtitle_indices_of};
use vstd::prelude::*;

verus! {

/// The test for a job that can be handed to the worker: it is ready and its
/// metadata is known.
pub open spec fn submittable() -> spec_fn(EncodingJob) -> bool {
    |job: EncodingJob| job.status is Ready && job.metadata.is_some()
}

/// `work` is what the worker needs for job `index`: its input, its output
/// (the input where no output path was made), its metadata and its tracks.
pub open spec fn work_for(
    job: EncodingJob,
    index: usize,
    delete_source: bool,
    work: WorkerJob,
) -> bool {
    &&& work.index == index
    &&& work.input@ == job.path@
    &&& work.output@ == (match job.output_path {
        Some(path) => path@,
        None => job.path@,
    })
    &&& job.metadata matches Some(metadata) && work.metadata.same_data(&metadata)
    &&& work.tracks.audio_indices@ == job.track_selection.audio_indices@
    &&& work.tracks.subtitle_indices@ == job.track_selection.subtitle_indices@
    &&& work.delete_source == delete_source
}

/// The list holds work for job `index`.
pub open spec fn lists(work: Seq<WorkerJob>, index: int) -> bool {
    exists|k: int| 0 <= k < work.len() && (#[trigger] work[k]).index == index
}

/// `work` is the work for the submittable jobs among the first `upto` of
/// `jobs`, one for each, in the order of the queue.
pub open spec fn work_list(
    jobs: Seq<EncodingJob>,
    upto: int,
    delete_source: bool,
    work: Seq<WorkerJob>,
) -> bool {
    &&& forall|k: int|
        0 <= k < work.len() ==> (#[trigger] work[k]).index < upto && submittable()(
            jobs[work[k].index as int],
        ) && work_for(jobs[work[k].index as int], work[k].index, delete_source, work[k])
    &&& forall|k: int, l: int|
        0 <= k < l < work.len() ==> (#[trigger] work[k]).index < (#[trigger] work[l]).index
    &&& forall|i: int| 0 <= i < upto && submittable()(jobs[i]) ==> lists(work, i)
}

/// What handing the queue to the worker makes of one job: a submittable
/// job waits for the encoder; every other job stays as it is.
pub open spec fn submitted_job(before: EncodingJob, after: EncodingJob) -> bool {
    if submittable()(before) {
        same_but_status(before, after) && after.status is Pending
    } else {
        after == before
    }
}

/// Two jobs agree in everything but, possibly, the size of their output.
pub open spec fn same_but_output_size(a: EncodingJob, b: EncodingJob) -> bool {
    &&& a.path == b.path
    &&& a.metadata == b.metadata
    &&& a.audio_tracks == b.audio_tracks
    &&& a.subtitle_tracks == b.subtitle_tracks
    &&& a.track_selection == b.track_selection
    &&& a.status == b.status
    &&& a.output_path == b.output_path
    &&& a.crf == b.crf
    &&& a.source_size == b.source_size
    &&& a.source_deleted == b.source_deleted
    &&& a.source_kept_vmaf == b.source_kept_vmaf
}

/// What a successful analysis makes of a job: the job holds what was found,
/// has all its tracks selected and its output path made, and waits to be
/// configured.
pub open spec fn analyzed_job(
    before: EncodingJob,
    found: AnalysisResult,
    suffix: Seq<char>,
    container: Seq<char>,
    after: EncodingJob,
) -> bool {
    &&& after.status is AwaitingConfig
    &&& after.metadata == Some(found.metadata)
    &&& after.audio_tracks == found.audio_tracks
    &&& after.subtitle_tracks == found.subtitle_tracks
    &&& after.track_selection.audio_indices@ == audio_indices_of(found.audio_tracks@)
    &&& after.track_selection.subtitle_indices@ == subtitle_indices_of(found.subtitle_tracks@)
    &&& after.output_path.deep_view() == Some(output_path_for(before.path@, suffix, container))
    &&& after.path == before.path
    &&& after.crf == before.crf
    &&& after.source_size == before.source_size
    &&& after.output_size == before.output_size
    &&& after.source_deleted == before.source_deleted
    &&& after.source_kept_vmaf == before.source_kept_vmaf
}

/// Where the first job from `from` on stands that waits to be configured,
/// or the number of jobs where there is none.
pub open spec fn next_awaiting(jobs: Seq<EncodingJob>, from: int) -> int
    decreases jobs.len() - from,
{
    if from < 0 || from >= jobs.len() {
        jobs.len() as int
    } else if jobs[from].status is AwaitingConfig {
        from
    } else {
        next_awaiting(jobs, from + 1)
    }
}

/// The next job that waits for its configuration is not before the place
/// from which it was looked for, and waits for its configuration.
pub proof fn lemma_next_awaiting(jobs: Seq<EncodingJob>, from: int)
    requires
        0 <= from,
    ensures
        next_awaiting(jobs, from) >= from || next_awaiting(jobs, from) == jobs.len(),
        next_awaiting(jobs, from) < jobs.len() ==> jobs[next_awaiting(
            jobs,
            from,
        )].status is AwaitingConfig,
    decreases jobs.len() - from,
{
    if from < jobs.len() && !(jobs[from].status is AwaitingConfig) {
        lemma_next_awaiting(jobs, from + 1);
    }
}

impl QueueState {
    /// Begins the analysis of job `idx`, if it is pending, and tells
    /// whether it did.
    pub fn begin_analysis(&mut self, idx: usize) -> (taken: bool)
        requires
            old(self).wf(),
        ensures
            final(self).wf(),
            taken == (idx < old(self).jobs@.len() && old(self).jobs@[idx as int].status is Pending),
            taken ==> only_status_changed(old(self).jobs@, idx as int, final(self).jobs@)
                && final(self).jobs@[idx as int].status is Analyzing,
            !taken ==> *final(self) == *old(self),
            follows_lifecycle(old(self).jobs@, final(self).jobs@),
            final(self).current_job_index == old(self).current_job_index,
            final(self).same_run(old(self)),
            final(self).same_totals(old(self)),
    {
        if idx < self.jobs.len() && matches!(self.jobs[idx].status, JobStatus::Pending) {
            self.jobs[idx].status = JobStatus::Analyzing;
            proof {
                assert(self.jobs@ =~= old(self).jobs@.update(idx as int, self.jobs@[idx as int]));
                lemma_tally_update(old(self).jobs@, idx as int, self.jobs@[idx as int], ended());
            }
            true
        } else {
            false
        }
    }

    /// Takes the result of the analysis of job `idx`, if the job is being
    /// analyzed, and tells whether it did. What was found is recorded with
    /// the job, which then waits to be configured; a failure ends the job
    /// with the error's message and is counted.
    pub fn finish_analysis(
        &mut self,
        idx: usize,
        outcome: Result<AnalysisResult, AppError>,
        suffix: &str,
        container: &str,
    ) -> (taken: bool)
        requires
            old(self).wf(),
        ensures
            final(self).wf(),
            taken == (idx < old(self).jobs@.len() && old(self).jobs@[idx as int].status is Analyzing),
            !taken ==> *final(self) == *old(self),
            taken ==> final(self).jobs@.len() == old(self).jobs@.len() && forall|j: int|
                0 <= j < old(self).jobs@.len() && j != idx ==> final(self).jobs@[j] == old(self).jobs@[j],
            taken ==> (match outcome {
                Ok(found) => analyzed_job(
                    old(self).jobs@[idx as int],
                    found,
                    suffix@,
                    container@,
                    final(self).jobs@[idx as int],
                ) && final(self).error_count == old(self).error_count,
                Err(error) => same_but_status(
                    old(self).jobs@[idx as int],
                    final(self).jobs@[idx as int],
                ) && (final(self).jobs@[idx as int].status matches JobStatus::Error { message }
                    && message@ == error.text()) && final(self).error_count == old(self).error_count + 1,
            }),
            follows_lifecycle(old(self).jobs@, final(self).jobs@),
            final(self).converted_count == old(self).converted_count,
            final(self).skipped_count == old(self).skipped_count,
            final(self).current_job_index == old(self).current_job_index,
            final(self).same_run(old(self)),
    {
        if !(idx < self.jobs.len() && matches!(self.jobs[idx].status, JobStatus::Analyzing)) {
            return false;
        }
        proof {
            lemma_tally_bound(self.jobs@, ended());
        }
        match outcome {
            Ok(found) => {
                let job = &mut self.jobs[idx];
                job.metadata = Some(found.metadata);
                job.audio_tracks = found.audio_tracks;
                job.subtitle_tracks = found.subtitle_tracks;
                job.select_all_tracks();
                job.generate_output_path(suffix, container);
                job.status = JobStatus::AwaitingConfig;
                proof {
                    assert(self.jobs@ =~= old(self).jobs@.update(
                        idx as int,
                        self.jobs@[idx as int],
                    ));
                    lemma_tally_update(
                        old(self).jobs@,
                        idx as int,
                        self.jobs@[idx as int],
                        ended(),
                    );
                }
            },
            Err(error) => {
                self.jobs[idx].status = JobStatus::Error { message: error.message() };
                proof {
                    assert(self.jobs@ =~= old(self).jobs@.update(
                        idx as int,
                        self.jobs@[idx as int],
                    ));
                    lemma_tally_update(
                        old(self).jobs@,
                        idx as int,
                        self.jobs@[idx as int],
                        ended(),
                    );
                    lemma_tally_bound(self.jobs@, ended());
                }
                self.error_count += 1;
            },
        }
        true
    }

    /// Finds the first job from `from` on that waits to be configured.
    pub fn find_awaiting(&self, from: usize) -> (at: usize)
        ensures
            at == next_awaiting(self.jobs@, from as int),
            at <= self.jobs@.len(),
    {
        let mut k: usize = from;
        while k < self.jobs.len()
            invariant
                from <= k,
                next_awaiting(self.jobs@, from as int) == next_awaiting(self.jobs@, k as int),
            decreases self.jobs@.len() - k,
        {
            if matches!(self.jobs[k].status, JobStatus::AwaitingConfig) {
                return k;
            }
            k += 1;
        }
        self.jobs.len()
    }

    /// Turns to the first job that waits to be configured and tells whether
    /// there is one; where there is none the first job is the one shown.
    pub fn select_config_job(&mut self) -> (found: bool)
        ensures
            found == (next_awaiting(old(self).jobs@, 0) < old(self).jobs@.len()),
            final(self).config_job_index == (if found {
                next_awaiting(old(self).jobs@, 0) as usize
            } else {
                0
            }),
            final(self).jobs == old(self).jobs,
            final(self).current_job_index == old(self).current_job_index,
            final(self).start_time == old(self).start_time,
            final(self).end_time == old(self).end_time,
            final(self).total_jobs_to_encode == old(self).total_jobs_to_encode,
            final(self).encoding_progress_done == old(self).encoding_progress_done,
            final(self).same_totals(old(self)),
    {
        let at = self.find_awaiting(0);
        if at < self.jobs.len() {
            self.config_job_index = at;
            true
        } else {
            self.config_job_index = 0;
            false
        }
    }

    /// Confirms the configuration of the job that is being configured and
    /// turns to the next job that waits for its configuration. Tells
    /// whether none is left, so that encoding can start.
    pub fn confirm_track_config(&mut self) -> (all_configured: bool)
        requires
            old(self).wf(),
        ensures
            final(self).wf(),
            follows_lifecycle(old(self).jobs@, final(self).jobs@),
            ({
                let at = old(self).config_job_index as int;
                if at < old(self).jobs@.len() && old(self).jobs@[at].status is AwaitingConfig {
                    only_status_changed(old(self).jobs@, at, final(self).jobs@) && final(self).jobs@[at].status is Ready
                } else {
                    final(self).jobs == old(self).jobs
                }
            }),
            ({
                let next = if old(self).config_job_index < usize::MAX {
                    next_awaiting(final(self).jobs@, old(self).config_job_index + 1)
                } else {
                    final(self).jobs@.len() as int
                };
                &&& all_configured == (next >= final(self).jobs@.len())
                &&& final(self).config_job_index == (if all_configured {
                    old(self).config_job_index
                } else {
                    next as usize
                })
            }),
            final(self).current_job_index == old(self).current_job_index,
            final(self).start_time == old(self).start_time,
            final(self).end_time == old(self).end_time,
            final(self).total_jobs_to_encode == old(self).total_jobs_to_encode,
            final(self).encoding_progress_done == old(self).encoding_progress_done,
            final(self).same_totals(old(self)),
    {
        let at = self.config_job_index;
        if at < self.jobs.len() && matches!(self.jobs[at].status, JobStatus::AwaitingConfig) {
            self.jobs[at].status = JobStatus::Ready;
            proof {
                assert(self.jobs@ =~= old(self).jobs@.update(at as int, self.jobs@[at as int]));
                lemma_tally_update(old(self).jobs@, at as int, self.jobs@[at as int], ended());
            }
        }
        if at == usize::MAX {
            return true;
        }
        let next = self.find_awaiting(at + 1);
        if next < self.jobs.len() {
            self.config_job_index = next;
            false
        } else {
            true
        }
    }

    /// Hands every job that is ready to the worker: the jobs now wait for
    /// the encoder, the run begins at `now`, and the work for them is
    /// returned in the order of the queue.
    pub fn start_encoding(&mut self, now: u64, delete_source: bool) -> (work: Vec<WorkerJob>)
        requires
            old(self).wf(),
        ensures
            final(self).wf(),
            final(self).jobs@.len() == old(self).jobs@.len(),
            forall|i: int|
                0 <= i < old(self).jobs@.len() ==> submitted_job(
                    old(self).jobs@[i],
                    #[trigger] final(self).jobs@[i],
                ),
            follows_lifecycle(old(self).jobs@, final(self).jobs@),
            work_list(old(self).jobs@, old(self).jobs@.len() as int, delete_source, work@),
            work@.len() == tally(old(self).jobs@, submittable()),
            final(self).total_jobs_to_encode == work@.len(),
            final(self).start_time == Some(now),
            final(self).end_time.is_none(),
            final(self).same_totals(old(self)),
            final(self).config_job_index == old(self).config_job_index,
            final(self).encoding_progress_done == old(self).encoding_progress_done,
            final(self).current_job_index == (if old(self).current_job_index < old(self).jobs@.len() && old(self).jobs@[old(self).current_job_index as int].status.active() {
                old(self).current_job_index
            } else {
                0
            }),
    {
        let ghost before = *self;
        let mut work: Vec<WorkerJob> = Vec::new();
        let mut k: usize = 0;
        proof {
            assert(before.jobs@.take(0) =~= Seq::<EncodingJob>::empty());
        }
        while k < self.jobs.len()
            invariant
                k <= self.jobs@.len(),
                self.jobs@.len() == before.jobs@.len(),
                before.wf(),
                self.same_run(&before),
                self.same_totals(&before),
                self.current_job_index == before.current_job_index,
                forall|j: int|
                    0 <= j < k ==> submitted_job(before.jobs@[j], #[trigger] self.jobs@[j]),
                forall|j: int| k <= j < self.jobs@.len() ==> self.jobs@[j] == before.jobs@[j],
                forall|j: int| 0 <= j < self.jobs@.len() ==> (#[trigger] self.jobs@[j]).wf(),
                forall|j: int|
                    0 <= j < self.jobs@.len() && (#[trigger] self.jobs@[j]).status.active() ==> j
                        == self.current_job_index,
                tally(self.jobs@, ended()) == tally(before.jobs@, ended()),
                work_list(before.jobs@, k as int, delete_source, work@),
                work@.len() == tally(before.jobs@.take(k as int), submittable()),
                work@.len() <= k,
            decreases self.jobs@.len() - k,
        {
            let ghost jobs_before = self.jobs@;
            let ghost work_before = work@;
            proof {
                lemma_tally_step(before.jobs@, k as int, submittable());
            }
            let ready = matches!(self.jobs[k].status, JobStatus::Ready);
            let copied = if ready {
                match &self.jobs[k].metadata {
                    Some(m) => Some(m.duplicate()),
                    None => None,
                }
            } else {
                None
            };
            if let Some(metadata) = copied {
                let job = &self.jobs[k];
                let output = match &job.output_path {
                    Some(path) => path.clone(),
                    None => job.path.clone(),
                };
                let item = WorkerJob {
                    index: k,
                    input: job.path.clone(),
                    output,
                    metadata,
                    tracks: job.track_selection.duplicate(),
                    delete_source,
                };
                work.push(item);
                self.jobs[k].status = JobStatus::Pending;
                proof {
                    assert(self.jobs@ =~= jobs_before.update(k as int, self.jobs@[k as int]));
                    lemma_tally_update(jobs_before, k as int, self.jobs@[k as int], ended());
                    assert(work@[work_before.len() as int].index == k);
                    assert(lists(work@, k as int));
                    assert forall|i: int|
                        0 <= i < k + 1 && submittable()(before.jobs@[i]) implies lists(
                        work@,
                        i,
                    ) by {
                        if i < k {
                            assert(lists(work_before, i));
                            let w = choose|w: int|
                                0 <= w < work_before.len() && (#[trigger] work_before[w]).index
                                    == i;
                            assert(work@[w].index == i);
                        }
                    }
                }
            } else {
                proof {
                    assert forall|i: int|
                        0 <= i < k + 1 && submittable()(before.jobs@[i]) implies lists(
                        work@,
                        i,
                    ) by {
                        assert(i < k);
                    }
                }
            }
            k += 1;
        }
        proof {
            assert(before.jobs@.take(k as int) =~= before.jobs@);
        }
        self.total_jobs_to_encode = work.len();
        self.start_time = Some(now);
        self.end_time = None;
        if !(self.current_job_index < self.jobs.len()
            && self.jobs[self.current_job_index].status.is_active()) {
            self.current_job_index = 0;
        }
        work
    }

    /// Records the size of the output of job `idx`, if its encode succeeded,
    /// and tells whether it did.
    pub fn record_output_size(&mut self, idx: usize, size: u64) -> (taken: bool)
        requires
            old(self).wf(),
        ensures
            final(self).wf(),
            taken == (idx < old(self).jobs@.len() && old(self).jobs@[idx as int].status.success()),
            !taken ==> *final(self) == *old(self),
            taken ==> {
                &&& final(self).jobs@.len() == old(self).jobs@.len()
                &&& forall|j: int|
                    0 <= j < old(self).jobs@.len() && j != idx ==> final(self).jobs@[j] == old(self).jobs@[j]
                &&& final(self).jobs@[idx as int].output_size == Some(size)
                &&& same_but_output_size(
                    old(self).jobs@[idx as int],
                    final(self).jobs@[idx as int],
                )
            },
            final(self).current_job_index == old(self).current_job_index,
            final(self).same_run(old(self)),
            final(self).same_totals(old(self)),
    {
        if idx < self.jobs.len() && self.jobs[idx].status.is_success() {
            self.jobs[idx].output_size = Some(size);
            proof {
                assert(self.jobs@ =~= old(self).jobs@.update(idx as int, self.jobs@[idx as int]));
                lemma_tally_update(old(self).jobs@, idx as int, self.jobs@[idx as int], ended());
            }
            true
        } else {
            false
        }
    }

    /// Marks the end of the run at `now`, once: a run that has not begun or
    /// has ended keeps its times.
    pub fn finish(&mut self, now: u64)
        ensures
            final(self).end_time == (if old(self).start_time.is_some() && old(self).end_time.is_none() {
                Some(now)
            } else {
                old(self).end_time
            }),
            final(self).jobs == old(self).jobs,
            final(self).current_job_index == old(self).current_job_index,
            final(self).config_job_index == old(self).config_job_index,
            final(self).start_time == old(self).start_time,
            final(self).total_jobs_to_encode == old(self).total_jobs_to_encode,
            final(self).encoding_progress_done == old(self).encoding_progress_done,
            final(self).same_totals(old(self)),
    {
        if self.start_time.is_some() && self.end_time.is_none() {
            self.end_time = Some(now);
        }
    }
}

} // verus!
