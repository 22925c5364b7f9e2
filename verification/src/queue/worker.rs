use super::messages::WorkerMessage;
use crate::analyzer::VideoMetadata;
use crate::encoder::pipeline::FullEncodeResult;
use crate::text::concat;
use crate::tracks::TrackSelection;
use vstd::prelude::*;

verus! {

/// Data needed by the worker for one job
#[derive(Debug, Clone)]
pub struct WorkerJob {
    pub index: usize,
    pub input: String,
    pub output: String,
    pub metadata: VideoMetadata,
    pub tracks: TrackSelection,
    pub delete_source: bool,
}

/// The score, in hundredths, from which a source may be deleted where
/// nothing else is configured.
pub const DELETE_VMAF_THRESHOLD: u32 = 9_000;

/// What the worker is doing.
#[derive(Debug, Clone, Copy, PartialEq, Eq, Structural)]
pub enum WorkerPhase {
    /// Between two jobs
    Idle,
    /// The pipeline of the job at the current position runs
    Running,
    /// The source of the job at the current position is being deleted
    Deleting,
    /// The worker has stopped: the list is done or the run was cancelled
    Stopped,
}

/// What the worker asks for next.
#[derive(Debug, Clone, Copy, PartialEq, Eq, Structural)]
pub enum WorkerAction {
    /// Run the pipeline of the job at `position`, reporting its progress
    RunPipeline { position: usize },
    /// Delete the source file of the job at `position`
    DeleteSource { position: usize },
    /// Go on to the next job
    Continue,
    /// Stop: nothing is left to do
    Stop,
}

/// What one step of the worker leads to: the messages to send, in order,
/// and what to do next.
#[derive(Debug, Clone)]
pub struct WorkerStep {
    pub messages: Vec<WorkerMessage>,
    pub action: WorkerAction,
}

/// The worker: the jobs it was given, in the order in which it takes them,
/// the position of the job it is at, and the score from which a source may
/// be deleted.
#[derive(Debug, Clone)]
pub struct Worker {
    pub jobs: Vec<WorkerJob>,
    pub position: usize,
    pub phase: WorkerPhase,
    pub delete_threshold: u32,
}

/// What is sent about the source of a finished job whose score is known,
/// where the job asks for its source to be deleted: nothing yet where the
/// score allows the deletion, which is then the next thing to do; else that
/// the source is kept, with the score.
pub open spec fn source_decision(
    job: WorkerJob,
    score: u32,
    threshold: u32,
    messages: Seq<WorkerMessage>,
    action: WorkerAction,
    position: usize,
) -> bool {
    if job.delete_source && score >= threshold {
        messages.len() == 1 && action == (WorkerAction::DeleteSource { position })
    } else if job.delete_source {
        messages.len() == 2 && messages[1] == WorkerMessage::SourceKeptLowVmaf(job.index, score)
            && action == WorkerAction::Continue
    } else {
        messages.len() == 1 && action == WorkerAction::Continue
    }
}

/// The deletion threshold alone decides over the source of a job that asks
/// for its source to be deleted: from the threshold on the source is to be
/// deleted, and below it the source is kept and the message behind the
/// outcome says so, with the score. The warning threshold of the encode
/// plays no part. A job that does not ask for it never has its source
/// deleted.
pub proof fn lemma_deletion_follows_threshold(
    job: WorkerJob,
    score: u32,
    threshold: u32,
    messages: Seq<WorkerMessage>,
    action: WorkerAction,
    position: usize,
)
    requires
        source_decision(job, score, threshold, messages, action, position),
    ensures
        (action is DeleteSource) <==> (job.delete_source && score >= threshold),
        !(action is DeleteSource) ==> action == WorkerAction::Continue,
        job.delete_source && score < threshold ==> messages.len() == 2 && messages[1]
            == WorkerMessage::SourceKeptLowVmaf(job.index, score),
        !job.delete_source ==> messages.len() == 1,
{
}

impl Worker {
    /// The worker is at a job of its list, or has none left and is not in
    /// the middle of one.
    pub open spec fn wf(&self) -> bool {
        &&& self.position <= self.jobs@.len()
        &&& (self.phase == WorkerPhase::Running || self.phase == WorkerPhase::Deleting)
            ==> self.position < self.jobs@.len()
    }

    /// Everything but the position and the phase is the same in both.
    pub open spec fn same_list(&self, other: &Worker) -> bool {
        self.jobs == other.jobs && self.delete_threshold == other.delete_threshold
    }

    /// Tells whether the worker is well formed.
    pub fn is_well_formed(&self) -> (ok: bool)
        ensures
            ok == self.wf(),
    {
        let busy = match self.phase {
            WorkerPhase::Running => true,
            WorkerPhase::Deleting => true,
            _ => false,
        };
        self.position <= self.jobs.len() && (!busy || self.position < self.jobs.len())
    }

    /// A worker for a list of jobs, which deletes a source only from the
    /// standard score on.
    pub fn new(jobs: Vec<WorkerJob>) -> (worker: Self)
        ensures
            worker.wf(),
            worker.jobs == jobs,
            worker.position == 0,
            worker.phase == WorkerPhase::Idle,
            worker.delete_threshold == DELETE_VMAF_THRESHOLD,
    {
        Worker { jobs, position: 0, phase: WorkerPhase::Idle, delete_threshold: DELETE_VMAF_THRESHOLD }
    }

    /// A worker for a list of jobs, which deletes a source only from the
    /// score `delete_threshold` on.
    pub fn with_delete_threshold(jobs: Vec<WorkerJob>, delete_threshold: u32) -> (worker: Self)
        ensures
            worker.wf(),
            worker.jobs == jobs,
            worker.position == 0,
            worker.phase == WorkerPhase::Idle,
            worker.delete_threshold == delete_threshold,
    {
        Worker { jobs, position: 0, phase: WorkerPhase::Idle, delete_threshold }
    }

    /// Turns to the next job of the list.
    ///
    /// Where the list is done the worker stops without a word. Where the run
    /// has been cancelled it says so and stops: the job and all behind it
    /// are never started. Else it reports the job at no progress and asks
    /// for its pipeline.
    pub fn next_job(&mut self, cancelled: bool) -> (step: WorkerStep)
        requires
            old(self).wf(),
            old(self).phase == WorkerPhase::Idle,
        ensures
            final(self).wf(),
            final(self).same_list(old(self)),
            final(self).position == old(self).position,
            old(self).position == old(self).jobs@.len() ==> {
                &&& step.messages@.len() == 0
                &&& step.action == WorkerAction::Stop
                &&& final(self).phase == WorkerPhase::Stopped
            },
            old(self).position < old(self).jobs@.len() && cancelled ==> {
                &&& step.messages@.len() == 1
                &&& step.messages@[0] is Cancelled
                &&& step.action == WorkerAction::Stop
                &&& final(self).phase == WorkerPhase::Stopped
            },
            old(self).position < old(self).jobs@.len() && !cancelled ==> {
                &&& step.messages@.len() == 1
                &&& step.messages@[0] == WorkerMessage::Progress(
                    old(self).jobs@[old(self).position as int].index,
                    0,
                )
                &&& step.action == (WorkerAction::RunPipeline { position: old(self).position })
                &&& final(self).phase == WorkerPhase::Running
            },
    {
        let mut messages: Vec<WorkerMessage> = Vec::new();
        if self.position >= self.jobs.len() {
            self.phase = WorkerPhase::Stopped;
            return WorkerStep { messages, action: WorkerAction::Stop };
        }
        if cancelled {
            messages.push(WorkerMessage::Cancelled);
            self.phase = WorkerPhase::Stopped;
            return WorkerStep { messages, action: WorkerAction::Stop };
        }
        messages.push(WorkerMessage::Progress(self.jobs[self.position].index, 0));
        self.phase = WorkerPhase::Running;
        WorkerStep { messages, action: WorkerAction::RunPipeline { position: self.position } }
    }

    /// The message for a progress report of the running pipeline: it bears
    /// the index of the job at the current position.
    pub fn progress_message(&self, progress: u32) -> (message: WorkerMessage)
        requires
            self.wf(),
            self.phase == WorkerPhase::Running,
        ensures
            message == WorkerMessage::Progress(self.jobs@[self.position as int].index, progress),
    {
        WorkerMessage::Progress(self.jobs[self.position].index, progress)
    }

    /// Takes the outcome of the running pipeline.
    ///
    /// Exactly one message says how the job ended. A cancellation stops the
    /// worker; an error leaves the next job untouched. Where the score of a
    /// finished encode is known and the job asks for its source to be
    /// deleted, the score decides: from the deletion threshold on the
    /// source is to be deleted next; below it the source is kept and a
    /// second message says so, with the score.
    pub fn pipeline_finished(&mut self, result: FullEncodeResult) -> (step: WorkerStep)
        requires
            old(self).wf(),
            old(self).phase == WorkerPhase::Running,
        ensures
            final(self).wf(),
            final(self).same_list(old(self)),
            1 <= step.messages@.len() <= 2,
            step.messages@[0].terminal(),
            step.messages@.len() == 2 ==> step.messages@[1].about_source(),
            ({
                let job = old(self).jobs@[old(self).position as int];
                match result {
                    FullEncodeResult::Success => {
                        &&& step.messages@.len() == 1
                        &&& step.messages@[0] == WorkerMessage::Done(job.index)
                        &&& step.action == WorkerAction::Continue
                    },
                    FullEncodeResult::SuccessWithVmaf(vmaf) => {
                        &&& step.messages@[0] == WorkerMessage::DoneWithVmaf(job.index, vmaf.score)
                        &&& source_decision(
                            job,
                            vmaf.score,
                            old(self).delete_threshold,
                            step.messages@,
                            step.action,
                            old(self).position,
                        )
                    },
                    FullEncodeResult::Cancelled => {
                        &&& step.messages@.len() == 1
                        &&& step.messages@[0] is Cancelled
                        &&& step.action == WorkerAction::Stop
                    },
                    FullEncodeResult::Error(why) => {
                        &&& step.messages@.len() == 1
                        &&& step.messages@[0] matches WorkerMessage::Error(index, text)
                        &&& index == job.index
                        &&& text@ == why@
                        &&& step.action == WorkerAction::Continue
                    },
                    FullEncodeResult::QualityWarning { vmaf, threshold } => {
                        &&& step.messages@[0] == WorkerMessage::QualityWarning(
                            job.index,
                            vmaf.score,
                            threshold,
                        )
                        &&& source_decision(
                            job,
                            vmaf.score,
                            old(self).delete_threshold,
                            step.messages@,
                            step.action,
                            old(self).position,
                        )
                    },
                }
            }),
            step.action == WorkerAction::Continue ==> final(self).phase == WorkerPhase::Idle
                && final(self).position == old(self).position + 1,
            step.action == WorkerAction::Stop ==> final(self).phase == WorkerPhase::Stopped
                && final(self).position == old(self).position,
            step.action is DeleteSource ==> final(self).phase == WorkerPhase::Deleting
                && final(self).position == old(self).position,
            !(step.action is RunPipeline),
    {
        let count = self.jobs.len();
        let index = self.jobs[self.position].index;
        let delete_source = self.jobs[self.position].delete_source;
        let mut messages: Vec<WorkerMessage> = Vec::new();
        let score = match result {
            FullEncodeResult::Success => {
                messages.push(WorkerMessage::Done(index));
                None
            },
            FullEncodeResult::SuccessWithVmaf(vmaf) => {
                messages.push(WorkerMessage::DoneWithVmaf(index, vmaf.score));
                Some(vmaf.score)
            },
            FullEncodeResult::Cancelled => {
                messages.push(WorkerMessage::Cancelled);
                self.phase = WorkerPhase::Stopped;
                return WorkerStep { messages, action: WorkerAction::Stop };
            },
            FullEncodeResult::Error(why) => {
                messages.push(WorkerMessage::Error(index, why));
                None
            },
            FullEncodeResult::QualityWarning { vmaf, threshold } => {
                messages.push(WorkerMessage::QualityWarning(index, vmaf.score, threshold));
                Some(vmaf.score)
            },
        };
        match score {
            Some(score) => {
                if delete_source {
                    if score >= self.delete_threshold {
                        self.phase = WorkerPhase::Deleting;
                        return WorkerStep {
                            messages,
                            action: WorkerAction::DeleteSource { position: self.position },
                        };
                    }
                    messages.push(WorkerMessage::SourceKeptLowVmaf(index, score));
                }
            },
            None => {},
        }
        assert(self.position < count);
        self.position += 1;
        self.phase = WorkerPhase::Idle;
        WorkerStep { messages, action: WorkerAction::Continue }
    }

    /// Takes the result of the deletion of a source: one message says that
    /// the source is gone, or why it is still there, and the worker goes on
    /// to the next job.
    pub fn delete_finished(&mut self, failure: Option<String>) -> (step: WorkerStep)
        requires
            old(self).wf(),
            old(self).phase == WorkerPhase::Deleting,
        ensures
            final(self).wf(),
            final(self).same_list(old(self)),
            final(self).phase == WorkerPhase::Idle,
            final(self).position == old(self).position + 1,
            step.action == WorkerAction::Continue,
            step.messages@.len() == 1,
            step.messages@[0].about_source(),
            ({
                let job = old(self).jobs@[old(self).position as int];
                match failure {
                    None => step.messages@[0] == WorkerMessage::SourceDeleted(job.index),
                    Some(why) => {
                        &&& step.messages@[0] matches WorkerMessage::SourceDeleteFailed(index, text)
                        &&& index == job.index
                        &&& text@ == "Failed to delete source: "@ + why@
                    },
                }
            }),
    {
        let count = self.jobs.len();
        let index = self.jobs[self.position].index;
        let mut messages: Vec<WorkerMessage> = Vec::new();
        match failure {
            None => {
                messages.push(WorkerMessage::SourceDeleted(index));
            },
            Some(why) => {
                messages.push(
                    WorkerMessage::SourceDeleteFailed(
                        index,
                        concat("Failed to delete source: ", why.as_str()),
                    ),
                );
            },
        }
        assert(self.position < count);
        self.position += 1;
        self.phase = WorkerPhase::Idle;
        WorkerStep { messages, action: WorkerAction::Continue }
    }
}

} // verus!
