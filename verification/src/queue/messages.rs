use vstd::prelude::*;

verus! {

/// Messages sent from the worker to the owner of the queue.
///
/// Progress, scores and thresholds are in hundredths.
#[derive(Debug, Clone)]
pub enum WorkerMessage {
    /// Progress update for a file
    Progress(usize, u32),
    /// Encoding completed successfully
    Done(usize),
    /// Encoding completed with a quality score
    DoneWithVmaf(usize, u32),
    /// Error occurred
    Error(usize, String),
    /// Quality below threshold: the score, then the threshold
    QualityWarning(usize, u32, u32),
    /// Encoding was cancelled
    Cancelled,
    /// Source file was deleted after successful encoding
    SourceDeleted(usize),
    /// Source file was kept because its score was below the deletion
    /// threshold
    SourceKeptLowVmaf(usize, u32),
    /// Source file was to be deleted and is still there: the reason
    SourceDeleteFailed(usize, String),
}

impl WorkerMessage {
    /// The message ends a job: it reports the one outcome of its pipeline.
    pub open spec fn terminal(&self) -> bool {
        *self is Done || *self is DoneWithVmaf || *self is Error || *self is QualityWarning
            || *self is Cancelled
    }

    /// The message says what became of the source after the encode.
    pub open spec fn about_source(&self) -> bool {
        *self is SourceDeleted || *self is SourceKeptLowVmaf || *self is SourceDeleteFailed
    }

    /// The job that the message is about; `Cancelled` names none.
    pub open spec fn job(&self) -> Option<usize> {
        match *self {
            WorkerMessage::Progress(i, _) => Some(i),
            WorkerMessage::Done(i) => Some(i),
            WorkerMessage::DoneWithVmaf(i, _) => Some(i),
            WorkerMessage::Error(i, _) => Some(i),
            WorkerMessage::QualityWarning(i, _, _) => Some(i),
            WorkerMessage::Cancelled => None,
            WorkerMessage::SourceDeleted(i) => Some(i),
            WorkerMessage::SourceKeptLowVmaf(i, _) => Some(i),
            WorkerMessage::SourceDeleteFailed(i, _) => Some(i),
        }
    }

    /// Tells whether the message ends a job.
    #[verifier::when_used_as_spec(terminal)]
    pub fn is_terminal(&self) -> (yes: bool)
        ensures
            yes == self.terminal(),
    {
        match self {
            WorkerMessage::Done(_) => true,
            WorkerMessage::DoneWithVmaf(_, _) => true,
            WorkerMessage::Error(_, _) => true,
            WorkerMessage::QualityWarning(_, _, _) => true,
            WorkerMessage::Cancelled => true,
            _ => false,
        }
    }
}

} // verus!
