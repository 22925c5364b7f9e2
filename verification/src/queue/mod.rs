//! The queue of encoding jobs: the life of one job, the totals and progress
//! of a run, and the worker that takes the jobs through the pipeline one
//! after the other.

pub mod job;
pub mod messages;
pub mod session;
pub mod state;
pub mod updates;
pub mod worker;

pub use job::{is_video_file, EncodingJob, JobStatus};
pub use messages::WorkerMessage;
pub use state::QueueState;
pub use worker::{Worker, WorkerAction, WorkerJob, WorkerPhase, WorkerStep};
