//! Batch conversion of video files to AV1: the queue of jobs and the worker
//! that takes them through the encoding pipeline, the command lines of the
//! tools that do the work, and the state of the front end.
//!
//! The library decides and computes; it starts no process and touches no
//! file. Where outside work alternates with decisions (the worker, the
//! pipeline, the watch over a running encoder) the library holds the state
//! and says what is to be done next, and its caller does that and reports
//! back.
//!
//! Progress, quality scores and thresholds are whole numbers of
//! hundredths: a progress of 10 000 is 100 %, a score of 9 542 is 95.42.
//! Times are milliseconds and durations of videos are microseconds.

pub mod analysis;
pub mod analyzer;
pub mod app;
pub mod config;
pub mod converter;
pub mod data;
pub mod encoder;
pub mod error;
pub mod paths;
pub mod queue;
pub mod scan;
pub mod text;
pub mod tracks;
pub mod utils;
pub mod verification;
