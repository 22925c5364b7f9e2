//! Small services: which tools are installed, how much room a disk has,
//! and how durations and sizes are shown.

pub mod deps;
pub mod disk_space;
pub mod humanize;

pub use deps::DependencyStatus;
pub use humanize::{format_duration, format_file_size, format_hundredths};
