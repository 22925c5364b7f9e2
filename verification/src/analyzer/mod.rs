//! What is known about a video before it is encoded: its dimensions, its
//! dynamic range, and the resolution class that selects a preset.

pub mod classifier;
pub mod ffprobe;
pub mod metadata;

pub use classifier::{is_av1_codec, ResolutionTier};
pub use ffprobe::{analyze, AnalysisResult};
pub use metadata::{HdrType, VideoMetadata};
