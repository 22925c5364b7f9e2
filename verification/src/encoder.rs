//! Encoding: the command line of the encoder, the steps of one encode, and
//! the pipeline that takes a job from quality search to its outcome.

pub mod ab_av1;
pub mod command_builder;
pub mod config;
pub mod ffmpeg;
pub mod pipeline;
pub mod profiles;

pub use command_builder::{build_ffmpeg_args, EncodingParams};
pub use ffmpeg::{EncodeMonitor, EncodeResult, EncodeStep, Observation, ProcessState};
pub use pipeline::{FullEncodeResult, Pipeline, PipelineAction, PipelineStage};
pub use profiles::{
    detect_available_encoders, get_dv_to_hdr10_params, get_hdr_params, get_quality_params,
    get_svtav1_params, is_dolby_vision_resolution, select_encoder, AV1Encoder, ContentType,
    EncoderConfig, QualityProfile, DEFAULT_VMAF_THRESHOLD,
};
