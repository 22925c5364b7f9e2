use crate::analyzer::VideoMetadata;
use crate::config::{AppConfig, Encoder};
use crate::encoder::ab_av1::CrfSearchResult;
use crate::encoder::command_builder::EncodingParams;
use crate::encoder::ffmpeg::EncodeResult;
use crate::tracks::TrackSelection;
use crate::verification::VmafResult;
use vstd::prelude::*;

verus! {

/// Full encoding result including the quality score
#[derive(Debug, Clone)]
pub enum FullEncodeResult {
    /// Encoding completed successfully
    Success,
    /// Encoding completed with a quality score
    SuccessWithVmaf(VmafResult),
    /// Encoding was cancelled
    Cancelled,
    /// Encoding failed
    Error(String),
    /// Quality below threshold; the encode is kept
    QualityWarning { vmaf: VmafResult, threshold: u32 },
}

/// Where the pipeline of one job stands.
#[derive(Debug, Clone, Copy, PartialEq, Eq, Structural)]
pub enum PipelineStage {
    /// Nothing has been asked for yet
    Start,
    /// The quality search runs
    Searching,
    /// The encoder runs
    Encoding,
    /// The quality of the encode is measured
    Verifying,
    /// The outcome has been given
    Finished,
}

/// What the pipeline asks for next.
#[derive(Debug, Clone)]
pub enum PipelineAction {
    /// Search the rate-control value that is predicted to reach `min_vmaf`
    SearchQuality { input: String, encoder: Encoder, min_vmaf: u32 },
    /// Run the encoder
    Encode { params: EncodingParams },
    /// Measure the quality of `output` against `input`
    Verify { input: String, output: String },
    /// The pipeline has ended with this outcome
    Finish { result: FullEncodeResult },
}

/// The pipeline of one job: what it works on, under which configuration,
/// and where it stands.
#[derive(Debug, Clone)]
pub struct Pipeline {
    pub input: String,
    pub output: String,
    pub metadata: VideoMetadata,
    pub tracks: TrackSelection,
    pub config: AppConfig,
    pub stage: PipelineStage,
    /// The rate-control value that the quality search found
    pub crf: Option<u8>,
}

/// The outcome that a measured quality leads to: a plain success where
/// nothing was measured, a warning where the score is below the threshold,
/// else a success with the score.
pub open spec fn verdict(measured: Option<VmafResult>, threshold: u32) -> FullEncodeResult {
    match measured {
        None => FullEncodeResult::Success,
        Some(vmaf) => if vmaf.score < threshold {
            FullEncodeResult::QualityWarning { vmaf, threshold }
        } else {
            FullEncodeResult::SuccessWithVmaf(vmaf)
        },
    }
}

/// A score below the threshold warns and does no more: the outcome is a
/// quality warning with the score and the threshold, where a score at or
/// above the threshold is a success with the score. Neither outcome is an
/// error or a cancellation, so the encode counts as converted either way.
pub proof fn lemma_low_score_warns(vmaf: VmafResult, threshold: u32)
    ensures
        vmaf.score < threshold ==> verdict(Some(vmaf), threshold) == (
        FullEncodeResult::QualityWarning { vmaf, threshold }),
        vmaf.score >= threshold ==> verdict(Some(vmaf), threshold)
            == FullEncodeResult::SuccessWithVmaf(vmaf),
        !(verdict(Some(vmaf), threshold) is Error),
        !(verdict(Some(vmaf), threshold) is Cancelled),
{
}

/// Decides the outcome of an encode whose quality was measured, or could
/// not be measured.
pub fn quality_verdict(measured: Option<VmafResult>, threshold: u32) -> (result: FullEncodeResult)
    ensures
        result == verdict(measured, threshold),
{
    match measured {
        None => FullEncodeResult::Success,
        Some(vmaf) => if !vmaf.meets_threshold(threshold) {
            FullEncodeResult::QualityWarning { vmaf, threshold }
        } else {
            FullEncodeResult::SuccessWithVmaf(vmaf)
        },
    }
}

impl Pipeline {
    /// Everything but the stage and the found rate-control value is the
    /// same in both.
    pub open spec fn same_job(&self, other: &Pipeline) -> bool {
        &&& self.input == other.input
        &&& self.output == other.output
        &&& self.metadata == other.metadata
        &&& self.tracks == other.tracks
        &&& self.config == other.config
    }

    /// The action is the encode of this job with the rate-control value
    /// `crf`, or with that of the preset where there is none.
    pub open spec fn asks_encode(&self, action: PipelineAction, crf: Option<u8>) -> bool {
        action matches PipelineAction::Encode { params } && params.built_from(
            self.input@,
            self.output@,
            self.metadata,
            self.config,
            self.tracks,
            crf,
        )
    }

    /// A pipeline for the encode of `input` to `output`.
    pub fn new(
        input: String,
        output: String,
        metadata: VideoMetadata,
        tracks: TrackSelection,
        config: AppConfig,
    ) -> (pipeline: Self)
        ensures
            pipeline.input == input,
            pipeline.output == output,
            pipeline.metadata == metadata,
            pipeline.tracks == tracks,
            pipeline.config == config,
            pipeline.stage == PipelineStage::Start,
            pipeline.crf.is_none(),
    {
        Pipeline { input, output, metadata, tracks, config, stage: PipelineStage::Start, crf: None }
    }

    fn encode_action(&self, crf: Option<u8>) -> (action: PipelineAction)
        ensures
            self.asks_encode(action, crf),
    {
        PipelineAction::Encode {
            params: EncodingParams::from_metadata(
                self.input.as_str(),
                self.output.as_str(),
                &self.metadata,
                &self.config,
                self.tracks.duplicate(),
                crf,
            ),
        }
    }

    /// Starts the pipeline: with the quality search where its tool is
    /// there, else with the encode under the preset.
    pub fn start(&mut self, search_available: bool) -> (action: PipelineAction)
        requires
            old(self).stage == PipelineStage::Start,
        ensures
            final(self).same_job(old(self)),
            final(self).crf == old(self).crf,
            search_available ==> final(self).stage == PipelineStage::Searching && (
            action matches PipelineAction::SearchQuality { input, encoder, min_vmaf } && input@
                == old(self).input@ && encoder == old(self).config.encoder && min_vmaf == old(
                self,
            ).config.quality.vmaf_threshold),
            !search_available ==> final(self).stage == PipelineStage::Encoding && old(
                self,
            ).asks_encode(action, None),
    {
        if search_available {
            self.stage = PipelineStage::Searching;
            PipelineAction::SearchQuality {
                input: self.input.clone(),
                encoder: self.config.encoder,
                min_vmaf: self.config.quality.vmaf_threshold,
            }
        } else {
            self.stage = PipelineStage::Encoding;
            self.encode_action(None)
        }
    }

    /// Takes the result of the quality search and asks for the encode. A
    /// search that found nothing, for whatever reason, does not end the
    /// job: the encode runs under the preset.
    pub fn search_finished(&mut self, found: Option<CrfSearchResult>) -> (action: PipelineAction)
        requires
            old(self).stage == PipelineStage::Searching,
        ensures
            final(self).same_job(old(self)),
            final(self).stage == PipelineStage::Encoding,
            final(self).crf == (match found {
                Some(result) => Some(result.crf),
                None => None,
            }),
            old(self).asks_encode(action, final(self).crf),
    {
        self.crf = match found {
            Some(result) => Some(result.crf),
            None => None,
        };
        self.stage = PipelineStage::Encoding;
        self.encode_action(self.crf)
    }

    /// Takes the result of the encode: a success goes on to the quality
    /// check where that is enabled and is the outcome where it is not; a
    /// cancellation and a failure are the outcome.
    pub fn encode_finished(&mut self, result: EncodeResult) -> (action: PipelineAction)
        requires
            old(self).stage == PipelineStage::Encoding,
        ensures
            final(self).same_job(old(self)),
            final(self).crf == old(self).crf,
            match result {
                EncodeResult::Success => if old(self).config.quality.vmaf_enabled {
                    &&& final(self).stage == PipelineStage::Verifying
                    &&& action matches PipelineAction::Verify { input, output }
                    &&& input@ == old(self).input@
                    &&& output@ == old(self).output@
                } else {
                    &&& final(self).stage == PipelineStage::Finished
                    &&& action matches PipelineAction::Finish { result: outcome }
                    &&& outcome is Success
                },
                EncodeResult::Cancelled => {
                    &&& final(self).stage == PipelineStage::Finished
                    &&& action matches PipelineAction::Finish { result: outcome }
                    &&& outcome is Cancelled
                },
                EncodeResult::Error(why) => {
                    &&& final(self).stage == PipelineStage::Finished
                    &&& action matches PipelineAction::Finish { result: outcome }
                    &&& outcome matches FullEncodeResult::Error(text)
                    &&& text@ == why@
                },
            },
    {
        match result {
            EncodeResult::Success => {
                if self.config.quality.vmaf_enabled {
                    self.stage = PipelineStage::Verifying;
                    PipelineAction::Verify {
                        input: self.input.clone(),
                        output: self.output.clone(),
                    }
                } else {
                    self.stage = PipelineStage::Finished;
                    PipelineAction::Finish { result: FullEncodeResult::Success }
                }
            },
            EncodeResult::Cancelled => {
                self.stage = PipelineStage::Finished;
                PipelineAction::Finish { result: FullEncodeResult::Cancelled }
            },
            EncodeResult::Error(why) => {
                self.stage = PipelineStage::Finished;
                PipelineAction::Finish { result: FullEncodeResult::Error(why) }
            },
        }
    }

    /// Takes the result of the quality check and gives the outcome. A check
    /// that measured nothing does not fail the job: the encode counts as a
    /// success without a score.
    pub fn verify_finished(&mut self, measured: Option<VmafResult>) -> (result: FullEncodeResult)
        requires
            old(self).stage == PipelineStage::Verifying,
        ensures
            final(self).same_job(old(self)),
            final(self).crf == old(self).crf,
            final(self).stage == PipelineStage::Finished,
            result == verdict(measured, old(self).config.quality.vmaf_threshold),
    {
        self.stage = PipelineStage::Finished;
        quality_verdict(measured, self.config.quality.vmaf_threshold)
    }
}

} // verus!
