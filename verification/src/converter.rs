//! Encoding by profile: the command line for a resolution class, the
//! options of one encode, and what the quality check makes of its result.

use crate::analysis::{AnalysisResult, Resolution};
use crate::encoder::command_builder::{push_track_args, track_args};
use crate::encoder::profiles::{
    dv_to_hdr10_options, get_dv_to_hdr10_params, get_hdr_params, get_quality_params, hdr_options,
    quality_options, suggests_animation, AV1Encoder, ContentType, QualityProfile,
};
use crate::error::AppError;
use crate::text::{concat, decimal, decimal_string, extend_strings, push_str, strings_of};
use crate::tracks::TrackSelection;
use crate::verification::VmafResult;
use vstd::prelude::*;

verus! {

#[derive(Debug, Clone, Copy, PartialEq, Eq, Structural)]
pub enum EncoderProfile {
    HD1080p,
    HD1080pHDR,
    UHD2160p,
    UHD2160pHDR,
}

impl Default for EncoderProfile {
    fn default() -> (profile: Self)
        ensures
            profile == EncoderProfile::HD1080p,
    {
        EncoderProfile::HD1080p
    }
}

impl EncoderProfile {
    /// The profile under which a resolution class is encoded: Dolby Vision
    /// as HDR.
    pub open spec fn of(resolution: Resolution) -> EncoderProfile {
        match resolution {
            Resolution::HD1080p => EncoderProfile::HD1080p,
            Resolution::HD1080pHDR => EncoderProfile::HD1080pHDR,
            Resolution::UHD2160p => EncoderProfile::UHD2160p,
            Resolution::UHD2160pHDR => EncoderProfile::UHD2160pHDR,
            Resolution::HD1080pDV => EncoderProfile::HD1080pHDR,
            Resolution::UHD2160pDV => EncoderProfile::UHD2160pHDR,
        }
    }

    /// The quality profile of the same name.
    pub open spec fn quality(self) -> QualityProfile {
        match self {
            EncoderProfile::HD1080p => QualityProfile::HD1080p,
            EncoderProfile::HD1080pHDR => QualityProfile::HD1080pHDR,
            EncoderProfile::UHD2160p => QualityProfile::UHD2160p,
            EncoderProfile::UHD2160pHDR => QualityProfile::UHD2160pHDR,
        }
    }

    /// The profile for a resolution class.
    pub fn from_resolution(resolution: Resolution) -> (profile: Self)
        ensures
            profile == Self::of(resolution),
    {
        match resolution {
            Resolution::HD1080p => EncoderProfile::HD1080p,
            Resolution::HD1080pHDR => EncoderProfile::HD1080pHDR,
            Resolution::UHD2160p => EncoderProfile::UHD2160p,
            Resolution::UHD2160pHDR => EncoderProfile::UHD2160pHDR,
            Resolution::HD1080pDV => EncoderProfile::HD1080pHDR,
            Resolution::UHD2160pDV => EncoderProfile::UHD2160pHDR,
        }
    }

    /// The quality profile of the same name.
    pub fn quality_profile(&self) -> (profile: QualityProfile)
        ensures
            profile == self.quality(),
    {
        match self {
            EncoderProfile::HD1080p => QualityProfile::HD1080p,
            EncoderProfile::HD1080pHDR => QualityProfile::HD1080pHDR,
            EncoderProfile::UHD2160p => QualityProfile::UHD2160p,
            EncoderProfile::UHD2160pHDR => QualityProfile::UHD2160pHDR,
        }
    }
}

/// Encoding options for quality control
#[derive(Debug, Clone)]
pub struct EncodeOptions {
    /// Run the quality check after encoding
    pub run_vmaf: bool,
    /// Quality threshold, in hundredths
    pub vmaf_threshold: Option<u32>,
    /// Whether an encode below the threshold is acceptable. The encode
    /// stays on disk either way: a low score warns, it discards nothing.
    pub keep_low_quality: bool,
    /// Content type for optimized parameters
    pub content_type: ContentType,
    /// Color transfer from source (for HDR passthrough)
    pub color_transfer: Option<String>,
}

impl Default for EncodeOptions {
    fn default() -> (options: Self)
        ensures
            !options.run_vmaf,
            options.vmaf_threshold.is_none(),
            options.keep_low_quality,
            options.content_type == ContentType::LiveAction,
            options.color_transfer.is_none(),
    {
        EncodeOptions {
            run_vmaf: false,
            vmaf_threshold: None,
            keep_low_quality: true,
            content_type: ContentType::LiveAction,
            color_transfer: None,
        }
    }
}

impl EncodeOptions {
    /// Options from video analysis
    pub fn from_analysis(analysis: &AnalysisResult, filename: &str) -> (options: Self)
        ensures
            !options.run_vmaf,
            options.vmaf_threshold.is_none(),
            options.keep_low_quality,
            options.content_type == (if suggests_animation(filename@) {
                ContentType::Animation
            } else {
                ContentType::LiveAction
            }),
            options.color_transfer.deep_view() == analysis.color_transfer.deep_view(),
    {
        EncodeOptions {
            run_vmaf: false,
            vmaf_threshold: None,
            keep_low_quality: true,
            content_type: ContentType::from_filename(filename),
            color_transfer: match &analysis.color_transfer {
                Some(t) => Some(t.clone()),
                None => None,
            },
        }
    }

    /// Enable the quality check with optional threshold
    pub fn with_vmaf(self, threshold: Option<u32>) -> (options: Self)
        ensures
            options.run_vmaf,
            options.vmaf_threshold == threshold,
            options.keep_low_quality == self.keep_low_quality,
            options.content_type == self.content_type,
            options.color_transfer == self.color_transfer,
    {
        let mut options = self;
        options.run_vmaf = true;
        options.vmaf_threshold = threshold;
        options
    }
}

/// The command line of an encode under a profile, in order: the input, the
/// stream selection, the encoder, ten-bit output, stream copy for audio and
/// subtitles, the quality options, the colour options (those that turn
/// Dolby Vision into HDR10 for Dolby Vision), and the output.
pub open spec fn profile_args(
    profile: QualityProfile,
    input: Seq<char>,
    output: Seq<char>,
    tracks: TrackSelection,
    encoder: AV1Encoder,
    content_type: ContentType,
    color_transfer: Option<Seq<char>>,
    is_dolby_vision: bool,
) -> Seq<Seq<char>> {
    seq!["-y"@, "-nostdin"@, "-i"@, input, "-map"@, "0:v:0"@] + track_args(
        tracks.audio_indices@,
        tracks.subtitle_indices@,
    ) + seq![
        "-c:v"@,
        encoder.codec_name(),
        "-pix_fmt"@,
        "yuv420p10le"@,
        "-c:a"@,
        "copy"@,
        "-c:s"@,
        "copy"@,
    ] + quality_options(encoder, profile, content_type) + (if is_dolby_vision {
        dv_to_hdr10_options()
    } else {
        hdr_options(profile, color_transfer)
    }) + seq![output]
}

/// Builds the command line of an encode under a quality profile.
pub fn build_profile_args(
    profile: QualityProfile,
    input: &str,
    output: &str,
    track_selection: &TrackSelection,
    encoder: AV1Encoder,
    content_type: ContentType,
    color_transfer: &Option<String>,
    is_dolby_vision: bool,
) -> (args: Vec<String>)
    ensures
        args.deep_view() == profile_args(
            profile,
            input@,
            output@,
            *track_selection,
            encoder,
            content_type,
            color_transfer.deep_view(),
            is_dolby_vision,
        ),
{
    let mut args = strings_of(&["-y", "-nostdin", "-i", input, "-map", "0:v:0"]);
    assert(args.deep_view() =~= seq!["-y"@, "-nostdin"@, "-i"@, input@, "-map"@, "0:v:0"@]);
    push_track_args(&mut args, &track_selection.audio_indices, &track_selection.subtitle_indices);
    let fixed = strings_of(
        &[
            "-c:v",
            encoder.ffmpeg_name(),
            "-pix_fmt",
            "yuv420p10le",
            "-c:a",
            "copy",
            "-c:s",
            "copy",
        ],
    );
    assert(fixed.deep_view() =~= seq![
        "-c:v"@,
        encoder.codec_name(),
        "-pix_fmt"@,
        "yuv420p10le"@,
        "-c:a"@,
        "copy"@,
        "-c:s"@,
        "copy"@,
    ]);
    extend_strings(&mut args, fixed);
    extend_strings(&mut args, get_quality_params(encoder, profile, content_type));
    if is_dolby_vision {
        extend_strings(&mut args, get_dv_to_hdr10_params());
    } else {
        let transfer = match color_transfer {
            Some(t) => Some(t.as_str()),
            None => None,
        };
        extend_strings(&mut args, get_hdr_params(profile, transfer));
    }
    push_str(&mut args, output);
    args
}

impl EncoderProfile {
    pub fn build_ffmpeg_args(
        &self,
        input: &str,
        output: &str,
        track_selection: &TrackSelection,
        encoder: AV1Encoder,
        options: &EncodeOptions,
        is_dolby_vision: bool,
    ) -> (args: Vec<String>)
        ensures
            args.deep_view() == profile_args(
                self.quality(),
                input@,
                output@,
                *track_selection,
                encoder,
                options.content_type,
                options.color_transfer.deep_view(),
                is_dolby_vision,
            ),
    {
        build_profile_args(
            self.quality_profile(),
            input,
            output,
            track_selection,
            encoder,
            options.content_type,
            &options.color_transfer,
            is_dolby_vision,
        )
    }
}

/// Result of encoding with optional quality score
#[derive(Debug, Clone)]
pub enum EncodeResult {
    /// Encoding completed successfully
    Success,
    /// Encoding completed with a quality score
    SuccessWithVmaf(VmafResult),
    /// Encoding was cancelled by user
    Cancelled,
    /// Encoding failed with error message
    Error(String),
    /// Encoding succeeded but quality is below threshold
    QualityBelowThreshold { vmaf: VmafResult, threshold: u32 },
}

/// What the quality check makes of an encode: its result, and whether the
/// output is to be removed, which no score ever asks for.
#[derive(Debug, Clone)]
pub struct QualityDecision {
    pub result: EncodeResult,
    pub remove_output: bool,
}

/// The result of the quality check: a plain success where nothing was
/// measured; below the threshold, if there is one, a warning; else a
/// success with the score.
pub open spec fn checked_result(measured: Option<VmafResult>, threshold: Option<u32>) -> EncodeResult {
    match measured {
        None => EncodeResult::Success,
        Some(vmaf) => match threshold {
            Some(t) => if vmaf.score < t {
                EncodeResult::QualityBelowThreshold { vmaf, threshold: t }
            } else {
                EncodeResult::SuccessWithVmaf(vmaf)
            },
            None => EncodeResult::SuccessWithVmaf(vmaf),
        },
    }
}

/// Decides the result of an encode from its measured quality. The output
/// is never to be removed on account of its score: an encode below the
/// threshold is reported and kept, whatever the options say of low quality.
pub fn run_vmaf_check(measured: Option<VmafResult>, options: &EncodeOptions) -> (decision:
    QualityDecision)
    ensures
        decision.result == checked_result(measured, options.vmaf_threshold),
        !decision.remove_output,
{
    match measured {
        Some(vmaf) => {
            match options.vmaf_threshold {
                Some(threshold) => {
                    if !vmaf.meets_threshold(threshold) {
                        return QualityDecision {
                            result: EncodeResult::QualityBelowThreshold { vmaf, threshold },
                            remove_output: false,
                        };
                    }
                },
                None => {},
            }
            QualityDecision { result: EncodeResult::SuccessWithVmaf(vmaf), remove_output: false }
        },
        None => QualityDecision { result: EncodeResult::Success, remove_output: false },
    }
}

/// Converts video to AV1 at a target resolution.
#[derive(Debug, Clone, Copy, PartialEq, Eq, Structural)]
pub struct Converter {
    pub resolution: Resolution,
}

/// The FFprobe command line that prints the properties of the first video
/// stream as JSON.
pub open spec fn probe_args(input_path: Seq<char>) -> Seq<Seq<char>> {
    seq![
        "-v"@,
        "error"@,
        "-select_streams"@,
        "v:0"@,
        "-show_entries"@,
        "stream=width,height,pix_fmt,color_primaries,color_transfer,color_space,side_data_list"@,
        "-of"@,
        "json"@,
        input_path,
    ]
}

/// The FFmpeg command line that measures `encoded` against `reference` and
/// writes the result as JSON to `log_path`.
pub open spec fn evaluate_args(reference: Seq<char>, encoded: Seq<char>, log_path: Seq<char>) -> Seq<
    Seq<char>,
> {
    seq![
        "-i"@,
        reference,
        "-i"@,
        encoded,
        "-lavfi"@,
        "libvmaf=log_path="@ + log_path + ":log_fmt=json"@,
        "-f"@,
        "null"@,
        "-"@,
    ]
}

/// The FFmpeg command line that converts to AV1 and scales to a frame
/// size.
pub open spec fn convert_args(input_path: Seq<char>, output_path: Seq<char>, frame: (u32, u32)) -> Seq<
    Seq<char>,
> {
    seq![
        "-i"@,
        input_path,
        "-c:v"@,
        "libsvtav1"@,
        "-crf"@,
        "30"@,
        "-preset"@,
        "6"@,
        "-vf"@,
        "scale="@ + decimal(frame.0 as nat) + ":"@ + decimal(frame.1 as nat),
        "-c:a"@,
        "copy"@,
        output_path,
    ]
}

/// The name of a resolution as it is written in messages.
pub open spec fn resolution_name(resolution: Resolution) -> Seq<char> {
    match resolution {
        Resolution::HD1080p => "HD1080p"@,
        Resolution::HD1080pHDR => "HD1080pHDR"@,
        Resolution::HD1080pDV => "HD1080pDV"@,
        Resolution::UHD2160p => "UHD2160p"@,
        Resolution::UHD2160pHDR => "UHD2160pHDR"@,
        Resolution::UHD2160pDV => "UHD2160pDV"@,
    }
}

impl Converter {
    pub fn new() -> (converter: Self)
        ensures
            converter.resolution == Resolution::HD1080p,
    {
        Converter { resolution: Resolution::HD1080p }
    }

    /// Set the target resolution for conversion
    pub fn set_resolution(&mut self, resolution: Resolution)
        ensures
            final(self).resolution == resolution,
    {
        self.resolution = resolution;
    }

    /// Get the current resolution
    pub fn get_resolution(&self) -> (resolution: Resolution)
        ensures
            resolution == self.resolution,
    {
        self.resolution
    }

    /// The FFprobe command line that analyzes a video file
    pub fn analyze(&self, input_path: &str) -> (args: Vec<String>)
        ensures
            args.deep_view() == probe_args(input_path@),
    {
        let args = strings_of(
            &[
                "-v",
                "error",
                "-select_streams",
                "v:0",
                "-show_entries",
                "stream=width,height,pix_fmt,color_primaries,color_transfer,color_space,side_data_list",
                "-of",
                "json",
                input_path,
            ],
        );
        assert(args.deep_view() =~= probe_args(input_path@));
        args
    }

    /// The FFmpeg command line that evaluates the quality of an encode by
    /// its VMAF score
    pub fn evaluate(&self, reference: &str, encoded: &str, log_path: &str) -> (args: Vec<String>)
        ensures
            args.deep_view() == evaluate_args(reference@, encoded@, log_path@),
    {
        let mut filter = concat("libvmaf=log_path=", log_path);
        filter.append(":log_fmt=json");
        let args = strings_of(
            &["-i", reference, "-i", encoded, "-lavfi", filter.as_str(), "-f", "null", "-"],
        );
        assert(args.deep_view() =~= evaluate_args(reference@, encoded@, log_path@));
        args
    }

    /// The FFmpeg command line that converts a video to AV1 at the target
    /// resolution. Dolby Vision content is not converted.
    pub fn convert(&self, input_path: &str, output_path: &str) -> (r: Result<Vec<String>, AppError>)
        ensures
            r.is_err() == self.resolution.dolby_vision(),
            r matches Ok(args) ==> args.deep_view() == convert_args(
                input_path@,
                output_path@,
                self.resolution.frame(),
            ),
            r matches Err(error) ==> (error matches AppError::CommandExecution(text) && text@
                == "Dolby Vision content ("@ + resolution_name(self.resolution)
                + ") should not be converted"@),
    {
        if self.resolution.should_skip_conversion() {
            let name = match self.resolution {
                Resolution::HD1080p => "HD1080p",
                Resolution::HD1080pHDR => "HD1080pHDR",
                Resolution::HD1080pDV => "HD1080pDV",
                Resolution::UHD2160p => "UHD2160p",
                Resolution::UHD2160pHDR => "UHD2160pHDR",
                Resolution::UHD2160pDV => "UHD2160pDV",
            };
            let mut text = concat("Dolby Vision content (", name);
            text.append(") should not be converted");
            return Err(AppError::CommandExecution(text));
        }
        let (width, height) = self.resolution.dimensions();
        let mut scale = concat("scale=", decimal_string(width as u64).as_str());
        scale.append(":");
        scale.append(decimal_string(height as u64).as_str());
        let args = strings_of(
            &[
                "-i",
                input_path,
                "-c:v",
                "libsvtav1",
                "-crf",
                "30",
                "-preset",
                "6",
                "-vf",
                scale.as_str(),
                "-c:a",
                "copy",
                output_path,
            ],
        );
        assert(args.deep_view() =~= convert_args(
            input_path@,
            output_path@,
            self.resolution.frame(),
        ));
        Ok(args)
    }

    /// Check if input video needs conversion, given what the analysis of it
    /// returned: a video that could be analyzed always does.
    pub fn needs_conversion(&self, analysis: Result<String, AppError>) -> (r: Result<bool, AppError>)
        ensures
            match analysis {
                Ok(_) => r == Ok::<bool, AppError>(true),
                Err(error) => r == Err::<bool, AppError>(error),
            },
    {
        match analysis {
            Ok(_) => Ok(true),
            Err(error) => Err(error),
        }
    }
}

impl Default for Converter {
    fn default() -> (converter: Self)
        ensures
            converter.resolution == Resolution::HD1080p,
    {
        Self::new()
    }
}

} // verus!
