//! The settings of the application: the encoder, the quality thresholds,
//! the presets per resolution class, and where the output goes.

pub mod encoder_detect;
pub mod types;

pub use encoder_detect::{detect_encoder, Encoder, HardwareReport};
pub use types::{
    EncodingPreset, EncodingPresetsConfig, OutputConfig, PerformanceConfig, QualityConfig,
    TrackPresetConfig,
};

use crate::analysis::AnalysisResult;
use crate::analyzer::ResolutionTier;
use crate::converter::{build_profile_args, profile_args};
use crate::encoder::profiles::{AV1Encoder, ContentType, QualityProfile};
use crate::error::AppError;
use crate::text::str_eq;
use crate::tracks::TrackSelection;
use vstd::prelude::*;

verus! {

/// Main application configuration
#[derive(Debug, Clone)]
pub struct AppConfig {
    /// Selected encoder
    pub encoder: Encoder,
    /// Quality settings
    pub quality: QualityConfig,
    /// Performance settings
    pub performance: PerformanceConfig,
    /// Encoding presets per resolution tier
    pub presets: EncodingPresetsConfig,
    /// Output settings
    pub output: OutputConfig,
    /// Track selection presets
    pub tracks: TrackPresetConfig,
}

/// The preset that applies to a resolution tier: SD and HD have one each;
/// Full HD and UHD have one for SDR and one for HDR; what is above UHD is
/// treated as UHD.
pub open spec fn preset_of(
    presets: EncodingPresetsConfig,
    tier: ResolutionTier,
    is_hdr: bool,
) -> EncodingPreset {
    match tier {
        ResolutionTier::SD => presets.sd,
        ResolutionTier::HD => presets.hd,
        ResolutionTier::FullHD => if is_hdr {
            presets.full_hd_hdr
        } else {
            presets.full_hd
        },
        _ => if is_hdr {
            presets.uhd_hdr
        } else {
            presets.uhd
        },
    }
}

/// The number of settings that the configuration screen lists.
pub const CONFIG_ITEM_COUNT: usize = 10;

/// The encoder that follows `encoder` in the order in which the
/// configuration screen offers them: software, NVIDIA, Intel, AMD, and
/// round again; or the one before it.
pub open spec fn neighbour_encoder(encoder: Encoder, forward: bool) -> Encoder {
    match encoder {
        Encoder::SvtAv1 => if forward {
            Encoder::Nvenc
        } else {
            Encoder::Amf
        },
        Encoder::Nvenc => if forward {
            Encoder::Qsv
        } else {
            Encoder::SvtAv1
        },
        Encoder::Qsv => if forward {
            Encoder::Amf
        } else {
            Encoder::Nvenc
        },
        Encoder::Amf => if forward {
            Encoder::SvtAv1
        } else {
            Encoder::Qsv
        },
    }
}

/// The place of an NVENC preset among `p1` to `p7`, counted from zero; a
/// name that is none of them counts as the last.
pub open spec fn nvenc_preset_place(name: Seq<char>) -> int {
    if name == "p1"@ {
        0
    } else if name == "p2"@ {
        1
    } else if name == "p3"@ {
        2
    } else if name == "p4"@ {
        3
    } else if name == "p5"@ {
        4
    } else if name == "p6"@ {
        5
    } else {
        6
    }
}

/// The NVENC preset at a place.
pub open spec fn nvenc_preset_at(place: int) -> Seq<char> {
    if place == 0 {
        "p1"@
    } else if place == 1 {
        "p2"@
    } else if place == 2 {
        "p3"@
    } else if place == 3 {
        "p4"@
    } else if place == 4 {
        "p5"@
    } else if place == 5 {
        "p6"@
    } else {
        "p7"@
    }
}

/// The NVENC preset that follows `name` among `p1` to `p7`, round again
/// after the last; or the one before it.
pub open spec fn neighbour_nvenc_preset(name: Seq<char>, forward: bool) -> Seq<char> {
    let place = nvenc_preset_place(name);
    nvenc_preset_at(
        if forward {
            (place + 1) % 7
        } else {
            (place + 6) % 7
        },
    )
}

/// A value one step up or down, kept between zero and `max`.
pub open spec fn stepped(value: int, forward: bool, step: int, max: int) -> int {
    let moved = if forward {
        value + step
    } else {
        value - step
    };
    if moved < 0 {
        0
    } else if moved > max {
        max
    } else {
        moved
    }
}

impl AppConfig {
    /// What a step on setting `index` of the configuration screen makes of
    /// the configuration: the encoder and the NVENC preset go round their
    /// lists, the threshold moves by one point between 0 and 100, the
    /// SVT-AV1 preset by one between 0 and 13, and the two switches flip.
    /// The other settings are texts and do not move.
    pub open spec fn adjusted(&self, index: usize, increase: bool, after: &AppConfig) -> bool {
        &&& after.encoder == (if index == 0 {
            neighbour_encoder(self.encoder, increase)
        } else {
            self.encoder
        })
        &&& after.quality.vmaf_threshold == (if index == 1 {
            stepped(self.quality.vmaf_threshold as int, increase, 100, 10_000) as u32
        } else {
            self.quality.vmaf_threshold
        })
        &&& after.quality.vmaf_enabled == (if index == 2 {
            !self.quality.vmaf_enabled
        } else {
            self.quality.vmaf_enabled
        })
        &&& after.performance.svt_preset == (if index == 3 {
            stepped(self.performance.svt_preset as int, increase, 1, 13) as u8
        } else {
            self.performance.svt_preset
        })
        &&& after.performance.nvenc_preset@ == (if index == 4 {
            neighbour_nvenc_preset(self.performance.nvenc_preset@, increase)
        } else {
            self.performance.nvenc_preset@
        })
        &&& after.output.same_directory == (if index == 7 {
            !self.output.same_directory
        } else {
            self.output.same_directory
        })
        &&& after.presets == self.presets
        &&& after.output.suffix == self.output.suffix
        &&& after.output.container == self.output.container
        &&& after.output.output_directory == self.output.output_directory
        &&& after.tracks == self.tracks
    }

    /// Moves setting `index` of the configuration screen one step up or
    /// down.
    pub fn adjust_value(&mut self, index: usize, increase: bool)
        ensures
            old(self).adjusted(index, increase, final(self)),
    {
        if index == 0 {
            self.encoder = match self.encoder {
                Encoder::SvtAv1 => if increase {
                    Encoder::Nvenc
                } else {
                    Encoder::Amf
                },
                Encoder::Nvenc => if increase {
                    Encoder::Qsv
                } else {
                    Encoder::SvtAv1
                },
                Encoder::Qsv => if increase {
                    Encoder::Amf
                } else {
                    Encoder::Nvenc
                },
                Encoder::Amf => if increase {
                    Encoder::SvtAv1
                } else {
                    Encoder::Qsv
                },
            };
        } else if index == 1 {
            let threshold = self.quality.vmaf_threshold;
            self.quality.vmaf_threshold = if increase {
                if threshold >= 9_900 {
                    10_000
                } else {
                    threshold + 100
                }
            } else {
                if threshold < 100 {
                    0
                } else if threshold - 100 > 10_000 {
                    10_000
                } else {
                    threshold - 100
                }
            };
        } else if index == 2 {
            self.quality.vmaf_enabled = !self.quality.vmaf_enabled;
        } else if index == 3 {
            let preset = self.performance.svt_preset;
            self.performance.svt_preset = if increase {
                if preset >= 13 {
                    13
                } else {
                    preset + 1
                }
            } else {
                if preset == 0 {
                    0
                } else if preset - 1 > 13 {
                    13
                } else {
                    preset - 1
                }
            };
        } else if index == 4 {
            let name = self.performance.nvenc_preset.as_str();
            let place: usize = if str_eq(name, "p1") {
                0
            } else if str_eq(name, "p2") {
                1
            } else if str_eq(name, "p3") {
                2
            } else if str_eq(name, "p4") {
                3
            } else if str_eq(name, "p5") {
                4
            } else if str_eq(name, "p6") {
                5
            } else {
                6
            };
            let next = if increase {
                (place + 1) % 7
            } else {
                (place + 6) % 7
            };
            let chosen = if next == 0 {
                "p1"
            } else if next == 1 {
                "p2"
            } else if next == 2 {
                "p3"
            } else if next == 3 {
                "p4"
            } else if next == 4 {
                "p5"
            } else if next == 5 {
                "p6"
            } else {
                "p7"
            };
            self.performance.nvenc_preset = chosen.to_string();
        } else if index == 7 {
            self.output.same_directory = !self.output.same_directory;
        }
    }

    /// The settings are in range: a threshold of at most 100, an SVT-AV1
    /// preset of at most 13.
    pub open spec fn in_range(&self) -> bool {
        self.quality.vmaf_threshold <= 10_000 && self.performance.svt_preset <= 13
    }

    /// The standard configuration for an encoder.
    pub fn new(encoder: Encoder) -> (config: Self)
        ensures
            config.encoder == encoder,
            config.quality == (QualityConfig { vmaf_threshold: 9_000, vmaf_enabled: true }),
            config.performance.svt_preset == 4,
            config.performance.nvenc_preset@ == "p7"@,
            config.presets == types::standard_presets(),
            config.output.suffix@ == "_av1"@,
            config.output.container@ == "mkv"@,
            config.output.same_directory,
            config.output.output_directory.is_none(),
            config.tracks.preferred_audio_languages.deep_view() == seq!["eng"@, "ita"@],
            config.tracks.preferred_subtitle_languages.deep_view() == seq!["eng"@],
            config.tracks.select_all_fallback,
            config.in_range(),
    {
        AppConfig {
            encoder,
            quality: QualityConfig::default(),
            performance: PerformanceConfig::default(),
            presets: EncodingPresetsConfig::default(),
            output: OutputConfig::default(),
            tracks: TrackPresetConfig::default(),
        }
    }

    /// Validate configuration values
    pub fn validate(&self) -> (r: Result<(), AppError>)
        ensures
            r.is_ok() == self.in_range(),
            self.quality.vmaf_threshold > 10_000 ==> (r matches Err(AppError::Config(text))
                && text@ == "VMAF threshold must be between 0 and 100"@),
            self.quality.vmaf_threshold <= 10_000 && self.performance.svt_preset > 13 ==> (
            r matches Err(AppError::Config(text)) && text@
                == "SVT-AV1 preset must be between 0 and 13"@),
    {
        if self.quality.vmaf_threshold > 10_000 {
            return Err(AppError::Config("VMAF threshold must be between 0 and 100".to_string()));
        }
        if self.performance.svt_preset > 13 {
            return Err(AppError::Config("SVT-AV1 preset must be between 0 and 13".to_string()));
        }
        Ok(())
    }

    /// Get the encoding preset for a given resolution tier and HDR status
    pub fn preset_for(&self, tier: &ResolutionTier, is_hdr: bool) -> (preset: &EncodingPreset)
        ensures
            *preset == preset_of(self.presets, *tier, is_hdr),
    {
        match tier {
            ResolutionTier::SD => &self.presets.sd,
            ResolutionTier::HD => &self.presets.hd,
            ResolutionTier::FullHD => if is_hdr {
                &self.presets.full_hd_hdr
            } else {
                &self.presets.full_hd
            },
            _ => if is_hdr {
                &self.presets.uhd_hdr
            } else {
                &self.presets.uhd
            },
        }
    }
}

/// Encoding options for quality control
#[derive(Debug, Clone)]
pub struct EncoderOptions {
    /// Quality threshold, in hundredths
    pub vmaf: Option<u32>,
    /// Color transfer from source (for HDR passthrough)
    pub color_transfer: Option<String>,
}

impl Default for EncoderOptions {
    fn default() -> (options: Self)
        ensures
            options.vmaf.is_none(),
            options.color_transfer.is_none(),
    {
        EncoderOptions { vmaf: None, color_transfer: None }
    }
}

impl EncoderOptions {
    /// Options from video analysis and from the threshold that the settings
    /// hold; a score of 90 where they hold none.
    pub fn from_analysis(analysis: &AnalysisResult, configured_vmaf: Option<u32>) -> (options: Self)
        ensures
            options.vmaf == Some(
                match configured_vmaf {
                    Some(v) => v,
                    None => 9_000u32,
                },
            ),
            options.color_transfer.deep_view() == analysis.color_transfer.deep_view(),
    {
        EncoderOptions {
            vmaf: Some(
                match configured_vmaf {
                    Some(v) => v,
                    None => 9_000,
                },
            ),
            color_transfer: match &analysis.color_transfer {
                Some(t) => Some(t.clone()),
                None => None,
            },
        }
    }

    /// The command line of an encode of live action under the standard
    /// profile.
    pub fn ffmpeg_args(
        &self,
        input: &str,
        output: &str,
        track_selection: &TrackSelection,
        encoder: AV1Encoder,
        is_dolby_vision: bool,
    ) -> (args: Vec<String>)
        ensures
            args.deep_view() == profile_args(
                QualityProfile::HD1080p,
                input@,
                output@,
                *track_selection,
                encoder,
                ContentType::LiveAction,
                self.color_transfer.deep_view(),
                is_dolby_vision,
            ),
    {
        build_profile_args(
            QualityProfile::HD1080p,
            input,
            output,
            track_selection,
            encoder,
            ContentType::LiveAction,
            &self.color_transfer,
            is_dolby_vision,
        )
    }
}

} // verus!
