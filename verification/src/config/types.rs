use vstd::prelude::*;

verus! {

/// Quality configuration. Scores are in hundredths: 9 000 is a score of 90.
#[derive(Debug, Clone, Copy, PartialEq, Eq, Structural)]
pub struct QualityConfig {
    /// Quality threshold below which an encode gets a warning (0 to 10 000)
    pub vmaf_threshold: u32,
    /// Whether to measure the quality after encoding
    pub vmaf_enabled: bool,
}

impl Default for QualityConfig {
    fn default() -> (quality: Self)
        ensures
            quality == (QualityConfig { vmaf_threshold: 9_000, vmaf_enabled: true }),
    {
        QualityConfig { vmaf_threshold: 9_000, vmaf_enabled: true }
    }
}

/// Performance configuration
#[derive(Debug, Clone)]
pub struct PerformanceConfig {
    /// SVT-AV1 preset (0-13, lower = slower/better)
    pub svt_preset: u8,
    /// NVENC preset name
    pub nvenc_preset: String,
}

impl Default for PerformanceConfig {
    fn default() -> (performance: Self)
        ensures
            performance.svt_preset == 4,
            performance.nvenc_preset@ == "p7"@,
    {
        PerformanceConfig { svt_preset: 4, nvenc_preset: "p7".to_string() }
    }
}

/// Encoding preset for a specific resolution tier
#[derive(Debug, Clone, Copy, PartialEq, Eq, Structural)]
pub struct EncodingPreset {
    /// CRF value for software encoding
    pub crf: u8,
    /// Film grain synthesis level (0-50)
    pub film_grain: u8,
    /// CQ value for NVENC
    pub nvenc_cq: u8,
    /// Quality value for QSV
    pub qsv_quality: u8,
    /// Quality value for AMF
    pub amf_quality: u8,
}

/// Encoding presets per resolution tier
#[derive(Debug, Clone, Copy, PartialEq, Eq, Structural)]
pub struct EncodingPresetsConfig {
    pub sd: EncodingPreset,
    pub hd: EncodingPreset,
    pub full_hd: EncodingPreset,
    pub full_hd_hdr: EncodingPreset,
    pub full_hd_dv: EncodingPreset,
    pub uhd: EncodingPreset,
    pub uhd_hdr: EncodingPreset,
    pub uhd_dv: EncodingPreset,
}

/// The preset for Dolby Vision at Full HD where a configuration names none.
pub fn default_full_hd_dv() -> (preset: EncodingPreset)
    ensures
        preset == (EncodingPreset {
            crf: 20,
            film_grain: 3,
            nvenc_cq: 21,
            qsv_quality: 20,
            amf_quality: 21,
        }),
{
    EncodingPreset { crf: 20, film_grain: 3, nvenc_cq: 21, qsv_quality: 20, amf_quality: 21 }
}

/// The preset for Dolby Vision at UHD where a configuration names none.
pub fn default_uhd_dv() -> (preset: EncodingPreset)
    ensures
        preset == (EncodingPreset {
            crf: 20,
            film_grain: 4,
            nvenc_cq: 20,
            qsv_quality: 20,
            amf_quality: 20,
        }),
{
    EncodingPreset { crf: 20, film_grain: 4, nvenc_cq: 20, qsv_quality: 20, amf_quality: 20 }
}

/// The presets that a fresh configuration holds.
pub open spec fn standard_presets() -> EncodingPresetsConfig {
    EncodingPresetsConfig {
        sd: EncodingPreset { crf: 24, film_grain: 0, nvenc_cq: 26, qsv_quality: 24, amf_quality: 26 },
        hd: EncodingPreset { crf: 23, film_grain: 0, nvenc_cq: 25, qsv_quality: 23, amf_quality: 25 },
        full_hd: EncodingPreset {
            crf: 22,
            film_grain: 0,
            nvenc_cq: 24,
            qsv_quality: 22,
            amf_quality: 24,
        },
        full_hd_hdr: EncodingPreset {
            crf: 23,
            film_grain: 3,
            nvenc_cq: 23,
            qsv_quality: 23,
            amf_quality: 23,
        },
        full_hd_dv: EncodingPreset {
            crf: 20,
            film_grain: 3,
            nvenc_cq: 21,
            qsv_quality: 20,
            amf_quality: 21,
        },
        uhd: EncodingPreset {
            crf: 23,
            film_grain: 4,
            nvenc_cq: 25,
            qsv_quality: 24,
            amf_quality: 25,
        },
        uhd_hdr: EncodingPreset {
            crf: 22,
            film_grain: 4,
            nvenc_cq: 22,
            qsv_quality: 22,
            amf_quality: 22,
        },
        uhd_dv: EncodingPreset {
            crf: 20,
            film_grain: 4,
            nvenc_cq: 20,
            qsv_quality: 20,
            amf_quality: 20,
        },
    }
}

impl Default for EncodingPresetsConfig {
    fn default() -> (presets: Self)
        ensures
            presets == standard_presets(),
    {
        EncodingPresetsConfig {
            sd: EncodingPreset {
                crf: 24,
                film_grain: 0,
                nvenc_cq: 26,
                qsv_quality: 24,
                amf_quality: 26,
            },
            hd: EncodingPreset {
                crf: 23,
                film_grain: 0,
                nvenc_cq: 25,
                qsv_quality: 23,
                amf_quality: 25,
            },
            full_hd: EncodingPreset {
                crf: 22,
                film_grain: 0,
                nvenc_cq: 24,
                qsv_quality: 22,
                amf_quality: 24,
            },
            full_hd_hdr: EncodingPreset {
                crf: 23,
                film_grain: 3,
                nvenc_cq: 23,
                qsv_quality: 23,
                amf_quality: 23,
            },
            full_hd_dv: default_full_hd_dv(),
            uhd: EncodingPreset {
                crf: 23,
                film_grain: 4,
                nvenc_cq: 25,
                qsv_quality: 24,
                amf_quality: 25,
            },
            uhd_hdr: EncodingPreset {
                crf: 22,
                film_grain: 4,
                nvenc_cq: 22,
                qsv_quality: 22,
                amf_quality: 22,
            },
            uhd_dv: default_uhd_dv(),
        }
    }
}

/// Output configuration
#[derive(Debug, Clone)]
pub struct OutputConfig {
    /// Output file suffix
    pub suffix: String,
    /// Output container format
    pub container: String,
    /// Whether to place output in same directory as source
    pub same_directory: bool,
    /// Custom output directory (if same_directory is false)
    pub output_directory: Option<String>,
}

impl Default for OutputConfig {
    fn default() -> (output: Self)
        ensures
            output.suffix@ == "_av1"@,
            output.container@ == "mkv"@,
            output.same_directory,
            output.output_directory.is_none(),
    {
        OutputConfig {
            suffix: "_av1".to_string(),
            container: "mkv".to_string(),
            same_directory: true,
            output_directory: None,
        }
    }
}

/// Track selection preset configuration
#[derive(Debug, Clone)]
pub struct TrackPresetConfig {
    /// Preferred audio languages
    pub preferred_audio_languages: Vec<String>,
    /// Preferred subtitle languages
    pub preferred_subtitle_languages: Vec<String>,
    /// Whether to auto-select all tracks when no preference matches
    pub select_all_fallback: bool,
}

impl Default for TrackPresetConfig {
    fn default() -> (tracks: Self)
        ensures
            tracks.preferred_audio_languages.deep_view() == seq!["eng"@, "ita"@],
            tracks.preferred_subtitle_languages.deep_view() == seq!["eng"@],
            tracks.select_all_fallback,
    {
        let mut audio: Vec<String> = Vec::new();
        audio.push("eng".to_string());
        audio.push("ita".to_string());
        let mut subtitles: Vec<String> = Vec::new();
        subtitles.push("eng".to_string());
        assert(audio.deep_view() =~= seq!["eng"@, "ita"@]);
        assert(subtitles.deep_view() =~= seq!["eng"@]);
        TrackPresetConfig {
            preferred_audio_languages: audio,
            preferred_subtitle_languages: subtitles,
            select_all_fallback: true,
        }
    }
}

} // verus!
