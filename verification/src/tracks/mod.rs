//! Audio and subtitle tracks of a file, and the choice of which to keep.

pub mod presets;
pub mod selection;

pub use selection::TrackSelection;

use crate::text::{
    concat, decimal, decimal_string, one_decimal, one_decimal_string, to_uppercase, uppercase_of,
};
use vstd::prelude::*;

verus! {

/// Audio track information
#[derive(Debug, Clone)]
pub struct AudioTrack {
    pub index: usize,
    pub language: Option<String>,
    pub codec: String,
    pub channels: u16,
    pub title: Option<String>,
    pub bitrate: Option<u64>,
    pub sample_rate: Option<u32>,
}

/// Subtitle track information
#[derive(Debug, Clone)]
pub struct SubtitleTrack {
    pub index: usize,
    pub language: Option<String>,
    pub codec: String,
    pub title: Option<String>,
    pub forced: bool,
}

/// The language shown for a track: its own, or `Unknown`.
pub open spec fn language_text(language: Option<Seq<char>>) -> Seq<char> {
    match language {
        Some(l) => l,
        None => "Unknown"@,
    }
}

/// The title shown behind a track: a dash and the title, or nothing.
pub open spec fn title_text(title: Option<Seq<char>>) -> Seq<char> {
    match title {
        Some(t) => " - "@ + t,
        None => Seq::empty(),
    }
}

/// The usual name of a channel count.
pub open spec fn channel_layout(channels: u16) -> Seq<char> {
    if channels == 1 {
        "Mono"@
    } else if channels == 2 {
        "Stereo"@
    } else if channels == 6 {
        "5.1"@
    } else if channels == 8 {
        "7.1"@
    } else {
        "Multi"@
    }
}

fn language_or_unknown(language: &Option<String>) -> (s: String)
    ensures
        s@ == language_text(language.deep_view()),
{
    match language {
        Some(l) => l.clone(),
        None => "Unknown".to_string(),
    }
}

fn title_suffix(title: &Option<String>) -> (s: String)
    ensures
        s@ == title_text(title.deep_view()),
{
    match title {
        Some(t) => {
            let mut s = " - ".to_string();
            s.append(t.as_str());
            s
        },
        None => String::new(),
    }
}

impl AudioTrack {
    /// The line shown for this track: index, language, codec in capitals with
    /// the channel layout, and the title if there is one.
    pub open spec fn label(&self) -> Seq<char> {
        decimal(self.index as nat) + ": "@ + language_text(self.language.deep_view()) + " ("@
            + uppercase_of(self.codec@) + " "@ + channel_layout(self.channels) + ")"@ + title_text(
            self.title.deep_view(),
        )
    }

    pub fn display_name(&self) -> (name: String)
        ensures
            name@ == self.label(),
    {
        let channels_str = if self.channels == 1 {
            "Mono"
        } else if self.channels == 2 {
            "Stereo"
        } else if self.channels == 6 {
            "5.1"
        } else if self.channels == 8 {
            "7.1"
        } else {
            "Multi"
        };
        let mut name = decimal_string(self.index as u64);
        name.append(": ");
        name.append(language_or_unknown(&self.language).as_str());
        name.append(" (");
        name.append(to_uppercase(self.codec.as_str()).as_str());
        name.append(" ");
        name.append(channels_str);
        name.append(")");
        name.append(title_suffix(&self.title).as_str());
        name
    }
}

/// The bit rate shown for a track: in Mbps with one decimal place, rounded
/// to the nearest tenth, from a million bits per second on; below that in
/// whole kbps, rounded down; `N/A` where it is not known.
pub open spec fn bitrate_text(bitrate: Option<u64>) -> Seq<char> {
    match bitrate {
        Some(b) => if b >= 1_000_000 {
            one_decimal(((b + 50_000) / 100_000) as nat) + " Mbps"@
        } else {
            decimal((b / 1000) as nat) + " kbps"@
        },
        None => "N/A"@,
    }
}

/// The sample rate shown for a track: in kHz with one decimal place,
/// rounded to the nearest tenth; `N/A` where it is not known.
pub open spec fn sample_rate_text(sample_rate: Option<u32>) -> Seq<char> {
    match sample_rate {
        Some(s) => one_decimal(((s + 50) / 100) as nat) + " kHz"@,
        None => "N/A"@,
    }
}

impl AudioTrack {
    /// Get bitrate display string
    pub fn bitrate_string(&self) -> (s: String)
        ensures
            s@ == bitrate_text(self.bitrate),
    {
        match self.bitrate {
            Some(b) => {
                if b >= 1_000_000 {
                    let tenths = (b / 100_000) + (if b % 100_000 >= 50_000 {
                        1
                    } else {
                        0
                    });
                    let mut s = one_decimal_string(tenths);
                    s.append(" Mbps");
                    s
                } else {
                    let mut s = decimal_string(b / 1000);
                    s.append(" kbps");
                    s
                }
            },
            None => "N/A".to_string(),
        }
    }

    /// Get sample rate display string
    pub fn sample_rate_string(&self) -> (s: String)
        ensures
            s@ == sample_rate_text(self.sample_rate),
    {
        match self.sample_rate {
            Some(rate) => {
                let tenths = ((rate as u64) + 50) / 100;
                let mut s = one_decimal_string(tenths);
                s.append(" kHz");
                s
            },
            None => "N/A".to_string(),
        }
    }
}

impl SubtitleTrack {
    /// The line shown for this track: index, language, codec in capitals,
    /// the forced mark, and the title if there is one.
    pub open spec fn label(&self) -> Seq<char> {
        decimal(self.index as nat) + ": "@ + language_text(self.language.deep_view()) + " ("@
            + uppercase_of(self.codec@) + ")"@ + (if self.forced {
            " [Forced]"@
        } else {
            Seq::empty()
        }) + title_text(self.title.deep_view())
    }

    pub fn display_name(&self) -> (name: String)
        ensures
            name@ == self.label(),
    {
        let forced_str = if self.forced {
            " [Forced]"
        } else {
            ""
        };
        proof {
            reveal_strlit("");
            assert(""@ =~= Seq::<char>::empty());
        }
        let mut name = decimal_string(self.index as u64);
        name.append(": ");
        name.append(language_or_unknown(&self.language).as_str());
        name.append(" (");
        name.append(to_uppercase(self.codec.as_str()).as_str());
        name.append(")");
        name.append(forced_str);
        name.append(title_suffix(&self.title).as_str());
        name
    }
}

} // verus!
