use crate::analyzer::metadata::resolution_text;
use crate::analyzer::VideoMetadata;
use crate::paths::{self, extension_of, file_name_of, file_stem_of, joined, parent_of};
use crate::text::{lowercase_of, str_eq, to_lowercase};
use crate::tracks::selection::{audio_indices_of, subtitle_indices_of};
use crate::tracks::{AudioTrack, SubtitleTrack, TrackSelection};
use vstd::prelude::*;

verus! {

/// Progress and quality scores are whole numbers of hundredths: a progress
/// of 10 000 is 100 %, a score of 9 542 is 95.42.
pub const FULL_PROGRESS: u32 = 10_000;

/// Status of a job in the encoding queue
#[derive(Debug, Clone)]
pub enum JobStatus {
    /// Waiting to be processed
    Pending,
    /// Being analyzed
    Analyzing,
    /// Waiting for track configuration
    AwaitingConfig,
    /// Ready to encode
    Ready,
    /// Searching for the rate-control value that meets the quality target
    SearchingQuality,
    /// Currently encoding; the progress is in hundredths of a percent
    Encoding { progress: u32 },
    /// Measuring the quality of the finished encode
    Verifying,
    /// Successfully encoded
    Done,
    /// Encoded with a quality score, in hundredths
    DoneWithVmaf { score: u32 },
    /// Skipped (e.g., already AV1, cancelled)
    Skipped { reason: String },
    /// Error occurred
    Error { message: String },
    /// Encoded but quality below threshold; both in hundredths
    QualityWarning { vmaf: u32, threshold: u32 },
}

impl JobStatus {
    /// The encode succeeded: with or without a score, or with a warning.
    pub open spec fn success(&self) -> bool {
        *self is Done || *self is DoneWithVmaf || *self is QualityWarning
    }

    /// The job has reached its end and stays as it is.
    pub open spec fn terminal(&self) -> bool {
        self.success() || *self is Skipped || *self is Error
    }

    /// The job holds the pipeline's single active slot.
    pub open spec fn active(&self) -> bool {
        *self is SearchingQuality || *self is Encoding || *self is Verifying
    }

    /// The steps that a job may take from one status to another.
    ///
    /// A job is analyzed, configured and made ready, waits for the encoder,
    /// passes the stages of the pipeline in order (quality search and
    /// verification may be left out), and ends in exactly one terminal
    /// status. While it encodes its progress never falls. A job that waits
    /// for the encoder may be skipped without having been started. Nothing
    /// leads out of a terminal status.
    pub open spec fn allows(&self, next: &JobStatus) -> bool {
        match *self {
            JobStatus::Pending => *next is Analyzing || *next is SearchingQuality
                || *next is Encoding || *next is Skipped,
            JobStatus::Analyzing => *next is AwaitingConfig || *next is Skipped || *next is Error,
            JobStatus::AwaitingConfig => *next is Ready,
            JobStatus::Ready => *next is Pending,
            JobStatus::SearchingQuality => *next is Encoding || next.terminal(),
            JobStatus::Encoding { progress } => (match *next {
                JobStatus::Encoding { progress: later } => progress <= later,
                _ => *next is Verifying || next.terminal(),
            }),
            JobStatus::Verifying => next.terminal(),
            _ => false,
        }
    }

    /// Tells whether the encode succeeded.
    #[verifier::when_used_as_spec(success)]
    pub fn is_success(&self) -> (yes: bool)
        ensures
            yes == self.success(),
    {
        match self {
            JobStatus::Done => true,
            JobStatus::DoneWithVmaf { .. } => true,
            JobStatus::QualityWarning { .. } => true,
            _ => false,
        }
    }

    /// Tells whether the job has reached its end.
    #[verifier::when_used_as_spec(terminal)]
    pub fn is_terminal(&self) -> (yes: bool)
        ensures
            yes == self.terminal(),
    {
        match self {
            JobStatus::Done => true,
            JobStatus::DoneWithVmaf { .. } => true,
            JobStatus::QualityWarning { .. } => true,
            JobStatus::Skipped { .. } => true,
            JobStatus::Error { .. } => true,
            _ => false,
        }
    }

    /// Tells whether the job holds the pipeline's active slot.
    #[verifier::when_used_as_spec(active)]
    pub fn is_active(&self) -> (yes: bool)
        ensures
            yes == self.active(),
    {
        match self {
            JobStatus::SearchingQuality => true,
            JobStatus::Encoding { .. } => true,
            JobStatus::Verifying => true,
            _ => false,
        }
    }

    /// Tells whether a job in this status may go on to `next`.
    #[verifier::when_used_as_spec(allows)]
    pub fn can_become(&self, next: &JobStatus) -> (yes: bool)
        ensures
            yes == self.allows(next),
    {
        match self {
            JobStatus::Pending => match next {
                JobStatus::Analyzing => true,
                JobStatus::SearchingQuality => true,
                JobStatus::Encoding { .. } => true,
                JobStatus::Skipped { .. } => true,
                _ => false,
            },
            JobStatus::Analyzing => match next {
                JobStatus::AwaitingConfig => true,
                JobStatus::Skipped { .. } => true,
                JobStatus::Error { .. } => true,
                _ => false,
            },
            JobStatus::AwaitingConfig => match next {
                JobStatus::Ready => true,
                _ => false,
            },
            JobStatus::Ready => match next {
                JobStatus::Pending => true,
                _ => false,
            },
            JobStatus::SearchingQuality => match next {
                JobStatus::Encoding { .. } => true,
                _ => next.is_terminal(),
            },
            JobStatus::Encoding { progress } => match next {
                JobStatus::Encoding { progress: later } => *progress <= *later,
                JobStatus::Verifying => true,
                _ => next.is_terminal(),
            },
            JobStatus::Verifying => next.is_terminal(),
            _ => false,
        }
    }
}

/// Nothing leads out of a terminal status, so no job reaches two different
/// terminal statuses: a job that is in one can take no step at all.
pub proof fn lemma_terminal_is_final(status: JobStatus, next: JobStatus)
    requires
        status.terminal(),
    ensures
        !status.allows(&next),
{
}

/// Along any chain of allowed steps, the first terminal status is the last
/// status of the chain.
pub proof fn lemma_one_terminal_per_chain(chain: Seq<JobStatus>, i: int)
    requires
        forall|k: int| 0 <= k < chain.len() - 1 ==> (#[trigger] chain[k]).allows(&chain[k + 1]),
        0 <= i < chain.len(),
        chain[i].terminal(),
    ensures
        i == chain.len() - 1,
{
    if i < chain.len() - 1 {
        assert(chain[i].allows(&chain[i + 1]));
    }
}

/// An encoding job in the queue
#[derive(Debug, Clone)]
pub struct EncodingJob {
    pub path: String,
    pub metadata: Option<VideoMetadata>,
    pub audio_tracks: Vec<AudioTrack>,
    pub subtitle_tracks: Vec<SubtitleTrack>,
    pub track_selection: TrackSelection,
    pub status: JobStatus,
    pub output_path: Option<String>,
    pub crf: Option<u8>,
    pub source_size: Option<u64>,
    pub output_size: Option<u64>,
    pub source_deleted: bool,
    pub source_kept_vmaf: Option<u32>,
}

/// Where the encode of `path` is written: beside the source (in `.` where
/// the path has no parent), under the source's stem followed by the suffix,
/// a dot and the container's extension.
pub open spec fn output_path_for(path: Seq<char>, suffix: Seq<char>, container: Seq<char>) -> Seq<
    char,
> {
    let stem = match file_stem_of(path) {
        Some(s) => s,
        None => Seq::empty(),
    };
    let dir = match parent_of(path) {
        Some(d) => d,
        None => "."@,
    };
    joined(dir, stem + suffix + "."@ + container)
}

/// How much smaller the output is than the source: the bytes saved, never
/// below zero, and their share of the source in hundredths of a percent,
/// rounded down. Nothing is known unless both sizes are, and the source is
/// not empty.
pub open spec fn reduction(source_size: Option<u64>, output_size: Option<u64>) -> Option<
    (u64, u32),
> {
    match (source_size, output_size) {
        (Some(source), Some(output)) => if source > 0 {
            let saved = if output <= source {
                source - output
            } else {
                0
            };
            Some((saved as u64, (saved * 10_000 / (source as int)) as u32))
        } else {
            None
        },
        _ => None,
    }
}

impl EncodingJob {
    /// What holds of every job: an output size, a deleted source and a kept
    /// source are recorded only once the encode has succeeded; a source is
    /// never both deleted and kept; progress never exceeds 100 %.
    pub open spec fn wf(&self) -> bool {
        &&& self.output_size.is_some() ==> self.status.success()
        &&& self.source_deleted ==> self.status.success() && self.source_kept_vmaf.is_none()
        &&& self.source_kept_vmaf.is_some() ==> self.status.success()
        &&& self.status matches JobStatus::Encoding { progress } ==> progress <= FULL_PROGRESS
    }

    /// Tells whether the job is well formed.
    pub fn is_well_formed(&self) -> (ok: bool)
        ensures
            ok == self.wf(),
    {
        let success = self.status.is_success();
        let in_range = match self.status {
            JobStatus::Encoding { progress } => progress <= FULL_PROGRESS,
            _ => true,
        };
        (self.output_size.is_none() || success) && (!self.source_deleted || (success
            && self.source_kept_vmaf.is_none())) && (self.source_kept_vmaf.is_none() || success)
            && in_range
    }

    /// Create a new encoding job for a file whose size, if it could be read,
    /// is `source_size`.
    pub fn new(path: String, source_size: Option<u64>) -> (job: Self)
        ensures
            job.wf(),
            job.path@ == path@,
            job.status is Pending,
            job.source_size == source_size,
            job.metadata.is_none(),
            job.audio_tracks@.len() == 0,
            job.subtitle_tracks@.len() == 0,
            job.track_selection.audio_indices@.len() == 0,
            job.track_selection.subtitle_indices@.len() == 0,
            job.output_path.is_none(),
            job.crf.is_none(),
            job.output_size.is_none(),
            !job.source_deleted,
            job.source_kept_vmaf.is_none(),
    {
        EncodingJob {
            path,
            metadata: None,
            audio_tracks: Vec::new(),
            subtitle_tracks: Vec::new(),
            track_selection: TrackSelection::default(),
            status: JobStatus::Pending,
            output_path: None,
            crf: None,
            source_size,
            output_size: None,
            source_deleted: false,
            source_kept_vmaf: None,
        }
    }

    /// Get the filename
    pub fn filename(&self) -> (name: String)
        ensures
            name@ == (match file_name_of(self.path@) {
                Some(n) => n,
                None => "Unknown"@,
            }),
    {
        match paths::file_name(self.path.as_str()) {
            Some(n) => n,
            None => "Unknown".to_string(),
        }
    }

    /// Get the resolution string
    pub fn resolution_string(&self) -> (s: String)
        ensures
            s@ == (match self.metadata {
                Some(m) => resolution_text(m.width, m.height),
                None => "Unknown"@,
            }),
    {
        match &self.metadata {
            Some(m) => m.resolution_string(),
            None => "Unknown".to_string(),
        }
    }

    /// Get the HDR string
    pub fn hdr_string(&self) -> (s: &'static str)
        ensures
            s@ == (match self.metadata {
                Some(m) => m.hdr_type.name(),
                None => "Unknown"@,
            }),
    {
        match &self.metadata {
            Some(m) => m.hdr_string(),
            None => "Unknown",
        }
    }

    /// Generate the output path based on config
    pub fn generate_output_path(&mut self, suffix: &str, container: &str)
        ensures
            final(self).output_path.deep_view() == Some(
                output_path_for(old(self).path@, suffix@, container@),
            ),
            final(self).path == old(self).path,
            final(self).metadata == old(self).metadata,
            final(self).audio_tracks == old(self).audio_tracks,
            final(self).subtitle_tracks == old(self).subtitle_tracks,
            final(self).track_selection == old(self).track_selection,
            final(self).status == old(self).status,
            final(self).crf == old(self).crf,
            final(self).source_size == old(self).source_size,
            final(self).output_size == old(self).output_size,
            final(self).source_deleted == old(self).source_deleted,
            final(self).source_kept_vmaf == old(self).source_kept_vmaf,
    {
        let stem = match paths::file_stem(self.path.as_str()) {
            Some(s) => s,
            None => String::new(),
        };
        let dir = match paths::parent(self.path.as_str()) {
            Some(d) => d,
            None => ".".to_string(),
        };
        let mut name = stem;
        name.append(suffix);
        name.append(".");
        name.append(container);
        self.output_path = Some(paths::join(dir.as_str(), name.as_str()));
    }

    /// Select all available tracks
    pub fn select_all_tracks(&mut self)
        ensures
            final(self).track_selection.audio_indices@ == audio_indices_of(
                old(self).audio_tracks@,
            ),
            final(self).track_selection.subtitle_indices@ == subtitle_indices_of(
                old(self).subtitle_tracks@,
            ),
            final(self).path == old(self).path,
            final(self).metadata == old(self).metadata,
            final(self).audio_tracks == old(self).audio_tracks,
            final(self).subtitle_tracks == old(self).subtitle_tracks,
            final(self).status == old(self).status,
            final(self).output_path == old(self).output_path,
            final(self).crf == old(self).crf,
            final(self).source_size == old(self).source_size,
            final(self).output_size == old(self).output_size,
            final(self).source_deleted == old(self).source_deleted,
            final(self).source_kept_vmaf == old(self).source_kept_vmaf,
    {
        self.track_selection =
        TrackSelection::select_all(self.audio_tracks.as_slice(), self.subtitle_tracks.as_slice());
    }

    /// Calculate size reduction if both sizes are known
    pub fn size_reduction(&self) -> (r: Option<(u64, u32)>)
        ensures
            r == reduction(self.source_size, self.output_size),
            r matches Some((saved, share)) ==> share <= FULL_PROGRESS,
    {
        match (self.source_size, self.output_size) {
            (Some(source), Some(output)) => {
                if source > 0 {
                    let saved = source.saturating_sub(output);
                    let scaled: u128 = (saved as u128) * 10_000;
                    let share: u128 = scaled / (source as u128);
                    assert(share <= 10_000) by (nonlinear_arith)
                        requires
                            share == (saved as int * 10_000) / (source as int),
                            0 <= saved <= source,
                            source > 0,
                    ;
                    Some((saved, share as u32))
                } else {
                    None
                }
            },
            _ => None,
        }
    }

    /// Takes the job on to `next` if the life of a job allows that step, and
    /// tells whether it did. A step into `Encoding` beyond 100 % is not taken.
    pub fn advance(&mut self, next: JobStatus) -> (taken: bool)
        requires
            old(self).wf(),
        ensures
            final(self).wf(),
            taken == (old(self).status.allows(&next) && (next matches JobStatus::Encoding {
                progress,
            } ==> progress <= FULL_PROGRESS)),
            taken ==> final(self).status == next,
            !taken ==> final(self).status == old(self).status,
            final(self).path == old(self).path,
            final(self).metadata == old(self).metadata,
            final(self).audio_tracks == old(self).audio_tracks,
            final(self).subtitle_tracks == old(self).subtitle_tracks,
            final(self).track_selection == old(self).track_selection,
            final(self).output_path == old(self).output_path,
            final(self).crf == old(self).crf,
            final(self).source_size == old(self).source_size,
            final(self).output_size == old(self).output_size,
            final(self).source_deleted == old(self).source_deleted,
            final(self).source_kept_vmaf == old(self).source_kept_vmaf,
    {
        let in_range = match &next {
            JobStatus::Encoding { progress } => *progress <= FULL_PROGRESS,
            _ => true,
        };
        if in_range && self.status.can_become(&next) {
            self.status = next;
            true
        } else {
            false
        }
    }
}

/// The file extensions that count as video.
pub open spec fn video_extension(ext: Seq<char>) -> bool {
    ext == "mp4"@ || ext == "mkv"@ || ext == "avi"@ || ext == "mov"@ || ext == "webm"@ || ext
        == "m4v"@ || ext == "ts"@ || ext == "wmv"@ || ext == "flv"@
}

/// A path names a video file when it has an extension whose lowercase form
/// is one of the video extensions.
pub open spec fn names_video_file(path: Seq<char>) -> bool {
    match extension_of(path) {
        Some(ext) => video_extension(lowercase_of(ext)),
        None => false,
    }
}

/// Check if a path is a video file
pub fn is_video_file(path: &str) -> (video: bool)
    ensures
        video == names_video_file(path@),
{
    match paths::extension(path) {
        Some(ext) => {
            let lower = to_lowercase(ext.as_str());
            let l = lower.as_str();
            str_eq(l, "mp4") || str_eq(l, "mkv") || str_eq(l, "avi") || str_eq(l, "mov") || str_eq(
                l,
                "webm",
            ) || str_eq(l, "m4v") || str_eq(l, "ts") || str_eq(l, "wmv") || str_eq(l, "flv")
        },
        None => false,
    }
}

} // verus!
