//! Plain data carried between the stages of a production run.
use vstd::prelude::*;

verus! {

/// A headline offered by a news source.
#[derive(Clone, Debug, PartialEq, Eq)]
pub struct NewsTitle {
    pub title: String,
    pub url: String,
    pub pics: Vec<String>,
    pub videos: Vec<String>,
}

/// What a material extractor made of a headline.
#[derive(Clone, Debug, PartialEq, Eq)]
pub struct NewsMaterial {
    pub title: String,
    pub summary: Vec<String>,
    pub pics: Vec<String>,
    pub videos: Vec<String>,
}

/// One synthesized speech clip. Durations are kept in nanoseconds.
#[derive(Clone, Debug, PartialEq, Eq)]
pub struct TTSFile {
    pub path: String,
    pub text: String,
    pub duration_ns: u64,
}

/// One subtitle segment: its text and how long it is shown, in nanoseconds.
#[derive(Clone, Debug, PartialEq, Eq)]
pub struct SingleSubtitle {
    pub text: String,
    pub duration_ns: u64,
}

/// The finished artifact of a production run.
#[derive(Clone, Debug, PartialEq, Eq)]
pub struct NewsShortVideo {
    pub title: String,
    pub path: String,
}

/// Failures of a narration synthesizer.
#[derive(Clone, Debug, PartialEq, Eq)]
pub enum TTSError {
    EmptyText,
    HandleFailed(String),
}

/// Failures of a subtitle writer.
#[derive(Clone, Debug, PartialEq, Eq)]
pub enum SubtitleError {
    File(String),
}

/// Failures of a video assembler.
#[derive(Clone, Debug, PartialEq, Eq)]
pub enum VideoEditorError {
    NetWork(String),
    IO(String),
    Image(String),
}

/// A production run's failure, tagged with the stage that failed.
#[derive(Clone, Debug, PartialEq, Eq)]
pub enum DirectorError {
    Failed(String),
    Material(String),
    TTS(String),
    Subtitle(String),
    File(String),
    VideoEditor(String),
    Compose(String),
    NoNarrationClips,
}

/// The text of a synthesizer failure.
pub open spec fn tts_error_text(e: TTSError) -> Seq<char> {
    match e {
        TTSError::EmptyText => "text list is empty"@,
        TTSError::HandleFailed(d) => d@,
    }
}

impl TTSError {
    /// The message of the error.
    pub fn message(&self) -> (r: String)
        ensures
            r@ == tts_error_text(*self),
    {
        match self {
            TTSError::EmptyText => String::from_str("text list is empty"),
            TTSError::HandleFailed(d) => d.clone(),
        }
    }
}

/// The text of a subtitle writer failure.
pub open spec fn subtitle_error_text(e: SubtitleError) -> Seq<char> {
    match e {
        SubtitleError::File(d) => d@,
    }
}

/// The text of a video assembler failure.
pub open spec fn video_error_text(e: VideoEditorError) -> Seq<char> {
    match e {
        VideoEditorError::NetWork(d) => d@,
        VideoEditorError::IO(d) => d@,
        VideoEditorError::Image(d) => d@,
    }
}

impl SubtitleError {
    /// The message of the error.
    pub fn message(&self) -> (r: String)
        ensures
            r@ == subtitle_error_text(*self),
    {
        match self {
            SubtitleError::File(d) => d.clone(),
        }
    }
}

impl VideoEditorError {
    /// The message of the error.
    pub fn message(&self) -> (r: String)
        ensures
            r@ == video_error_text(*self),
    {
        match self {
            VideoEditorError::NetWork(d) => d.clone(),
            VideoEditorError::IO(d) => d.clone(),
            VideoEditorError::Image(d) => d.clone(),
        }
    }
}

} // verus!
