//! Orchestration of short news-video production: job workspaces, narration
//! composition and the stage-by-stage decisions of a production run.
pub mod audio;
pub mod director;
pub mod model;
pub mod tts;
pub mod workspace;

pub use audio::{compose_audio, decode_wav, encode_wav, measure_wav, WavClip, WavFormat};
pub use director::{
    Action, Director, ExtractorProxy, NewsSource, Phase, ShootJob, StageConfig,
};
pub use model::{
    DirectorError, NewsMaterial, NewsShortVideo, NewsTitle, SingleSubtitle, SubtitleError,
    TTSError, TTSFile, VideoEditorError,
};
pub use tts::HttpTTSSer;
