//! The production-run orchestrator. `Director` holds the configured stage
//! adapters; `ShootJob` holds one run's state and decides, from the outcome
//! of each stage, what happens next. The caller performs each `Action` with
//! the adapters and hands the outcome back to the matching `on_*` method.
use vstd::prelude::*;

use crate::audio::{
    compose_audio, composable, decoded_duration_ns, encoded_in, measure_wav, track_format,
    track_samples, NANOS_PER_SEC,
};
use crate::model::{
    subtitle_error_text, tts_error_text, video_error_text, DirectorError, NewsMaterial, NewsShortVideo,
    SingleSubtitle, SubtitleError, TTSError, TTSFile, VideoEditorError,
};
use crate::workspace::{
    cartoned_path, cartoned_path_of, default_temp_root, default_temp_root_string, extension_dot,
    is_id_of_len, new_job_id, new_temp_file, temp_dir_for, temp_dir_path, temp_file_path,
    FILE_ID_LEN, JOB_ID_LEN,
};

verus! {

/// A shared handle on a material extractor.
pub struct ExtractorProxy<E>(pub std::sync::Arc<E>);

impl<E> ExtractorProxy<E> {
    /// Shares `extractor`.
    pub fn new(extractor: E) -> (r: Self)
        ensures
            *r.0 == extractor,
    {
        ExtractorProxy(std::sync::Arc::new(extractor))
    }
}

/// Where headlines come from (`crawler`) and how a headline becomes material
/// (`extractor`).
pub struct NewsSource<C, E> {
    pub crawler: C,
    pub extractor: ExtractorProxy<E>,
}

/// Which optional stages a run has.
#[derive(Clone, Copy, Debug, PartialEq, Eq, Structural)]
pub struct StageConfig {
    pub has_tts: bool,
    pub has_subtitle: bool,
    pub has_video_editor: bool,
}

/// The orchestrator: the news source, the optional narration synthesizer,
/// subtitle writer and video assembler, the root under which job workspaces
/// are made, and the id of the current job.
pub struct Director<N, T, S, V> {
    pub cur_id: String,
    pub temp_root: String,
    pub source: N,
    pub tts: Option<T>,
    pub subtitle: Option<S>,
    pub video_editor: Option<V>,
}

/// The number of images above which the default duration, two seconds per
/// image, no longer fits in a `u64` of nanoseconds.
pub const MAX_DEFAULT_PICS: u64 = 9_223_372_036;

/// The duration of the video track to assemble: the narration's where there
/// is one, else two seconds per image (saturating).
pub open spec fn target_duration_ns(narration: Option<u64>, n_pics: nat) -> u64 {
    match narration {
        Some(d) => d,
        None => if n_pics <= MAX_DEFAULT_PICS {
            (n_pics * 2 * NANOS_PER_SEC) as u64
        } else {
            u64::MAX
        },
    }
}

/// The stage a run is in: what it is waiting for.
#[derive(Clone, Copy, Debug, PartialEq, Eq, Structural)]
pub enum Phase {
    Preparing,
    Extracting,
    Synthesizing,
    Effecting,
    Reading,
    WritingNarration,
    Subtitling,
    Assembling,
    Muxing,
    Done,
    Failed,
}

/// What the caller is to do next.
#[derive(Debug)]
pub enum Action {
    /// Create the directory (if absent) and report its canonical path.
    PrepareWorkspace(String),
    /// Run the material extractor on the headline.
    ExtractMaterial,
    /// Run the narration synthesizer on the material's summary.
    Synthesize,
    /// Apply the audio effect to the clip at `input`, writing `output`;
    /// remove `input` and report the bytes of `output`.
    ApplyEffect { input: String, output: String },
    /// Report the bytes of every processed clip (`effected`), in order.
    ReadClips,
    /// Write the composed narration `wav` to `path` and remove the processed
    /// clips.
    WriteNarration { path: String, wav: Vec<u8> },
    /// Run the subtitle writer on the job's `subtitles`.
    WriteSubtitle,
    /// Run the video assembler on the material for `duration_ns`.
    AssembleVideo { duration_ns: u64 },
    /// Mux `video`, `audio` and `subtitle` into `output`, then remove the
    /// three inputs.
    Mux { video: String, audio: String, subtitle: String, output: String },
    /// The run succeeded.
    Finish(NewsShortVideo),
    /// The run failed.
    Fail(DirectorError),
}

/// The state of one production run.
#[derive(Debug)]
pub struct ShootJob {
    pub job_id: String,
    pub config: StageConfig,
    pub phase: Phase,
    pub workspace: String,
    pub material: Option<NewsMaterial>,
    /// The clips as the synthesizer returned them.
    pub clips: Vec<TTSFile>,
    /// The clips processed so far, with their measured durations.
    pub effected: Vec<TTSFile>,
    /// The output path of the step in flight.
    pub pending: String,
    pub narration_path: Option<String>,
    pub narration_ns: u64,
    pub subtitles: Vec<SingleSubtitle>,
    pub subtitle_path: Option<String>,
    pub video_path: Option<String>,
}

impl<N, T, S, V> Director<N, T, S, V> {
    /// Which optional stages are configured.
    pub open spec fn config_spec(&self) -> StageConfig {
        StageConfig {
            has_tts: self.tts is Some,
            has_subtitle: self.subtitle is Some,
            has_video_editor: self.video_editor is Some,
        }
    }

    /// An orchestrator over `source` with no optional stage and a fresh job id.
    pub fn new(source: N) -> (r: Self)
        ensures
            r.source == source,
            r.tts is None,
            r.subtitle is None,
            r.video_editor is None,
            r.temp_root@ == default_temp_root(),
            is_id_of_len(r.cur_id@, JOB_ID_LEN as nat),
    {
        Director {
            cur_id: new_job_id(),
            temp_root: default_temp_root_string(),
            source,
            tts: None,
            subtitle: None,
            video_editor: None,
        }
    }

    /// The same orchestrator making job workspaces under `root`.
    pub fn with_temp_root(self, root: String) -> (r: Self)
        ensures
            r.temp_root == root,
            r.cur_id == self.cur_id,
            r.source == self.source,
            r.tts == self.tts,
            r.subtitle == self.subtitle,
            r.video_editor == self.video_editor,
    {
        Director { temp_root: root, ..self }
    }

    /// The same orchestrator with `tts` as its narration synthesizer.
    pub fn with_tts(self, tts: T) -> (r: Self)
        ensures
            r.tts == Some(tts),
            r.cur_id == self.cur_id,
            r.temp_root == self.temp_root,
            r.source == self.source,
            r.subtitle == self.subtitle,
            r.video_editor == self.video_editor,
    {
        Director { tts: Some(tts), ..self }
    }

    /// The same orchestrator with `subtitle` as its subtitle writer.
    pub fn with_subtitle(self, subtitle: S) -> (r: Self)
        ensures
            r.subtitle == Some(subtitle),
            r.cur_id == self.cur_id,
            r.temp_root == self.temp_root,
            r.source == self.source,
            r.tts == self.tts,
            r.video_editor == self.video_editor,
    {
        Director { subtitle: Some(subtitle), ..self }
    }

    /// The same orchestrator with `video_editor` as its video assembler.
    pub fn with_video_editor(self, video_editor: V) -> (r: Self)
        ensures
            r.video_editor == Some(video_editor),
            r.cur_id == self.cur_id,
            r.temp_root == self.temp_root,
            r.source == self.source,
            r.tts == self.tts,
            r.subtitle == self.subtitle,
    {
        Director { video_editor: Some(video_editor), ..self }
    }

    /// Which optional stages are configured.
    pub fn config(&self) -> (r: StageConfig)
        ensures
            r == self.config_spec(),
    {
        StageConfig {
            has_tts: self.tts.is_some(),
            has_subtitle: self.subtitle.is_some(),
            has_video_editor: self.video_editor.is_some(),
        }
    }

    /// Starts a run: mints a fresh job id, which replaces the current one, and
    /// asks for the job's workspace directory.
    pub fn begin_shoot(&mut self) -> (r: (ShootJob, Action))
        ensures
            is_id_of_len(final(self).cur_id@, JOB_ID_LEN as nat),
            final(self).temp_root == old(self).temp_root,
            final(self).source == old(self).source,
            final(self).tts == old(self).tts,
            final(self).subtitle == old(self).subtitle,
            final(self).video_editor == old(self).video_editor,
            r.0.wf(),
            r.0.phase == Phase::Preparing,
            r.0.job_id == final(self).cur_id,
            r.0.config == old(self).config_spec(),
            r.0.material is None,
            r.0.narration_path is None,
            r.0.subtitle_path is None,
            r.0.video_path is None,
            r.0.clips@.len() == 0,
            r.0.effected@.len() == 0,
            r.0.subtitles@.len() == 0,
            r.1 is PrepareWorkspace,
            r.1->PrepareWorkspace_0@ == temp_dir_path(old(self).temp_root@, final(self).cur_id@),
    {
        let id = new_job_id();
        self.cur_id = id.clone();
        let dir = temp_dir_for(&self.temp_root, &id);
        let job = ShootJob {
            job_id: id,
            config: self.config(),
            phase: Phase::Preparing,
            workspace: String::new(),
            material: None,
            clips: Vec::new(),
            effected: Vec::new(),
            pending: String::new(),
            narration_path: None,
            narration_ns: 0,
            subtitles: Vec::new(),
            subtitle_path: None,
            video_path: None,
        };
        (job, Action::PrepareWorkspace(dir))
    }
}

/// Whether a run in phase `p` is producing its narration.
pub open spec fn is_narrating(p: Phase) -> bool {
    p is Synthesizing || p is Effecting || p is Reading || p is WritingNarration || p is Subtitling
}

/// Whether `a` is a failure tagged with the narration stage.
pub open spec fn is_tts_failure(a: Action) -> bool {
    a is Fail && a->Fail_0 is TTS
}

/// Subtitle segments taken from processed clips: one per clip, in order,
/// with the clip's text and measured duration.
pub open spec fn subtitles_match(subs: Seq<SingleSubtitle>, clips: Seq<TTSFile>) -> bool {
    &&& subs.len() == clips.len()
    &&& forall|i: int|
        0 <= i < subs.len() ==> (#[trigger] subs[i]).text == clips[i].text && subs[i].duration_ns
            == clips[i].duration_ns
}

/// How a run goes on after asking for the effect on the clip at `path`: it
/// waits for the processed copy, or fails where the clip's file name has no
/// extension.
pub open spec fn effect_started(path: String, job: ShootJob, a: Action) -> bool {
    match extension_dot(path@) {
        Some(dot) => {
            &&& job.phase is Effecting
            &&& job.pending@ == cartoned_path_of(path@, dot)
            &&& a == (Action::ApplyEffect { input: path, output: job.pending })
        },
        None => job.phase is Failed && is_tts_failure(a),
    }
}

/// Whether `p` is a fresh file of the workspace `dir` ending in `suffix`.
pub open spec fn is_temp_file(p: Seq<char>, dir: Seq<char>, suffix: Seq<char>) -> bool {
    exists|id: Seq<char>|
        is_id_of_len(id, FILE_ID_LEN as nat) && p == #[trigger] temp_file_path(dir, id, suffix)
}

fn subtitles_from(clips: &Vec<TTSFile>) -> (r: Vec<SingleSubtitle>)
    ensures
        subtitles_match(r@, clips@),
{
    let mut r: Vec<SingleSubtitle> = Vec::new();
    let mut i: usize = 0;
    while i < clips.len()
        invariant
            i <= clips@.len(),
            subtitles_match(r@, clips@.take(i as int)),
        decreases clips@.len() - i,
    {
        r.push(SingleSubtitle { text: clips[i].text.clone(), duration_ns: clips[i].duration_ns });
        i = i + 1;
    }
    assert(clips@.take(clips@.len() as int) =~= clips@);
    r
}

impl ShootJob {
    /// The consistency of a run's state with its phase and configuration.
    pub open spec fn wf(&self) -> bool {
        &&& is_narrating(self.phase) ==> self.config.has_tts
        &&& self.narration_path is Some ==> self.config.has_tts
        &&& self.subtitle_path is Some ==> self.config.has_subtitle && self.narration_path is Some
        &&& self.video_path is Some ==> self.config.has_video_editor
        &&& self.phase is Subtitling ==> self.config.has_subtitle && self.narration_path is Some
        &&& (self.phase is Assembling || self.phase is Muxing || self.phase is Done)
            ==> self.config.has_video_editor
        &&& !(self.phase is Preparing || self.phase is Extracting || self.phase is Failed)
            ==> self.material is Some
        &&& self.phase is Effecting ==> self.effected@.len() < self.clips@.len()
        &&& self.phase is Reading ==> self.effected@.len() == self.clips@.len() && self.clips@.len()
            > 0
        &&& self.phase is Muxing ==> self.narration_path is Some && self.subtitle_path is Some
            && self.video_path is Some
    }

    /// The narration track's duration, where the run has one.
    pub open spec fn narration_spec(&self) -> Option<u64> {
        if self.narration_path is Some {
            Some(self.narration_ns)
        } else {
            None
        }
    }

    /// The duration of the video track the run asks for.
    pub open spec fn target_spec(&self) -> u64 {
        target_duration_ns(self.narration_spec(), self.material->Some_0.pics@.len())
    }

    /// What the video stage decided, as seen in the state after it: with a
    /// video assembler, to assemble a track of the target duration; without
    /// one, to fail with a video-assembler error.
    pub open spec fn video_stage(&self, a: Action) -> bool {
        if self.config.has_video_editor {
            self.phase is Assembling && a == (Action::AssembleVideo {
                duration_ns: self.target_spec(),
            })
        } else {
            self.phase is Failed && a is Fail && a->Fail_0 is VideoEditor
        }
    }

    fn fail(&mut self, e: DirectorError) -> (a: Action)
        ensures
            *final(self) == (ShootJob { phase: Phase::Failed, ..*old(self) }),
            a == Action::Fail(e),
    {
        self.phase = Phase::Failed;
        Action::Fail(e)
    }

    fn decide_video(&mut self) -> (a: Action)
        requires
            old(self).wf(),
            old(self).material is Some,
            old(self).phase is Extracting || old(self).phase is WritingNarration
                || old(self).phase is Subtitling,
        ensures
            final(self).wf(),
            final(self).video_stage(a),
            *final(self) == (ShootJob { phase: final(self).phase, ..*old(self) }),
    {
        let n = match &self.material {
            Some(m) => m.pics.len(),
            None => 0,
        };
        let dur: u64 = if self.narration_path.is_some() {
            self.narration_ns
        } else if n as u64 <= MAX_DEFAULT_PICS {
            n as u64 * 2 * NANOS_PER_SEC
        } else {
            u64::MAX
        };
        if self.config.has_video_editor {
            self.phase = Phase::Assembling;
            Action::AssembleVideo { duration_ns: dur }
        } else {
            self.fail(DirectorError::VideoEditor(String::from_str("has not video editor setted")))
        }
    }

    fn start_effect(&mut self) -> (a: Action)
        requires
            old(self).wf(),
            old(self).config.has_tts,
            old(self).material is Some,
            old(self).effected@.len() < old(self).clips@.len(),
            old(self).phase is Synthesizing || old(self).phase is Effecting,
        ensures
            final(self).wf(),
            effect_started(old(self).clips@[old(self).effected@.len() as int].path, *final(self), a),
            *final(self) == (ShootJob {
                phase: final(self).phase,
                pending: final(self).pending,
                ..*old(self)
            }),
    {
        let k = self.effected.len();
        match cartoned_path(&self.clips[k].path) {
            Some(out) => {
                self.pending = out.clone();
                self.phase = Phase::Effecting;
                Action::ApplyEffect { input: self.clips[k].path.clone(), output: out }
            },
            None => self.fail(DirectorError::TTS(String::from_str("the clip's file has no extension"))),
        }
    }

    /// The workspace directory was prepared (its canonical path) or could
    /// not be.
    pub fn on_workspace(&mut self, r: Result<String, String>) -> (a: Action)
        requires
            old(self).wf(),
            old(self).phase is Preparing,
        ensures
            final(self).wf(),
            final(self).config == old(self).config,
            final(self).job_id == old(self).job_id,
            match r {
                Ok(dir) => *final(self) == (ShootJob {
                    phase: Phase::Extracting,
                    workspace: dir,
                    ..*old(self)
                }) && a is ExtractMaterial,
                Err(e) => final(self).phase is Failed && a == Action::Fail(DirectorError::File(e)),
            },
    {
        match r {
            Ok(dir) => {
                self.workspace = dir;
                self.phase = Phase::Extracting;
                Action::ExtractMaterial
            },
            Err(e) => self.fail(DirectorError::File(e)),
        }
    }

    /// The material extractor answered. Without a narration synthesizer the
    /// run goes straight to the video stage.
    pub fn on_material(&mut self, r: Result<NewsMaterial, String>) -> (a: Action)
        requires
            old(self).wf(),
            old(self).phase is Extracting,
        ensures
            final(self).wf(),
            final(self).config == old(self).config,
            final(self).job_id == old(self).job_id,
            match r {
                Ok(m) => {
                    &&& final(self).material == Some(m)
                    &&& final(self).narration_path == old(self).narration_path
                    &&& final(self).workspace == old(self).workspace
                    &&& old(self).config.has_tts ==> final(self).phase is Synthesizing
                        && a is Synthesize
                    &&& !old(self).config.has_tts ==> final(self).video_stage(a)
                },
                Err(e) => final(self).phase is Failed && a == Action::Fail(
                    DirectorError::Material(e),
                ),
            },
    {
        match r {
            Ok(m) => {
                self.material = Some(m);
                if self.config.has_tts {
                    self.phase = Phase::Synthesizing;
                    Action::Synthesize
                } else {
                    self.decide_video()
                }
            },
            Err(e) => self.fail(DirectorError::Material(e)),
        }
    }

    /// The narration synthesizer answered with its clips, in the order of
    /// the summary. No clip at all is a narration failure.
    pub fn on_synthesized(&mut self, r: Result<Vec<TTSFile>, TTSError>) -> (a: Action)
        requires
            old(self).wf(),
            old(self).phase is Synthesizing,
        ensures
            final(self).wf(),
            final(self).config == old(self).config,
            final(self).job_id == old(self).job_id,
            final(self).material == old(self).material,
            final(self).workspace == old(self).workspace,
            final(self).narration_path == old(self).narration_path,
            final(self).narration_ns == old(self).narration_ns,
            match r {
                Ok(clips) => if clips@.len() == 0 {
                    final(self).phase is Failed && is_tts_failure(a)
                } else {
                    &&& final(self).clips == clips
                    &&& final(self).effected@.len() == 0
                    &&& effect_started(clips@[0].path, *final(self), a)
                },
                Err(e) => {
                    &&& final(self).phase is Failed
                    &&& is_tts_failure(a)
                    &&& a->Fail_0->TTS_0@ == tts_error_text(e)
                },
            },
    {
        match r {
            Ok(clips) => {
                if clips.len() == 0 {
                    self.fail(DirectorError::TTS(String::from_str("the synthesizer returned no clip")))
                } else {
                    self.clips = clips;
                    self.effected = Vec::new();
                    self.start_effect()
                }
            },
            Err(e) => {
                let msg = e.message();
                self.fail(DirectorError::TTS(msg))
            },
        }
    }

    /// The effect was applied to the clip in flight: `r` holds the bytes of
    /// the processed copy. Its duration is measured from the waveform; the
    /// synthesizer's claim is not kept.
    pub fn on_effect_applied(&mut self, r: Result<Vec<u8>, String>) -> (a: Action)
        requires
            old(self).wf(),
            old(self).phase is Effecting,
        ensures
            final(self).wf(),
            final(self).config == old(self).config,
            final(self).job_id == old(self).job_id,
            final(self).material == old(self).material,
            final(self).workspace == old(self).workspace,
            final(self).narration_path == old(self).narration_path,
            final(self).narration_ns == old(self).narration_ns,
            match r {
                Ok(wav) => match decoded_duration_ns(wav@) {
                    Some(d) => {
                        &&& final(self).effected@ == old(self).effected@.push(
                            (TTSFile {
                                path: old(self).pending,
                                text: old(self).clips@[old(self).effected@.len() as int].text,
                                duration_ns: d as u64,
                            }),
                        )
                        &&& old(self).effected@.len() + 1 < old(self).clips@.len()
                            ==> effect_started(
                            old(self).clips@[old(self).effected@.len() as int + 1].path,
                            *final(self),
                            a,
                        )
                        &&& old(self).effected@.len() + 1 == old(self).clips@.len()
                            ==> final(self).phase is Reading && a is ReadClips
                    },
                    None => final(self).phase is Failed && is_tts_failure(a),
                },
                Err(e) => final(self).phase is Failed && a == Action::Fail(DirectorError::TTS(e)),
            },
    {
        match r {
            Ok(wav) => match measure_wav(&wav) {
                Some(d) => {
                    let k = self.effected.len();
                    let clip = TTSFile {
                        path: self.pending.clone(),
                        text: self.clips[k].text.clone(),
                        duration_ns: d,
                    };
                    self.effected.push(clip);
                    if self.effected.len() < self.clips.len() {
                        self.start_effect()
                    } else {
                        self.phase = Phase::Reading;
                        Action::ReadClips
                    }
                },
                None => self.fail(DirectorError::TTS(String::from_str("the processed clip is not a waveform"))),
            },
            Err(e) => self.fail(DirectorError::TTS(e)),
        }
    }

    /// The processed clips were read back (their bytes, in order). They are
    /// composed into one narration track, which is measured, and a fresh
    /// file of the workspace is picked for it.
    pub fn on_clips_read(&mut self, r: Result<Vec<Vec<u8>>, String>) -> (a: Action)
        requires
            old(self).wf(),
            old(self).phase is Reading,
        ensures
            final(self).wf(),
            final(self).config == old(self).config,
            final(self).job_id == old(self).job_id,
            final(self).material == old(self).material,
            final(self).workspace == old(self).workspace,
            final(self).narration_path == old(self).narration_path,
            match r {
                Ok(wavs) => if wavs@.len() == old(self).effected@.len() && composable(wavs@)
                    && decoded_duration_ns(
                    encoded_in(track_format(wavs@), track_samples(wavs@))->Some_0,
                ) is Some {
                    &&& final(self).phase is WritingNarration
                    &&& a is WriteNarration
                    &&& Some(a->wav@) == encoded_in(track_format(wavs@), track_samples(wavs@))
                    &&& decoded_duration_ns(a->wav@) == Some(final(self).narration_ns as nat)
                    &&& a->path == final(self).pending
                    &&& is_temp_file(final(self).pending@, old(self).workspace@, "-final.wav"@)
                    &&& subtitles_match(final(self).subtitles@, old(self).effected@)
                    &&& final(self).effected == old(self).effected
                } else {
                    final(self).phase is Failed && is_tts_failure(a)
                },
                Err(e) => final(self).phase is Failed && a == Action::Fail(DirectorError::TTS(e)),
            },
    {
        match r {
            Ok(wavs) => {
                if wavs.len() != self.effected.len() {
                    return self.fail(DirectorError::TTS(String::from_str("a processed clip is missing")));
                }
                match compose_audio(&wavs) {
                    Ok(track) => match measure_wav(&track) {
                        Some(d) => {
                            let path = new_temp_file(&self.workspace, "-final.wav");
                            self.narration_ns = d;
                            self.subtitles = subtitles_from(&self.effected);
                            self.pending = path.clone();
                            self.phase = Phase::WritingNarration;
                            Action::WriteNarration { path, wav: track }
                        },
                        None => self.fail(DirectorError::TTS(String::from_str("the narration track is not a waveform"))),
                    },
                    Err(e) => self.fail(e),
                }
            },
            Err(e) => self.fail(DirectorError::TTS(e)),
        }
    }

    /// The narration track was written (or not). With a subtitle writer the
    /// run asks for subtitles; without one it goes to the video stage.
    pub fn on_narration_written(&mut self, r: Result<(), String>) -> (a: Action)
        requires
            old(self).wf(),
            old(self).phase is WritingNarration,
        ensures
            final(self).wf(),
            final(self).config == old(self).config,
            final(self).job_id == old(self).job_id,
            final(self).material == old(self).material,
            final(self).workspace == old(self).workspace,
            final(self).narration_ns == old(self).narration_ns,
            match r {
                Ok(_) => {
                    &&& final(self).narration_path == Some(old(self).pending)
                    &&& final(self).subtitles == old(self).subtitles
                    &&& old(self).config.has_subtitle ==> final(self).phase is Subtitling
                        && a is WriteSubtitle
                    &&& !old(self).config.has_subtitle ==> final(self).video_stage(a)
                },
                Err(e) => final(self).phase is Failed && a == Action::Fail(DirectorError::TTS(e)),
            },
    {
        match r {
            Ok(_) => {
                self.narration_path = Some(self.pending.clone());
                if self.config.has_subtitle {
                    self.phase = Phase::Subtitling;
                    Action::WriteSubtitle
                } else {
                    self.decide_video()
                }
            },
            Err(e) => self.fail(DirectorError::TTS(e)),
        }
    }

    /// The subtitle writer answered with the subtitle file's path.
    pub fn on_subtitle_written(&mut self, r: Result<String, SubtitleError>) -> (a: Action)
        requires
            old(self).wf(),
            old(self).phase is Subtitling,
        ensures
            final(self).wf(),
            final(self).config == old(self).config,
            final(self).job_id == old(self).job_id,
            final(self).material == old(self).material,
            final(self).workspace == old(self).workspace,
            final(self).narration_path == old(self).narration_path,
            final(self).narration_ns == old(self).narration_ns,
            match r {
                Ok(p) => {
                    &&& final(self).subtitle_path == Some(p)
                    &&& final(self).video_stage(a)
                },
                Err(e) => {
                    &&& final(self).phase is Failed
                    &&& a is Fail
                    &&& a->Fail_0 is Subtitle
                    &&& a->Fail_0->Subtitle_0@ == subtitle_error_text(e)
                },
            },
    {
        match r {
            Ok(p) => {
                self.subtitle_path = Some(p);
                self.decide_video()
            },
            Err(e) => {
                let msg = e.message();
                self.fail(DirectorError::Subtitle(msg))
            },
        }
    }

    /// The video assembler answered with the silent track's path. Composing
    /// needs the narration and the subtitles; without both the run fails
    /// here with a compose error.
    pub fn on_video_assembled(&mut self, r: Result<String, VideoEditorError>) -> (a: Action)
        requires
            old(self).wf(),
            old(self).phase is Assembling,
        ensures
            final(self).wf(),
            final(self).config == old(self).config,
            final(self).job_id == old(self).job_id,
            final(self).material == old(self).material,
            final(self).workspace == old(self).workspace,
            final(self).narration_path == old(self).narration_path,
            final(self).narration_ns == old(self).narration_ns,
            match r {
                Ok(v) => if old(self).narration_path is Some && old(self).subtitle_path is Some {
                    &&& final(self).phase is Muxing
                    &&& final(self).video_path == Some(v)
                    &&& is_temp_file(final(self).pending@, old(self).workspace@, "-final.mp4"@)
                    &&& a == (Action::Mux {
                        video: v,
                        audio: old(self).narration_path->Some_0,
                        subtitle: old(self).subtitle_path->Some_0,
                        output: final(self).pending,
                    })
                } else {
                    final(self).phase is Failed && a is Fail && a->Fail_0 is Compose
                },
                Err(e) => {
                    &&& final(self).phase is Failed
                    &&& a is Fail
                    &&& a->Fail_0 is VideoEditor
                    &&& a->Fail_0->VideoEditor_0@ == video_error_text(e)
                },
            },
    {
        match r {
            Ok(v) => {
                self.video_path = Some(v.clone());
                match (&self.narration_path, &self.subtitle_path) {
                    (Some(audio), Some(subtitle)) => {
                        let audio = audio.clone();
                        let subtitle = subtitle.clone();
                        let output = new_temp_file(&self.workspace, "-final.mp4");
                        self.pending = output.clone();
                        self.phase = Phase::Muxing;
                        Action::Mux { video: v, audio, subtitle, output }
                    },
                    _ => self.fail(DirectorError::Compose(String::from_str("composing needs both narration and subtitles"))),
                }
            },
            Err(e) => {
                let msg = e.message();
                self.fail(DirectorError::VideoEditor(msg))
            },
        }
    }

    /// The final mux finished (or not). On success the run ends with the
    /// material's title and the muxed file.
    pub fn on_muxed(&mut self, r: Result<(), String>) -> (a: Action)
        requires
            old(self).wf(),
            old(self).phase is Muxing,
        ensures
            final(self).wf(),
            final(self).config == old(self).config,
            final(self).job_id == old(self).job_id,
            final(self).material == old(self).material,
            final(self).workspace == old(self).workspace,
            final(self).narration_path == old(self).narration_path,
            final(self).narration_ns == old(self).narration_ns,
            match r {
                Ok(_) => final(self).phase is Done && a == Action::Finish(
                    NewsShortVideo {
                        title: old(self).material->Some_0.title,
                        path: old(self).pending,
                    },
                ),
                Err(e) => final(self).phase is Failed && a == Action::Fail(DirectorError::Compose(e)),
            },
    {
        match r {
            Ok(_) => {
                let title = match &self.material {
                    Some(m) => m.title.clone(),
                    None => String::new(),
                };
                self.phase = Phase::Done;
                Action::Finish(NewsShortVideo { title, path: self.pending.clone() })
            },
            Err(e) => self.fail(DirectorError::Compose(e)),
        }
    }
}

/// A run without a video assembler never reaches the video, mux or done
/// phases, and its video stage is a video-assembler failure, whatever other
/// stages it has.
pub proof fn lemma_no_video_editor_fails(job: ShootJob, a: Action)
    requires
        job.wf(),
        !job.config.has_video_editor,
    ensures
        !(job.phase is Assembling || job.phase is Muxing || job.phase is Done),
        job.video_stage(a) ==> a is Fail && a->Fail_0 is VideoEditor,
{
}

/// A run reaches the mux step only with a narration synthesizer and a
/// subtitle writer configured: a run missing either fails at compose time
/// instead.
pub proof fn lemma_mux_needs_narration_and_subtitles(job: ShootJob)
    requires
        job.wf(),
        job.phase is Muxing,
    ensures
        job.config.has_tts,
        job.config.has_subtitle,
        job.config.has_video_editor,
{
}

/// With a narration track, the video track asked for lasts as long as the
/// narration track measured.
pub proof fn lemma_target_follows_narration(job: ShootJob)
    requires
        job.narration_path is Some,
    ensures
        job.target_spec() == job.narration_ns,
{
}

/// Without a narration synthesizer, the video track asked for lasts two
/// seconds per image of the material.
pub proof fn lemma_target_without_narration(job: ShootJob)
    requires
        job.wf(),
        !job.config.has_tts,
        job.material is Some,
        job.material->Some_0.pics@.len() <= MAX_DEFAULT_PICS,
    ensures
        job.target_spec() as int == 2 * job.material->Some_0.pics@.len() * NANOS_PER_SEC,
{
}

} // verus!
