//! The video pipeline: the background is stored, the audio converted and
//! measured, captions are made where there is text, and the encoder renders
//! the video. The pipeline decides; its caller acts and reports.

use vstd::prelude::*;
use vstd::string::StringExecFns;
use crate::captions::{caption_cues, caption_cues_from_text, status_text};
use crate::command::{
    format_seconds,
    seconds_text,
    stamped,
    stamped_name,
    upload_path,
    upload_path_of,
    Command,
    CommandModel,
    Outcome,
    OutcomeModel,
};
use crate::decimal::push_decimal;
use crate::error::{ErrorKind, Failure, FailureModel};
use crate::probe::{duration_of_report, probe_duration_ms};
use crate::segment::{lemma_segment_sizes, segments};
use crate::srt::{render_document, subtitle_document};
use crate::text::{lowercase_of, push_text, words};
use crate::tts::{diagnostic, diagnostic_of};
use crate::video::{
    classify_background,
    filter_graph,
    filter_graph_of,
    is_image_name,
    safe_name,
    sanitize_filename,
    AspectRatio,
    BackgroundKind,
};

verus! {

/// A video to make: the name of the uploaded background, the shape of the
/// canvas, the name of the audio file in the output directory, the narration
/// text, and the time stamp that names the files.
#[derive(Clone, Debug)]
pub struct VideoJob {
    pub background_name: String,
    pub aspect: AspectRatio,
    pub audio_filename: String,
    pub text: String,
    pub timestamp: u64,
}

/// What a job holds, as mathematical values.
pub struct VideoJobModel {
    pub background_name: Seq<char>,
    pub aspect: AspectRatio,
    pub audio_filename: Seq<char>,
    pub text: Seq<char>,
    pub timestamp: nat,
}

impl View for VideoJob {
    type V = VideoJobModel;

    open spec fn view(&self) -> VideoJobModel {
        VideoJobModel {
            background_name: self.background_name@,
            aspect: self.aspect,
            audio_filename: self.audio_filename@,
            text: self.text@,
            timestamp: self.timestamp as nat,
        }
    }
}

/// The stages of the pipeline. Each names the action whose outcome is
/// awaited, and holds what later stages need.
#[derive(Clone, Copy, Debug, PartialEq, Eq)]
pub enum VideoStage {
    /// The uploaded background is written to the output directory.
    StoringBackground,
    /// The audio is converted for muxing.
    Converting,
    /// The converted audio is measured.
    Probing,
    /// The subtitle document is written. The audio lasts `duration_ms`, and
    /// the document has `segments` blocks.
    StoringCaptions { duration_ms: u64, segments: u64 },
    /// The encoder renders the video, with `segments` captions if any.
    Rendering { segments: Option<u64> },
    /// The video file is looked for.
    Checking { segments: Option<u64> },
}

/// What the caller is to do next.
#[derive(Clone, Debug)]
pub enum VideoAction {
    /// Write the uploaded background to a file.
    StoreUpload { path: String },
    /// Run a program.
    Run(Command),
    /// Write a text to a file.
    StoreText { path: String, content: String },
    /// Find out whether a file exists.
    CheckFile { path: String },
}

/// How the pipeline goes on after an outcome.
#[derive(Clone, Debug)]
pub enum VideoStep {
    /// Another action, and the stage that awaits its outcome.
    Continue { stage: VideoStage, action: VideoAction },
    /// The video is there: its name, the status of the captions and the
    /// name of the subtitle document, where captions were made.
    Finished { video: String, captions: Option<String>, srt_file: Option<String> },
    /// The pipeline has failed; the files of `cleanup` are to be deleted.
    Failed { failure: Failure, cleanup: Vec<String> },
}

/// What an action holds, as mathematical values.
pub enum VideoActionModel {
    StoreUpload { path: Seq<char> },
    Run(CommandModel),
    StoreText { path: Seq<char>, content: Seq<char> },
    CheckFile { path: Seq<char> },
}

/// What a step holds, as mathematical values.
pub enum VideoStepModel {
    Continue { stage: VideoStage, action: VideoActionModel },
    Finished { video: Seq<char>, captions: Option<Seq<char>>, srt_file: Option<Seq<char>> },
    Failed { failure: FailureModel, cleanup: Seq<Seq<char>> },
}

impl View for VideoAction {
    type V = VideoActionModel;

    open spec fn view(&self) -> VideoActionModel {
        match self {
            VideoAction::StoreUpload { path } => VideoActionModel::StoreUpload { path: path@ },
            VideoAction::Run(command) => VideoActionModel::Run(command@),
            VideoAction::StoreText { path, content } => VideoActionModel::StoreText {
                path: path@,
                content: content@,
            },
            VideoAction::CheckFile { path } => VideoActionModel::CheckFile { path: path@ },
        }
    }
}

/// The view of a text that may be absent.
pub open spec fn text_view(text: Option<String>) -> Option<Seq<char>> {
    match text {
        Some(t) => Some(t@),
        None => None,
    }
}

impl View for VideoStep {
    type V = VideoStepModel;

    open spec fn view(&self) -> VideoStepModel {
        match self {
            VideoStep::Continue { stage, action } => VideoStepModel::Continue {
                stage: *stage,
                action: action@,
            },
            VideoStep::Finished { video, captions, srt_file } => VideoStepModel::Finished {
                video: video@,
                captions: text_view(*captions),
                srt_file: text_view(*srt_file),
            },
            VideoStep::Failed { failure, cleanup } => VideoStepModel::Failed {
                failure: failure@,
                cleanup: cleanup.deep_view(),
            },
        }
    }
}

/// The name under which the background is stored: the time stamp and what
/// is kept of the uploaded name.
pub open spec fn background_filename_of(job: VideoJobModel) -> Seq<char> {
    stamped("bg_"@, job.timestamp, "_"@) + safe_name(job.background_name)
}

/// The place of the stored background.
pub open spec fn background_path_of(job: VideoJobModel) -> Seq<char> {
    upload_path_of(background_filename_of(job))
}

/// The place of the audio as it was made.
pub open spec fn source_audio_path_of(job: VideoJobModel) -> Seq<char> {
    upload_path_of(job.audio_filename)
}

/// The place of the converted audio.
pub open spec fn converted_audio_path_of(job: VideoJobModel) -> Seq<char> {
    stamped("uploads/converted_"@, job.timestamp, ".aac"@)
}

/// The name of the subtitle document.
pub open spec fn captions_filename_of(job: VideoJobModel) -> Seq<char> {
    stamped("captions_"@, job.timestamp, ".srt"@)
}

/// The place of the subtitle document.
pub open spec fn captions_path_of(job: VideoJobModel) -> Seq<char> {
    upload_path_of(captions_filename_of(job))
}

/// The name of the video.
pub open spec fn video_filename_of(job: VideoJobModel) -> Seq<char> {
    stamped("video_"@, job.timestamp, ".mp4"@)
}

/// The place of the video.
pub open spec fn video_path_of(job: VideoJobModel) -> Seq<char> {
    upload_path_of(video_filename_of(job))
}

/// The kind of the background of a job.
pub open spec fn background_kind_of(job: VideoJobModel) -> BackgroundKind {
    if is_image_name(lowercase_of(job.background_name)) {
        BackgroundKind::Still
    } else {
        BackgroundKind::Motion
    }
}

/// The transient files of a job: the converted audio and the stored
/// background.
pub open spec fn transient_files_of(job: VideoJobModel) -> Seq<Seq<char>> {
    seq![converted_audio_path_of(job), background_path_of(job)]
}

/// The encoder, resampling the audio to 44100 Hz stereo in the codec that
/// the video carries.
pub open spec fn convert_command_of(job: VideoJobModel) -> CommandModel {
    CommandModel {
        program: "ffmpeg"@,
        args: seq![
            "-y"@,
            "-i"@,
            source_audio_path_of(job),
            "-ar"@,
            "44100"@,
            "-ac"@,
            "2"@,
            "-c:a"@,
            "aac"@,
            converted_audio_path_of(job),
        ],
        input: None,
        cleanup: Seq::empty(),
    }
}

/// The inspection tool, reporting the duration of the converted audio as
/// JSON.
pub open spec fn probe_command_of(job: VideoJobModel) -> CommandModel {
    CommandModel {
        program: "ffprobe"@,
        args: seq![
            "-v"@,
            "error"@,
            "-show_entries"@,
            "format=duration"@,
            "-of"@,
            "json"@,
            converted_audio_path_of(job),
        ],
        input: None,
        cleanup: Seq::empty(),
    }
}

/// The options in front of the background input. A still is looped at thirty
/// frames per second for exactly the duration of the audio; a clip is looped
/// without end.
pub open spec fn input_options_of(kind: BackgroundKind, duration_ms: nat) -> Seq<Seq<char>> {
    match kind {
        BackgroundKind::Still => seq![
            "-loop"@,
            "1"@,
            "-framerate"@,
            "30"@,
            "-t"@,
            seconds_text(duration_ms),
        ],
        BackgroundKind::Motion => seq!["-stream_loop"@, "-1"@],
    }
}

/// The options behind the inputs: the looped clip is cut to the duration of
/// the audio.
pub open spec fn trim_options_of(kind: BackgroundKind, duration_ms: nat) -> Seq<Seq<char>> {
    match kind {
        BackgroundKind::Still => Seq::empty(),
        BackgroundKind::Motion => seq!["-t"@, seconds_text(duration_ms)],
    }
}

/// The arguments of the encoder for a background of the given kind.
pub open spec fn render_args_of(
    kind: BackgroundKind,
    duration_ms: nat,
    background: Seq<char>,
    audio: Seq<char>,
    graph: Seq<char>,
    output: Seq<char>,
) -> Seq<Seq<char>> {
    seq!["-y"@] + input_options_of(kind, duration_ms) + seq!["-i"@, background, "-i"@, audio]
        + trim_options_of(kind, duration_ms) + seq![
        "-filter_complex"@,
        graph,
        "-map"@,
        "[v]"@,
        "-map"@,
        "1:a"@,
        "-c:v"@,
        "libx264"@,
        "-preset"@,
        "fast"@,
        "-c:a"@,
        "copy"@,
        "-movflags"@,
        "+faststart"@,
        "-shortest"@,
        output,
    ]
}

/// The encoder, rendering the video of a job whose audio lasts
/// `duration_ms`, with captions or without. The transient files are deleted
/// afterwards.
pub open spec fn render_command_of(job: VideoJobModel, duration_ms: nat, captioned: bool) -> CommandModel {
    CommandModel {
        program: "ffmpeg"@,
        args: render_args_of(
            background_kind_of(job),
            duration_ms,
            background_path_of(job),
            converted_audio_path_of(job),
            filter_graph_of(
                job.aspect,
                if captioned {
                    Some(captions_path_of(job))
                } else {
                    None
                },
            ),
            video_path_of(job),
        ),
        input: None,
        cleanup: transient_files_of(job),
    }
}

/// The first stage and action: storing the background.
pub open spec fn video_first(job: VideoJobModel) -> VideoStepModel {
    VideoStepModel::Continue {
        stage: VideoStage::StoringBackground,
        action: VideoActionModel::StoreUpload { path: background_path_of(job) },
    }
}

/// A failure before the encoder has rendered: the transient files are still
/// to be deleted.
pub open spec fn failed_early(job: VideoJobModel, kind: ErrorKind, message: Seq<char>) -> VideoStepModel {
    VideoStepModel::Failed {
        failure: FailureModel { kind, message },
        cleanup: transient_files_of(job),
    }
}

/// Rendering without captions.
pub open spec fn render_plain(job: VideoJobModel, duration_ms: nat) -> VideoStepModel {
    VideoStepModel::Continue {
        stage: VideoStage::Rendering { segments: None },
        action: VideoActionModel::Run(render_command_of(job, duration_ms, false)),
    }
}

/// How the pipeline goes on once the audio is known to last `duration_ms`.
/// Where the text has words and the duration is positive, the subtitle
/// document is written first; else the video is rendered without captions.
pub open spec fn after_probe(job: VideoJobModel, duration_ms: nat) -> VideoStepModel {
    if words(job.text).len() > 0 && duration_ms > 0 {
        VideoStepModel::Continue {
            stage: VideoStage::StoringCaptions {
                duration_ms: duration_ms as u64,
                segments: segments(words(job.text)).len() as u64,
            },
            action: VideoActionModel::StoreText {
                path: captions_path_of(job),
                content: subtitle_document(caption_cues(job.text, duration_ms)),
            },
        }
    } else {
        render_plain(job, duration_ms)
    }
}

/// How the pipeline goes on from `stage` after `outcome`.
///
/// Each stage that succeeds leads to the next. A background that cannot be
/// stored, an audio that cannot be converted or measured, and an encoder that
/// fails end the pipeline; a subtitle document that cannot be written does
/// not: the video is then rendered without captions. After the encoder has
/// succeeded the video file must exist.
pub open spec fn video_next(job: VideoJobModel, stage: VideoStage, outcome: OutcomeModel) -> VideoStepModel {
    match stage {
        VideoStage::StoringBackground => if outcome is Succeeded {
            VideoStepModel::Continue {
                stage: VideoStage::Converting,
                action: VideoActionModel::Run(convert_command_of(job)),
            }
        } else {
            VideoStepModel::Failed {
                failure: FailureModel {
                    kind: ErrorKind::Storage,
                    message: "Could not store the background: "@ + diagnostic_of(outcome),
                },
                cleanup: Seq::empty(),
            }
        },
        VideoStage::Converting => match outcome {
            OutcomeModel::Succeeded { output } => VideoStepModel::Continue {
                stage: VideoStage::Probing,
                action: VideoActionModel::Run(probe_command_of(job)),
            },
            OutcomeModel::Failed { diagnostic } => failed_early(
                job,
                ErrorKind::ToolFailure,
                "Audio conversion failed: "@ + diagnostic,
            ),
            OutcomeModel::Unavailable => failed_early(
                job,
                ErrorKind::EngineUnavailable,
                "Audio conversion failed: "@ + diagnostic_of(outcome),
            ),
        },
        VideoStage::Probing => match outcome {
            OutcomeModel::Succeeded { output } => match duration_of_report(output) {
                Ok(duration_ms) => after_probe(job, duration_ms),
                Err(failure) => VideoStepModel::Failed {
                    failure,
                    cleanup: transient_files_of(job),
                },
            },
            OutcomeModel::Failed { diagnostic } => failed_early(
                job,
                ErrorKind::Duration,
                "Could not determine audio duration"@,
            ),
            OutcomeModel::Unavailable => failed_early(
                job,
                ErrorKind::EngineUnavailable,
                "Could not determine audio duration"@,
            ),
        },
        VideoStage::StoringCaptions { duration_ms, segments } => if outcome is Succeeded {
            VideoStepModel::Continue {
                stage: VideoStage::Rendering { segments: Some(segments) },
                action: VideoActionModel::Run(render_command_of(job, duration_ms as nat, true)),
            }
        } else {
            render_plain(job, duration_ms as nat)
        },
        VideoStage::Rendering { segments } => match outcome {
            OutcomeModel::Succeeded { output } => VideoStepModel::Continue {
                stage: VideoStage::Checking { segments },
                action: VideoActionModel::CheckFile { path: video_path_of(job) },
            },
            OutcomeModel::Failed { diagnostic } => VideoStepModel::Failed {
                failure: FailureModel {
                    kind: ErrorKind::ToolFailure,
                    message: "Video creation failed: "@ + diagnostic,
                },
                cleanup: Seq::empty(),
            },
            OutcomeModel::Unavailable => VideoStepModel::Failed {
                failure: FailureModel {
                    kind: ErrorKind::EngineUnavailable,
                    message: "Video creation failed: "@ + diagnostic_of(outcome),
                },
                cleanup: Seq::empty(),
            },
        },
        VideoStage::Checking { segments } => if outcome is Succeeded {
            VideoStepModel::Finished {
                video: video_filename_of(job),
                captions: match segments {
                    Some(count) => Some(status_text(count as nat)),
                    None => None,
                },
                srt_file: match segments {
                    Some(count) => Some(captions_filename_of(job)),
                    None => None,
                },
            }
        } else {
            VideoStepModel::Failed {
                failure: FailureModel {
                    kind: ErrorKind::OutputMissing,
                    message: "Output video not generated"@,
                },
                cleanup: Seq::empty(),
            }
        },
    }
}

/// The place of a stage in the order of the pipeline.
pub open spec fn video_stage_rank(stage: VideoStage) -> nat {
    match stage {
        VideoStage::StoringBackground => 0,
        VideoStage::Converting => 1,
        VideoStage::Probing => 2,
        VideoStage::StoringCaptions { .. } => 3,
        VideoStage::Rendering { .. } => 4,
        VideoStage::Checking { .. } => 5,
    }
}

/// The pipeline only moves forward, so it ends after six outcomes at most.
/// The encoder that renders always deletes the transient files, and a
/// failure before it asks for them to be deleted; the video is reported only
/// after it was found.
pub proof fn lemma_pipeline_moves_forward(job: VideoJobModel, stage: VideoStage, outcome: OutcomeModel)
    ensures
        video_next(job, stage, outcome) matches VideoStepModel::Continue { stage: next, action }
            ==> video_stage_rank(stage) < video_stage_rank(next),
        video_next(job, stage, outcome) matches VideoStepModel::Continue { stage: next, action }
            ==> (next is Rendering ==> (action matches VideoActionModel::Run(command)
            && command.cleanup == transient_files_of(job))),
        video_next(job, stage, outcome) matches VideoStepModel::Failed { failure, cleanup } ==> (
        cleanup == transient_files_of(job) <==> stage is Converting || stage is Probing),
        video_next(job, stage, outcome) is Finished ==> stage is Checking && outcome is Succeeded,
{
}

/// Where the pipeline stands after the outcomes of a run, taken in order
/// from `step` on; outcomes that arrive after it has ended change nothing.
pub open spec fn video_run(job: VideoJobModel, step: VideoStepModel, outcomes: Seq<OutcomeModel>) -> VideoStepModel
    decreases outcomes.len(),
{
    match step {
        VideoStepModel::Continue { stage, action } => if outcomes.len() == 0 {
            step
        } else {
            video_run(job, video_next(job, stage, outcomes[0]), outcomes.drop_first())
        },
        _ => step,
    }
}

/// Every run of the pipeline has ended after six outcomes, and one in which
/// every action succeeds ends with the video.
pub proof fn lemma_pipeline_ends(job: VideoJobModel, outcomes: Seq<OutcomeModel>)
    ensures
        outcomes.len() >= 6 ==> !(video_run(job, video_first(job), outcomes) is Continue),
        outcomes.len() >= 6 && (forall|k: int| 0 <= k < 6 ==> (#[trigger] outcomes[k]) is Succeeded)
            && duration_of_report(outcomes[2]->output) is Ok ==> video_run(
            job,
            video_first(job),
            outcomes,
        ) is Finished,
{
    reveal_with_fuel(video_run, 8);
    let second = outcomes.drop_first();
    let third = second.drop_first();
    let fourth = third.drop_first();
    let fifth = fourth.drop_first();
    let sixth = fifth.drop_first();
    if outcomes.len() >= 6 {
        assert(second[0] == outcomes[1]);
        assert(third[0] == outcomes[2]);
        assert(fourth[0] == outcomes[3]);
        assert(fifth[0] == outcomes[4]);
        assert(sixth[0] == outcomes[5]);
    }
}

/// The arguments of the encoder for a background of the given kind.
pub fn render_args(
    kind: BackgroundKind,
    duration_ms: u64,
    background: &str,
    audio: &str,
    graph: &str,
    output: &str,
) -> (args: Vec<String>)
    ensures
        args.deep_view() == render_args_of(
            kind,
            duration_ms as nat,
            background@,
            audio@,
            graph@,
            output@,
        ),
{
    let length = format_seconds(duration_ms);
    let mut args: Vec<String> = Vec::new();
    push_text(&mut args, "-y");
    match kind {
        BackgroundKind::Still => {
            push_text(&mut args, "-loop");
            push_text(&mut args, "1");
            push_text(&mut args, "-framerate");
            push_text(&mut args, "30");
            push_text(&mut args, "-t");
            push_text(&mut args, length.as_str());
        },
        BackgroundKind::Motion => {
            push_text(&mut args, "-stream_loop");
            push_text(&mut args, "-1");
        },
    }
    push_text(&mut args, "-i");
    push_text(&mut args, background);
    push_text(&mut args, "-i");
    push_text(&mut args, audio);
    match kind {
        BackgroundKind::Still => {},
        BackgroundKind::Motion => {
            push_text(&mut args, "-t");
            push_text(&mut args, length.as_str());
        },
    }
    push_text(&mut args, "-filter_complex");
    push_text(&mut args, graph);
    push_text(&mut args, "-map");
    push_text(&mut args, "[v]");
    push_text(&mut args, "-map");
    push_text(&mut args, "1:a");
    push_text(&mut args, "-c:v");
    push_text(&mut args, "libx264");
    push_text(&mut args, "-preset");
    push_text(&mut args, "fast");
    push_text(&mut args, "-c:a");
    push_text(&mut args, "copy");
    push_text(&mut args, "-movflags");
    push_text(&mut args, "+faststart");
    push_text(&mut args, "-shortest");
    push_text(&mut args, output);
    args
}

impl VideoJob {
    /// The name under which the background is stored.
    pub fn background_filename(&self) -> (out: String)
        ensures
            out@ == background_filename_of(self@),
    {
        let mut out = stamped_name("bg_", self.timestamp, "_");
        let kept = sanitize_filename(self.background_name.as_str());
        out.append(kept.as_str());
        out
    }

    /// The place of the stored background.
    pub fn background_path(&self) -> (out: String)
        ensures
            out@ == background_path_of(self@),
    {
        let name = self.background_filename();
        upload_path(name.as_str())
    }

    /// The place of the audio as it was made.
    pub fn source_audio_path(&self) -> (out: String)
        ensures
            out@ == source_audio_path_of(self@),
    {
        upload_path(self.audio_filename.as_str())
    }

    /// The place of the converted audio.
    pub fn converted_audio_path(&self) -> (out: String)
        ensures
            out@ == converted_audio_path_of(self@),
    {
        stamped_name("uploads/converted_", self.timestamp, ".aac")
    }

    /// The name of the subtitle document.
    pub fn captions_filename(&self) -> (out: String)
        ensures
            out@ == captions_filename_of(self@),
    {
        stamped_name("captions_", self.timestamp, ".srt")
    }

    /// The place of the subtitle document.
    pub fn captions_path(&self) -> (out: String)
        ensures
            out@ == captions_path_of(self@),
    {
        let name = self.captions_filename();
        upload_path(name.as_str())
    }

    /// The name of the video.
    pub fn video_filename(&self) -> (out: String)
        ensures
            out@ == video_filename_of(self@),
    {
        stamped_name("video_", self.timestamp, ".mp4")
    }

    /// The place of the video.
    pub fn video_path(&self) -> (out: String)
        ensures
            out@ == video_path_of(self@),
    {
        let name = self.video_filename();
        upload_path(name.as_str())
    }

    /// The kind of the background.
    pub fn background_kind(&self) -> (out: BackgroundKind)
        ensures
            out == background_kind_of(self@),
    {
        classify_background(self.background_name.as_str())
    }

    /// The transient files: the converted audio and the stored background.
    pub fn transient_files(&self) -> (out: Vec<String>)
        ensures
            out.deep_view() == transient_files_of(self@),
    {
        let audio = self.converted_audio_path();
        let background = self.background_path();
        let mut out: Vec<String> = Vec::new();
        push_text(&mut out, audio.as_str());
        push_text(&mut out, background.as_str());
        out
    }

    /// The first stage and action of the pipeline.
    pub fn start(&self) -> (out: VideoStep)
        ensures
            out@ == video_first(self@),
    {
        VideoStep::Continue {
            stage: VideoStage::StoringBackground,
            action: VideoAction::StoreUpload { path: self.background_path() },
        }
    }

    fn failed_early(&self, kind: ErrorKind, prefix: &str, detail: &str) -> (out: VideoStep)
        ensures
            out@ == failed_early(self@, kind, prefix@ + detail@),
    {
        VideoStep::Failed {
            failure: Failure::with_detail(kind, prefix, detail),
            cleanup: self.transient_files(),
        }
    }

    fn failed_late(kind: ErrorKind, prefix: &str, detail: &str) -> (out: VideoStep)
        ensures
            out@ == (VideoStepModel::Failed {
                failure: FailureModel { kind, message: prefix@ + detail@ },
                cleanup: Seq::empty(),
            }),
    {
        let out = VideoStep::Failed {
            failure: Failure::with_detail(kind, prefix, detail),
            cleanup: Vec::new(),
        };
        assert(out@->Failed_cleanup =~= Seq::<Seq<char>>::empty());
        out
    }

    fn render_plain(&self, duration_ms: u64) -> (out: VideoStep)
        ensures
            out@ == render_plain(self@, duration_ms as nat),
    {
        VideoStep::Continue {
            stage: VideoStage::Rendering { segments: None },
            action: VideoAction::Run(self.render_command(duration_ms, false)),
        }
    }

    /// How the pipeline goes on once the audio is known to last
    /// `duration_ms`.
    pub fn after_probe(&self, duration_ms: u64) -> (out: VideoStep)
        ensures
            out@ == after_probe(self@, duration_ms as nat),
    {
        match caption_cues_from_text(self.text.as_str(), duration_ms) {
            Ok(cues) => {
                if cues.len() > 0 {
                    let content = render_document(&cues);
                    VideoStep::Continue {
                        stage: VideoStage::StoringCaptions {
                            duration_ms,
                            segments: cues.len() as u64,
                        },
                        action: VideoAction::StoreText { path: self.captions_path(), content },
                    }
                } else {
                    proof {
                        lemma_segment_sizes(words(self.text@));
                    }
                    self.render_plain(duration_ms)
                }
            },
            Err(_) => self.render_plain(duration_ms),
        }
    }

    /// How the pipeline goes on from `stage` after `outcome`.
    pub fn step(&self, stage: VideoStage, outcome: &Outcome) -> (out: VideoStep)
        ensures
            out@ == video_next(self@, stage, outcome@),
    {
        let detail = diagnostic(outcome);
        let empty = String::new();
        match stage {
            VideoStage::StoringBackground => match outcome {
                Outcome::Succeeded { .. } => VideoStep::Continue {
                    stage: VideoStage::Converting,
                    action: VideoAction::Run(self.convert_command()),
                },
                _ => Self::failed_late(
                    ErrorKind::Storage,
                    "Could not store the background: ",
                    detail.as_str(),
                ),
            },
            VideoStage::Converting => match outcome {
                Outcome::Succeeded { .. } => VideoStep::Continue {
                    stage: VideoStage::Probing,
                    action: VideoAction::Run(self.probe_command()),
                },
                Outcome::Failed { .. } => self.failed_early(
                    ErrorKind::ToolFailure,
                    "Audio conversion failed: ",
                    detail.as_str(),
                ),
                Outcome::Unavailable => self.failed_early(
                    ErrorKind::EngineUnavailable,
                    "Audio conversion failed: ",
                    detail.as_str(),
                ),
            },
            VideoStage::Probing => match outcome {
                Outcome::Succeeded { output } => match probe_duration_ms(output.as_str()) {
                    Ok(duration_ms) => self.after_probe(duration_ms),
                    Err(failure) => VideoStep::Failed { failure, cleanup: self.transient_files() },
                },
                Outcome::Failed { .. } => self.failed_early(
                    ErrorKind::Duration,
                    "Could not determine audio duration",
                    empty.as_str(),
                ),
                Outcome::Unavailable => self.failed_early(
                    ErrorKind::EngineUnavailable,
                    "Could not determine audio duration",
                    empty.as_str(),
                ),
            },
            VideoStage::StoringCaptions { duration_ms, segments } => match outcome {
                Outcome::Succeeded { .. } => VideoStep::Continue {
                    stage: VideoStage::Rendering { segments: Some(segments) },
                    action: VideoAction::Run(self.render_command(duration_ms, true)),
                },
                _ => self.render_plain(duration_ms),
            },
            VideoStage::Rendering { segments } => match outcome {
                Outcome::Succeeded { .. } => VideoStep::Continue {
                    stage: VideoStage::Checking { segments },
                    action: VideoAction::CheckFile { path: self.video_path() },
                },
                Outcome::Failed { .. } => Self::failed_late(
                    ErrorKind::ToolFailure,
                    "Video creation failed: ",
                    detail.as_str(),
                ),
                Outcome::Unavailable => Self::failed_late(
                    ErrorKind::EngineUnavailable,
                    "Video creation failed: ",
                    detail.as_str(),
                ),
            },
            VideoStage::Checking { segments } => match outcome {
                Outcome::Succeeded { .. } => match segments {
                    Some(count) => {
                        let mut status = String::from_str("Generated ");
                        push_decimal(&mut status, count);
                        status.append(" caption segments");
                        VideoStep::Finished {
                            video: self.video_filename(),
                            captions: Some(status),
                            srt_file: Some(self.captions_filename()),
                        }
                    },
                    None => VideoStep::Finished {
                        video: self.video_filename(),
                        captions: None,
                        srt_file: None,
                    },
                },
                _ => Self::failed_late(
                    ErrorKind::OutputMissing,
                    "Output video not generated",
                    empty.as_str(),
                ),
            },
        }
    }

    /// The command that converts the audio.
    pub fn convert_command(&self) -> (out: Command)
        ensures
            out@ == convert_command_of(self@),
    {
        let source = self.source_audio_path();
        let target = self.converted_audio_path();
        let mut args: Vec<String> = Vec::new();
        push_text(&mut args, "-y");
        push_text(&mut args, "-i");
        push_text(&mut args, source.as_str());
        push_text(&mut args, "-ar");
        push_text(&mut args, "44100");
        push_text(&mut args, "-ac");
        push_text(&mut args, "2");
        push_text(&mut args, "-c:a");
        push_text(&mut args, "aac");
        push_text(&mut args, target.as_str());
        let out = Command {
            program: String::from_str("ffmpeg"),
            args,
            input: None,
            cleanup: Vec::new(),
        };
        assert(out@.args =~= convert_command_of(self@).args);
        assert(out@.cleanup =~= convert_command_of(self@).cleanup);
        out
    }

    /// The command that measures the converted audio.
    pub fn probe_command(&self) -> (out: Command)
        ensures
            out@ == probe_command_of(self@),
    {
        let target = self.converted_audio_path();
        let mut args: Vec<String> = Vec::new();
        push_text(&mut args, "-v");
        push_text(&mut args, "error");
        push_text(&mut args, "-show_entries");
        push_text(&mut args, "format=duration");
        push_text(&mut args, "-of");
        push_text(&mut args, "json");
        push_text(&mut args, target.as_str());
        let out = Command {
            program: String::from_str("ffprobe"),
            args,
            input: None,
            cleanup: Vec::new(),
        };
        assert(out@.args =~= probe_command_of(self@).args);
        assert(out@.cleanup =~= probe_command_of(self@).cleanup);
        out
    }

    /// The command that renders the video.
    pub fn render_command(&self, duration_ms: u64, captioned: bool) -> (out: Command)
        ensures
            out@ == render_command_of(self@, duration_ms as nat, captioned),
    {
        let background = self.background_path();
        let audio = self.converted_audio_path();
        let output = self.video_path();
        let graph = if captioned {
            let document = self.captions_path();
            filter_graph(self.aspect, Some(document.as_str()))
        } else {
            filter_graph(self.aspect, None)
        };
        let args = render_args(
            self.background_kind(),
            duration_ms,
            background.as_str(),
            audio.as_str(),
            graph.as_str(),
            output.as_str(),
        );
        Command {
            program: String::from_str("ffmpeg"),
            args,
            input: None,
            cleanup: self.transient_files(),
        }
    }
}

} // verus!
