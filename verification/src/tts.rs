//! The speech synthesis chain: a primary engine, a secondary engine whose
//! waveform is transcoded, and a silent track when neither is there.

use vstd::prelude::*;
use vstd::string::StringExecFns;
use crate::command::{
    format_seconds,
    seconds_text,
    stamped,
    stamped_name,
    upload_path,
    upload_path_of,
    Command,
    CommandModel,
    Outcome,
    OutcomeModel,
};
use crate::decimal::{decimal, decimal_string};
use crate::error::{ErrorKind, Failure, FailureModel};
use crate::text::{push_text, split_words, words};
use crate::voices::{engine_voice, engine_voice_of};

verus! {

/// Words per minute at normal speed.
pub const BASE_WORDS_PER_MINUTE: u64 = 175;

/// The shortest silent track, in milliseconds.
pub const MIN_SILENCE_MS: u64 = 2000;

/// The speech rate in words per minute at a speed given in thousandths of
/// normal speed: 175 times the speed, rounded to the nearest whole number.
pub open spec fn words_per_minute_of(speed_milli: nat) -> nat {
    (175 * speed_milli + 500) / 1000
}

/// The length in milliseconds of the silent track that stands for `words`
/// words: the time they take at 175 words per minute times the speed, rounded
/// down, but at least two seconds. Where the speed is zero the words would
/// take for ever; the length is capped at the largest 64-bit number.
pub open spec fn silence_ms(words: nat, speed_milli: nat) -> nat {
    if words == 0 {
        2000
    } else if speed_milli == 0 {
        u64::MAX as nat
    } else {
        let ms = words * 60_000_000 / (175 * speed_milli);
        if ms < 2000 {
            2000
        } else if ms > u64::MAX {
            u64::MAX as nat
        } else {
            ms
        }
    }
}

/// The speech rate in words per minute at the given speed.
pub fn words_per_minute(speed_milli: u32) -> (out: u32)
    ensures
        out == words_per_minute_of(speed_milli as nat),
{
    ((BASE_WORDS_PER_MINUTE * (speed_milli as u64) + 500) / 1000) as u32
}

/// The length in milliseconds of the silent track for `words` words.
pub fn silence_duration_ms(words: u64, speed_milli: u32) -> (out: u64)
    ensures
        out == silence_ms(words as nat, speed_milli as nat),
        out >= MIN_SILENCE_MS,
{
    if words == 0 {
        MIN_SILENCE_MS
    } else if speed_milli == 0 {
        u64::MAX
    } else {
        let per_minute: u64 = BASE_WORDS_PER_MINUTE * (speed_milli as u64);
        let ms: u128 = (words as u128) * 60_000_000 / (per_minute as u128);
        if ms < MIN_SILENCE_MS as u128 {
            MIN_SILENCE_MS
        } else if ms > u64::MAX as u128 {
            u64::MAX
        } else {
            ms as u64
        }
    }
}

/// A request for speech: the text, the language, the regional variant of
/// the voice, the speed in thousandths of normal speed, and the time stamp
/// that names the files. The jobs that `tts_request` makes have words and a
/// speed above zero.
#[derive(Clone, Debug)]
pub struct TtsJob {
    pub text: String,
    pub lang: String,
    pub voice: String,
    pub speed_milli: u32,
    pub timestamp: u64,
}

/// What a request for speech holds, as mathematical values.
pub struct TtsJobModel {
    pub text: Seq<char>,
    pub lang: Seq<char>,
    pub voice: Seq<char>,
    pub speed_milli: nat,
    pub timestamp: nat,
}

impl View for TtsJob {
    type V = TtsJobModel;

    open spec fn view(&self) -> TtsJobModel {
        TtsJobModel {
            text: self.text@,
            lang: self.lang@,
            voice: self.voice@,
            speed_milli: self.speed_milli as nat,
            timestamp: self.timestamp as nat,
        }
    }
}

/// The stages of the chain. Each names the action whose outcome is awaited.
#[derive(Clone, Copy, Debug, PartialEq, Eq, Structural)]
pub enum TtsStage {
    /// The primary engine runs.
    Primary,
    /// The secondary engine runs.
    Secondary,
    /// The waveform of the secondary engine is written to a file.
    Storing,
    /// The waveform is transcoded to the target format.
    Transcoding,
    /// The silent track is encoded.
    Silence,
    /// The audio file is looked for.
    Checking,
}

/// What the caller is to do next.
#[derive(Clone, Debug)]
pub enum TtsAction {
    /// Run a program.
    Run(Command),
    /// Write the standard output of the program that ran last to a file.
    StoreOutput { path: String },
    /// Find out whether a file exists.
    CheckFile { path: String },
}

/// How the chain goes on after an outcome.
#[derive(Clone, Debug)]
pub enum TtsStep {
    /// Another action, and the stage that awaits its outcome.
    Continue { stage: TtsStage, action: TtsAction },
    /// The audio file is there. `silent` says that it holds no speech.
    Finished { audio_path: String, filename: String, silent: bool },
    /// The chain has failed.
    Failed(Failure),
}

/// What an action holds, as mathematical values.
pub enum TtsActionModel {
    Run(CommandModel),
    StoreOutput { path: Seq<char> },
    CheckFile { path: Seq<char> },
}

/// What a step holds, as mathematical values.
pub enum TtsStepModel {
    Continue { stage: TtsStage, action: TtsActionModel },
    Finished { audio_path: Seq<char>, filename: Seq<char>, silent: bool },
    Failed(FailureModel),
}

impl View for TtsAction {
    type V = TtsActionModel;

    open spec fn view(&self) -> TtsActionModel {
        match self {
            TtsAction::Run(command) => TtsActionModel::Run(command@),
            TtsAction::StoreOutput { path } => TtsActionModel::StoreOutput { path: path@ },
            TtsAction::CheckFile { path } => TtsActionModel::CheckFile { path: path@ },
        }
    }
}

impl View for TtsStep {
    type V = TtsStepModel;

    open spec fn view(&self) -> TtsStepModel {
        match self {
            TtsStep::Continue { stage, action } => TtsStepModel::Continue {
                stage: *stage,
                action: action@,
            },
            TtsStep::Finished { audio_path, filename, silent } => TtsStepModel::Finished {
                audio_path: audio_path@,
                filename: filename@,
                silent: *silent,
            },
            TtsStep::Failed(failure) => TtsStepModel::Failed(failure@),
        }
    }
}

/// The name of the audio file of a request.
pub open spec fn audio_filename_of(timestamp: nat) -> Seq<char> {
    stamped("output_"@, timestamp, ".mp3"@)
}

/// The place of the audio file of a request.
pub open spec fn audio_path_of(timestamp: nat) -> Seq<char> {
    upload_path_of(audio_filename_of(timestamp))
}

/// The place of the waveform of the secondary engine.
pub open spec fn wave_path_of(timestamp: nat) -> Seq<char> {
    stamped("uploads/temp_"@, timestamp, ".wav"@)
}

/// The primary engine: it takes the voice that the language and the variant
/// select, the rate in words per minute, the place of the audio file and the
/// text, and writes the target format itself.
pub open spec fn primary_command_of(job: TtsJobModel) -> CommandModel {
    CommandModel {
        program: "espeak-ng"@,
        args: seq![
            "-v"@,
            engine_voice_of(job.lang, job.voice),
            "-s"@,
            decimal(words_per_minute_of(job.speed_milli)),
            "-w"@,
            audio_path_of(job.timestamp),
            job.text,
        ],
        input: None,
        cleanup: Seq::empty(),
    }
}

/// The secondary engine: it reads the text from its standard input and
/// writes a waveform to its standard output.
pub open spec fn secondary_command_of(job: TtsJobModel) -> CommandModel {
    CommandModel {
        program: "festival"@,
        args: seq!["--tts"@],
        input: Some(job.text),
        cleanup: Seq::empty(),
    }
}

/// The encoder, turning the stored waveform into the audio file; the
/// waveform is deleted afterwards.
pub open spec fn transcode_command_of(job: TtsJobModel) -> CommandModel {
    CommandModel {
        program: "ffmpeg"@,
        args: seq![
            "-y"@,
            "-i"@,
            wave_path_of(job.timestamp),
            "-codec:a"@,
            "libmp3lame"@,
            "-b:a"@,
            "128k"@,
            audio_path_of(job.timestamp),
        ],
        input: None,
        cleanup: seq![wave_path_of(job.timestamp)],
    }
}

/// The encoder, writing a silent track as long as the words of the text
/// would take.
pub open spec fn silence_command_of(job: TtsJobModel) -> CommandModel {
    CommandModel {
        program: "ffmpeg"@,
        args: seq![
            "-y"@,
            "-f"@,
            "lavfi"@,
            "-i"@,
            "anullsrc=channel_layout=stereo:sample_rate=44100"@,
            "-t"@,
            seconds_text(silence_ms(words(job.text).len(), job.speed_milli)),
            "-codec:a"@,
            "libmp3lame"@,
            "-b:a"@,
            "128k"@,
            audio_path_of(job.timestamp),
        ],
        input: None,
        cleanup: Seq::empty(),
    }
}

/// The first stage and action of the chain: the primary engine.
pub open spec fn tts_first(job: TtsJobModel) -> TtsStepModel {
    TtsStepModel::Continue {
        stage: TtsStage::Primary,
        action: TtsActionModel::Run(primary_command_of(job)),
    }
}

/// Looking for the audio file.
pub open spec fn check_audio(job: TtsJobModel) -> TtsStepModel {
    TtsStepModel::Continue {
        stage: TtsStage::Checking,
        action: TtsActionModel::CheckFile { path: audio_path_of(job.timestamp) },
    }
}

/// The diagnostic text of an outcome; that of a program which could not be
/// launched says so.
pub open spec fn diagnostic_of(outcome: OutcomeModel) -> Seq<char> {
    match outcome {
        OutcomeModel::Unavailable => "program could not be launched"@,
        OutcomeModel::Failed { diagnostic } => diagnostic,
        OutcomeModel::Succeeded { output } => Seq::empty(),
    }
}

/// How the chain goes on from `stage` after `outcome`.
///
/// A synthesis engine that is missing or fails hands over to the next stage:
/// the primary engine to the secondary one, and that one to the silent
/// track. The waveform of the secondary engine is stored and transcoded, and
/// a failure there ends the chain. After the primary engine or the
/// transcoding has succeeded the audio file must exist.
pub open spec fn tts_next(job: TtsJobModel, stage: TtsStage, outcome: OutcomeModel) -> TtsStepModel {
    match stage {
        TtsStage::Primary => if outcome is Succeeded {
            check_audio(job)
        } else {
            TtsStepModel::Continue {
                stage: TtsStage::Secondary,
                action: TtsActionModel::Run(secondary_command_of(job)),
            }
        },
        TtsStage::Secondary => if outcome is Succeeded {
            TtsStepModel::Continue {
                stage: TtsStage::Storing,
                action: TtsActionModel::StoreOutput { path: wave_path_of(job.timestamp) },
            }
        } else {
            TtsStepModel::Continue {
                stage: TtsStage::Silence,
                action: TtsActionModel::Run(silence_command_of(job)),
            }
        },
        TtsStage::Storing => if outcome is Succeeded {
            TtsStepModel::Continue {
                stage: TtsStage::Transcoding,
                action: TtsActionModel::Run(transcode_command_of(job)),
            }
        } else {
            TtsStepModel::Failed(
                FailureModel {
                    kind: ErrorKind::Conversion,
                    message: "Could not store the synthesized audio: "@ + diagnostic_of(outcome),
                },
            )
        },
        TtsStage::Transcoding => if outcome is Succeeded {
            check_audio(job)
        } else {
            TtsStepModel::Failed(
                FailureModel {
                    kind: ErrorKind::Conversion,
                    message: "FFmpeg conversion failed: "@ + diagnostic_of(outcome),
                },
            )
        },
        TtsStage::Silence => match outcome {
            OutcomeModel::Succeeded { output } => TtsStepModel::Finished {
                audio_path: audio_path_of(job.timestamp),
                filename: audio_filename_of(job.timestamp),
                silent: true,
            },
            OutcomeModel::Failed { diagnostic } => TtsStepModel::Failed(
                FailureModel {
                    kind: ErrorKind::ToolFailure,
                    message: "Fallback audio generation failed: "@ + diagnostic,
                },
            ),
            OutcomeModel::Unavailable => TtsStepModel::Failed(
                FailureModel {
                    kind: ErrorKind::EngineUnavailable,
                    message: "Fallback audio generation failed: "@ + diagnostic_of(outcome),
                },
            ),
        },
        TtsStage::Checking => if outcome is Succeeded {
            TtsStepModel::Finished {
                audio_path: audio_path_of(job.timestamp),
                filename: audio_filename_of(job.timestamp),
                silent: false,
            }
        } else {
            TtsStepModel::Failed(
                FailureModel {
                    kind: ErrorKind::OutputMissing,
                    message: "Audio file was not generated"@,
                },
            )
        },
    }
}

/// The place of a stage in the order of the chain.
pub open spec fn stage_rank(stage: TtsStage) -> nat {
    match stage {
        TtsStage::Primary => 0,
        TtsStage::Secondary => 1,
        TtsStage::Storing => 2,
        TtsStage::Transcoding => 3,
        TtsStage::Silence => 4,
        TtsStage::Checking => 5,
    }
}

/// The chain only moves forward, so it ends after six outcomes at most; and
/// a synthesis engine that is missing or fails never ends it: while an engine
/// is awaited the chain goes on, whatever the outcome.
pub proof fn lemma_chain_moves_forward(job: TtsJobModel, stage: TtsStage, outcome: OutcomeModel)
    ensures
        tts_next(job, stage, outcome) matches TtsStepModel::Continue { stage: next, action }
            ==> stage_rank(stage) < stage_rank(next),
        stage == TtsStage::Primary || stage == TtsStage::Secondary ==> tts_next(
            job,
            stage,
            outcome,
        ) is Continue,
        tts_next(job, stage, outcome) matches TtsStepModel::Finished {
            audio_path,
            filename,
            silent,
        } ==> outcome is Succeeded && silent == (stage == TtsStage::Silence),
{
}

/// Where the chain stands after the outcomes of a run, taken in order from
/// `step` on; outcomes that arrive after the chain has ended change nothing.
pub open spec fn tts_run(job: TtsJobModel, step: TtsStepModel, outcomes: Seq<OutcomeModel>) -> TtsStepModel
    decreases outcomes.len(),
{
    match step {
        TtsStepModel::Continue { stage, action } => if outcomes.len() == 0 {
            step
        } else {
            tts_run(job, tts_next(job, stage, outcomes[0]), outcomes.drop_first())
        },
        _ => step,
    }
}

/// Every run of the chain has ended after five outcomes. Where neither
/// synthesis engine succeeds, whether missing or failing, and the encoder
/// then does, the chain ends with a silent track.
pub proof fn lemma_chain_ends(job: TtsJobModel, outcomes: Seq<OutcomeModel>)
    ensures
        outcomes.len() >= 5 ==> !(tts_run(job, tts_first(job), outcomes) is Continue),
        outcomes.len() >= 3 && !(outcomes[0] is Succeeded) && !(outcomes[1] is Succeeded)
            && outcomes[2] is Succeeded ==> tts_run(job, tts_first(job), outcomes)
            == (TtsStepModel::Finished {
            audio_path: audio_path_of(job.timestamp),
            filename: audio_filename_of(job.timestamp),
            silent: true,
        }),
{
    reveal_with_fuel(tts_run, 7);
    let second = outcomes.drop_first();
    let third = second.drop_first();
    let fourth = third.drop_first();
    let fifth = fourth.drop_first();
    if outcomes.len() >= 3 {
        assert(second[0] == outcomes[1]);
        assert(third[0] == outcomes[2]);
    }
    if outcomes.len() >= 5 {
        assert(fourth[0] == outcomes[3]);
        assert(fifth[0] == outcomes[4]);
    }
}

/// The diagnostic text of an outcome.
pub fn diagnostic(outcome: &Outcome) -> (out: String)
    ensures
        out@ == diagnostic_of(outcome@),
{
    match outcome {
        Outcome::Unavailable => String::from_str("program could not be launched"),
        Outcome::Failed { diagnostic } => diagnostic.clone(),
        Outcome::Succeeded { output } => String::new(),
    }
}

impl TtsJob {
    /// The name of the audio file.
    pub fn audio_filename(&self) -> (out: String)
        ensures
            out@ == audio_filename_of(self.timestamp as nat),
    {
        stamped_name("output_", self.timestamp, ".mp3")
    }

    /// The place of the audio file.
    pub fn audio_path(&self) -> (out: String)
        ensures
            out@ == audio_path_of(self.timestamp as nat),
    {
        let name = self.audio_filename();
        upload_path(name.as_str())
    }

    /// The place of the waveform of the secondary engine.
    pub fn wave_path(&self) -> (out: String)
        ensures
            out@ == wave_path_of(self.timestamp as nat),
    {
        stamped_name("uploads/temp_", self.timestamp, ".wav")
    }

    /// The command of the primary engine.
    pub fn primary_command(&self) -> (out: Command)
        ensures
            out@ == primary_command_of(self@),
    {
        let wpm = decimal_string(words_per_minute(self.speed_milli) as u64);
        let path = self.audio_path();
        let mut args: Vec<String> = Vec::new();
        push_text(&mut args, "-v");
        push_text(&mut args, engine_voice(self.lang.as_str(), self.voice.as_str()));
        push_text(&mut args, "-s");
        push_text(&mut args, wpm.as_str());
        push_text(&mut args, "-w");
        push_text(&mut args, path.as_str());
        push_text(&mut args, self.text.as_str());
        let out = Command {
            program: String::from_str("espeak-ng"),
            args,
            input: None,
            cleanup: Vec::new(),
        };
        assert(out@.args =~= primary_command_of(self@).args);
        assert(out@.cleanup =~= primary_command_of(self@).cleanup);
        out
    }

    /// The command of the secondary engine.
    pub fn secondary_command(&self) -> (out: Command)
        ensures
            out@ == secondary_command_of(self@),
    {
        let mut args: Vec<String> = Vec::new();
        push_text(&mut args, "--tts");
        let out = Command {
            program: String::from_str("festival"),
            args,
            input: Some(self.text.clone()),
            cleanup: Vec::new(),
        };
        assert(out@.cleanup =~= secondary_command_of(self@).cleanup);
        out
    }

    /// The command that transcodes the stored waveform.
    pub fn transcode_command(&self) -> (out: Command)
        ensures
            out@ == transcode_command_of(self@),
    {
        let wave = self.wave_path();
        let path = self.audio_path();
        let mut args: Vec<String> = Vec::new();
        push_text(&mut args, "-y");
        push_text(&mut args, "-i");
        push_text(&mut args, wave.as_str());
        push_text(&mut args, "-codec:a");
        push_text(&mut args, "libmp3lame");
        push_text(&mut args, "-b:a");
        push_text(&mut args, "128k");
        push_text(&mut args, path.as_str());
        let mut cleanup: Vec<String> = Vec::new();
        push_text(&mut cleanup, wave.as_str());
        let out = Command { program: String::from_str("ffmpeg"), args, input: None, cleanup };
        assert(out@.args =~= transcode_command_of(self@).args);
        assert(out@.cleanup =~= transcode_command_of(self@).cleanup);
        out
    }

    /// The command that encodes the silent track.
    pub fn silence_command(&self) -> (out: Command)
        ensures
            out@ == silence_command_of(self@),
    {
        let count = split_words(self.text.as_str()).len() as u64;
        let length = format_seconds(silence_duration_ms(count, self.speed_milli));
        let path = self.audio_path();
        let mut args: Vec<String> = Vec::new();
        push_text(&mut args, "-y");
        push_text(&mut args, "-f");
        push_text(&mut args, "lavfi");
        push_text(&mut args, "-i");
        push_text(&mut args, "anullsrc=channel_layout=stereo:sample_rate=44100");
        push_text(&mut args, "-t");
        push_text(&mut args, length.as_str());
        push_text(&mut args, "-codec:a");
        push_text(&mut args, "libmp3lame");
        push_text(&mut args, "-b:a");
        push_text(&mut args, "128k");
        push_text(&mut args, path.as_str());
        let out = Command {
            program: String::from_str("ffmpeg"),
            args,
            input: None,
            cleanup: Vec::new(),
        };
        assert(out@.args =~= silence_command_of(self@).args);
        assert(out@.cleanup =~= silence_command_of(self@).cleanup);
        out
    }

    /// The first stage and action of the chain.
    pub fn start(&self) -> (out: TtsStep)
        ensures
            out@ == tts_first(self@),
    {
        TtsStep::Continue {
            stage: TtsStage::Primary,
            action: TtsAction::Run(self.primary_command()),
        }
    }

    fn check_audio(&self) -> (out: TtsStep)
        ensures
            out@ == check_audio(self@),
    {
        TtsStep::Continue {
            stage: TtsStage::Checking,
            action: TtsAction::CheckFile { path: self.audio_path() },
        }
    }

    fn finished(&self, silent: bool) -> (out: TtsStep)
        ensures
            out@ == (TtsStepModel::Finished {
                audio_path: audio_path_of(self.timestamp as nat),
                filename: audio_filename_of(self.timestamp as nat),
                silent,
            }),
    {
        TtsStep::Finished {
            audio_path: self.audio_path(),
            filename: self.audio_filename(),
            silent,
        }
    }

    /// How the chain goes on from `stage` after `outcome`.
    pub fn step(&self, stage: TtsStage, outcome: &Outcome) -> (out: TtsStep)
        ensures
            out@ == tts_next(self@, stage, outcome@),
    {
        let succeeded = match outcome {
            Outcome::Succeeded { .. } => true,
            _ => false,
        };
        match stage {
            TtsStage::Primary => {
                if succeeded {
                    self.check_audio()
                } else {
                    TtsStep::Continue {
                        stage: TtsStage::Secondary,
                        action: TtsAction::Run(self.secondary_command()),
                    }
                }
            },
            TtsStage::Secondary => {
                if succeeded {
                    TtsStep::Continue {
                        stage: TtsStage::Storing,
                        action: TtsAction::StoreOutput { path: self.wave_path() },
                    }
                } else {
                    TtsStep::Continue {
                        stage: TtsStage::Silence,
                        action: TtsAction::Run(self.silence_command()),
                    }
                }
            },
            TtsStage::Storing => {
                if succeeded {
                    TtsStep::Continue {
                        stage: TtsStage::Transcoding,
                        action: TtsAction::Run(self.transcode_command()),
                    }
                } else {
                    let detail = diagnostic(outcome);
                    TtsStep::Failed(
                        Failure::with_detail(
                            ErrorKind::Conversion,
                            "Could not store the synthesized audio: ",
                            detail.as_str(),
                        ),
                    )
                }
            },
            TtsStage::Transcoding => {
                if succeeded {
                    self.check_audio()
                } else {
                    let detail = diagnostic(outcome);
                    TtsStep::Failed(
                        Failure::with_detail(
                            ErrorKind::Conversion,
                            "FFmpeg conversion failed: ",
                            detail.as_str(),
                        ),
                    )
                }
            },
            TtsStage::Silence => {
                let detail = diagnostic(outcome);
                match outcome {
                    Outcome::Succeeded { .. } => self.finished(true),
                    Outcome::Failed { .. } => TtsStep::Failed(
                        Failure::with_detail(
                            ErrorKind::ToolFailure,
                            "Fallback audio generation failed: ",
                            detail.as_str(),
                        ),
                    ),
                    Outcome::Unavailable => TtsStep::Failed(
                        Failure::with_detail(
                            ErrorKind::EngineUnavailable,
                            "Fallback audio generation failed: ",
                            detail.as_str(),
                        ),
                    ),
                }
            },
            TtsStage::Checking => {
                if succeeded {
                    self.finished(false)
                } else {
                    TtsStep::Failed(
                        Failure::new(ErrorKind::OutputMissing, "Audio file was not generated"),
                    )
                }
            },
        }
    }
}

} // verus!
