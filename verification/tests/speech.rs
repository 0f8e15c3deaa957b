use video_maker::command::{Command, Outcome};
use video_maker::error::ErrorKind;
use video_maker::request::tts_request;
use video_maker::tts::{
    diagnostic, silence_duration_ms, words_per_minute, TtsAction, TtsJob, TtsStage, TtsStep,
};
use video_maker::voices::{engine_voice, english_variant, get_tts_voices, spanish_variant};

fn job(text: &str, voice: &str, speed_milli: u32) -> TtsJob {
    TtsJob {
        text: text.to_string(),
        lang: "en".to_string(),
        voice: voice.to_string(),
        speed_milli,
        timestamp: 1700000000,
    }
}

fn succeeded() -> Outcome {
    Outcome::Succeeded { output: String::new() }
}

fn failed(diagnostic: &str) -> Outcome {
    Outcome::Failed { diagnostic: diagnostic.to_string() }
}

fn texts(items: &[&str]) -> Vec<String> {
    items.iter().map(|t| t.to_string()).collect()
}

fn next(step: TtsStep) -> (TtsStage, TtsAction) {
    match step {
        TtsStep::Continue { stage, action } => (stage, action),
        other => panic!("the chain ended: {:?}", other),
    }
}

fn command(action: TtsAction) -> Command {
    match action {
        TtsAction::Run(command) => command,
        other => panic!("no program to run: {:?}", other),
    }
}

fn failure(step: TtsStep) -> (ErrorKind, String) {
    match step {
        TtsStep::Failed(failure) => (failure.kind, failure.message),
        other => panic!("the chain did not fail: {:?}", other),
    }
}

#[test]
fn voices_on_offer() {
    let voices = get_tts_voices();
    let en: Vec<(&str, &str)> =
        voices.en.iter().map(|v| (v.id.as_str(), v.name.as_str())).collect();
    let es: Vec<(&str, &str)> =
        voices.es.iter().map(|v| (v.id.as_str(), v.name.as_str())).collect();
    assert_eq!(
        en,
        vec![
            ("com.au", "Australian"),
            ("co.uk", "British"),
            ("us", "American"),
            ("ca", "Canadian"),
            ("ind", "Indian"),
            ("za", "South African"),
            ("ie", "Irish"),
            ("nz", "New Zealand"),
            ("ng", "Nigerian"),
            ("tt", "Trinidad & Tobago"),
        ]
    );
    assert_eq!(
        es,
        vec![
            ("es", "Spanish (Spain)"),
            ("mx", "Mexican Spanish"),
            ("ar", "Argentinian Spanish"),
            ("cl", "Chilean Spanish"),
        ]
    );
}

#[test]
fn each_voice_selects_its_engine_voice() {
    let english = [
        ("com.au", "en-au"),
        ("co.uk", "en-gb"),
        ("us", "en-us"),
        ("ca", "en-ca"),
        ("ind", "en-in"),
        ("za", "en-za"),
        ("ie", "en-ie"),
        ("nz", "en-nz"),
        ("ng", "en-ng"),
        ("tt", "en-tt"),
    ];
    let spanish = [("es", "es"), ("mx", "es-mx"), ("ar", "es-ar"), ("cl", "es-cl")];
    for (voice, engine) in english {
        assert_eq!(engine_voice("en", voice), engine);
        assert_eq!(english_variant(voice), Some(engine));
        assert_eq!(spanish_variant(voice), None);
    }
    for (voice, engine) in spanish {
        assert_eq!(engine_voice("es", voice), engine);
        assert_eq!(spanish_variant(voice), Some(engine));
        assert_eq!(english_variant(voice), None);
    }
    for voice in ["", "fr", "US", "co.uk ", "en-gb"] {
        assert_eq!(engine_voice("en", voice), "en-us");
        assert_eq!(engine_voice("es", voice), "en-us");
    }
    let voices = get_tts_voices();
    for voice in voices.en.iter() {
        assert!(engine_voice("en", &voice.id).starts_with("en-"));
    }
    for voice in voices.es.iter() {
        assert!(engine_voice("es", &voice.id).starts_with("es"));
    }
}

#[test]
fn a_variant_of_another_language_selects_the_default() {
    assert_eq!(engine_voice("en", "co.uk"), "en-gb");
    assert_eq!(engine_voice("en", "mx"), "en-us");
    assert_eq!(engine_voice("en", "es"), "en-us");
    assert_eq!(engine_voice("es", "co.uk"), "en-us");
    assert_eq!(engine_voice("es", "us"), "en-us");
    for lang in ["", "fr", "EN", "en ", "en-gb", "es-mx"] {
        for voice in ["us", "co.uk", "mx", "es", "zz"] {
            assert_eq!(engine_voice(lang, voice), "en-us");
        }
    }
    let job = tts_request("hello", Some("en"), Some("mx"), Some(1000), 7).unwrap();
    assert_eq!(job.primary_command().args[1], "en-us");
    let job = tts_request("hola", Some("es"), Some("mx"), Some(1000), 7).unwrap();
    assert_eq!(job.primary_command().args[1], "es-mx");
    let job = tts_request("hello", None, Some("mx"), None, 7).unwrap();
    assert_eq!(job.primary_command().args[1], "en-us");
    let job = tts_request("bonjour", Some("fr"), Some("us"), None, 7).unwrap();
    assert_eq!(job.primary_command().args[1], "en-us");
}

#[test]
fn rate_is_175_times_the_speed_rounded() {
    assert_eq!(words_per_minute(1000), 175);
    assert_eq!(words_per_minute(1500), 263);
    assert_eq!(words_per_minute(500), 88);
    assert_eq!(words_per_minute(2000), 350);
    assert_eq!(words_per_minute(1002), 175);
    assert_eq!(words_per_minute(1003), 176);
    assert_eq!(words_per_minute(0), 0);
    assert_eq!(words_per_minute(u32::MAX), 751_619_277);
}

#[test]
fn silence_lasts_as_long_as_the_words_but_two_seconds_at_least() {
    assert_eq!(silence_duration_ms(10, 1000), 3428);
    assert_eq!(silence_duration_ms(175, 1000), 60_000);
    assert_eq!(silence_duration_ms(175, 2000), 30_000);
    assert_eq!(silence_duration_ms(175, 500), 120_000);
    assert_eq!(silence_duration_ms(5, 1000), 2000);
    assert_eq!(silence_duration_ms(6, 1000), 2057);
    assert_eq!(silence_duration_ms(0, 1000), 2000);
    assert_eq!(silence_duration_ms(0, 0), 2000);
    assert_eq!(silence_duration_ms(5, 0), u64::MAX);
    assert_eq!(silence_duration_ms(u64::MAX, 1), u64::MAX);
}

#[test]
fn without_any_engine_a_silent_track_is_made() {
    let job = job("one two three four five six seven eight nine ten", "co.uk", 1000);
    let (stage, action) = next(job.start());
    assert_eq!(stage, TtsStage::Primary);
    let primary = command(action);
    assert_eq!(primary.program, "espeak-ng");
    assert_eq!(
        primary.args,
        texts(&[
            "-v",
            "en-gb",
            "-s",
            "175",
            "-w",
            "uploads/output_1700000000.mp3",
            "one two three four five six seven eight nine ten",
        ])
    );
    assert_eq!(primary.input, None);
    assert!(primary.cleanup.is_empty());

    let (stage, action) = next(job.step(stage, &Outcome::Unavailable));
    assert_eq!(stage, TtsStage::Secondary);
    let secondary = command(action);
    assert_eq!(secondary.program, "festival");
    assert_eq!(secondary.args, texts(&["--tts"]));
    assert_eq!(
        secondary.input,
        Some("one two three four five six seven eight nine ten".to_string())
    );

    let (stage, action) = next(job.step(stage, &Outcome::Unavailable));
    assert_eq!(stage, TtsStage::Silence);
    let silence = command(action);
    assert_eq!(silence.program, "ffmpeg");
    assert_eq!(
        silence.args,
        texts(&[
            "-y",
            "-f",
            "lavfi",
            "-i",
            "anullsrc=channel_layout=stereo:sample_rate=44100",
            "-t",
            "3.428",
            "-codec:a",
            "libmp3lame",
            "-b:a",
            "128k",
            "uploads/output_1700000000.mp3",
        ])
    );

    match job.step(stage, &succeeded()) {
        TtsStep::Finished { audio_path, filename, silent } => {
            assert_eq!(audio_path, "uploads/output_1700000000.mp3");
            assert_eq!(filename, "output_1700000000.mp3");
            assert!(silent);
        }
        other => panic!("no audio: {:?}", other),
    }
}

#[test]
fn short_texts_get_two_seconds_of_silence() {
    let job = job("Hi there", "us", 1000);
    let silence = job.silence_command();
    assert_eq!(silence.args[6], "2.000");
    let fast = TtsJob { speed_milli: 2500, ..job.clone() };
    assert_eq!(fast.silence_command().args[6], "2.000");
    assert_eq!(fast.primary_command().args[3], "438");
}

#[test]
fn the_primary_engine_writes_the_audio_itself() {
    let job = job("Hello", "us", 1000);
    let (stage, action) = next(job.step(TtsStage::Primary, &succeeded()));
    assert_eq!(stage, TtsStage::Checking);
    match action {
        TtsAction::CheckFile { path } => assert_eq!(path, "uploads/output_1700000000.mp3"),
        other => panic!("no check: {:?}", other),
    }
    match job.step(stage, &succeeded()) {
        TtsStep::Finished { audio_path, filename, silent } => {
            assert_eq!(audio_path, "uploads/output_1700000000.mp3");
            assert_eq!(filename, "output_1700000000.mp3");
            assert!(!silent);
        }
        other => panic!("no audio: {:?}", other),
    }
    let (kind, message) = failure(job.step(TtsStage::Checking, &failed("")));
    assert_eq!(kind, ErrorKind::OutputMissing);
    assert_eq!(message, "Audio file was not generated");
}

#[test]
fn a_failing_primary_engine_hands_over_to_the_secondary() {
    let job = job("Hello", "us", 1000);
    let (stage, action) = next(job.step(TtsStage::Primary, &failed("bad voice")));
    assert_eq!(stage, TtsStage::Secondary);
    assert_eq!(command(action).program, "festival");
    let (stage, action) = next(job.step(TtsStage::Secondary, &failed("no")));
    assert_eq!(stage, TtsStage::Silence);
    assert_eq!(command(action).program, "ffmpeg");
}

#[test]
fn the_waveform_of_the_secondary_engine_is_stored_and_transcoded() {
    let job = job("Hello", "us", 1000);
    let (stage, action) = next(job.step(TtsStage::Secondary, &succeeded()));
    assert_eq!(stage, TtsStage::Storing);
    match action {
        TtsAction::StoreOutput { path } => assert_eq!(path, "uploads/temp_1700000000.wav"),
        other => panic!("nothing to store: {:?}", other),
    }
    let (stage, action) = next(job.step(stage, &succeeded()));
    assert_eq!(stage, TtsStage::Transcoding);
    let transcode = command(action);
    assert_eq!(transcode.program, "ffmpeg");
    assert_eq!(
        transcode.args,
        texts(&[
            "-y",
            "-i",
            "uploads/temp_1700000000.wav",
            "-codec:a",
            "libmp3lame",
            "-b:a",
            "128k",
            "uploads/output_1700000000.mp3",
        ])
    );
    assert_eq!(transcode.cleanup, texts(&["uploads/temp_1700000000.wav"]));
    let (stage, _) = next(job.step(stage, &succeeded()));
    assert_eq!(stage, TtsStage::Checking);
}

#[test]
fn only_the_encoder_ends_the_chain_in_failure() {
    let job = job("Hello", "us", 1000);
    let (kind, message) = failure(job.step(TtsStage::Transcoding, &failed("codec missing")));
    assert_eq!(kind, ErrorKind::Conversion);
    assert_eq!(message, "FFmpeg conversion failed: codec missing");
    let (kind, message) = failure(job.step(TtsStage::Transcoding, &Outcome::Unavailable));
    assert_eq!(kind, ErrorKind::Conversion);
    assert_eq!(message, "FFmpeg conversion failed: program could not be launched");
    let (kind, message) = failure(job.step(TtsStage::Storing, &failed("disk full")));
    assert_eq!(kind, ErrorKind::Conversion);
    assert_eq!(message, "Could not store the synthesized audio: disk full");
    let (kind, message) = failure(job.step(TtsStage::Silence, &failed("lavfi missing")));
    assert_eq!(kind, ErrorKind::ToolFailure);
    assert_eq!(message, "Fallback audio generation failed: lavfi missing");
    let (kind, message) = failure(job.step(TtsStage::Silence, &Outcome::Unavailable));
    assert_eq!(kind, ErrorKind::EngineUnavailable);
    assert_eq!(message, "Fallback audio generation failed: program could not be launched");
    for outcome in [Outcome::Unavailable, failed("x"), succeeded()] {
        for stage in [TtsStage::Primary, TtsStage::Secondary] {
            assert!(matches!(job.step(stage, &outcome), TtsStep::Continue { .. }));
        }
    }
}

#[test]
fn diagnostics_are_passed_on_unchanged() {
    assert_eq!(diagnostic(&failed("line 1\nline 2")), "line 1\nline 2");
    assert_eq!(diagnostic(&Outcome::Unavailable), "program could not be launched");
    assert_eq!(diagnostic(&Outcome::Succeeded { output: "ignored".to_string() }), "");
}

#[test]
fn speech_requests_need_text_and_take_defaults() {
    let failure = tts_request("  \n", Some("en"), Some("us"), Some(1000), 1).unwrap_err();
    assert_eq!(failure.kind, ErrorKind::Input);
    assert_eq!(failure.message, "No text provided");
    assert!(tts_request("", None, None, None, 1).is_err());
    let job = tts_request(" hi ", None, None, None, 42).unwrap();
    assert_eq!(job.text, " hi ");
    assert_eq!(job.lang, "en");
    assert_eq!(job.voice, "us");
    assert_eq!(job.speed_milli, 1000);
    assert_eq!(job.timestamp, 42);
    let job = tts_request("hi", Some("es"), Some("mx"), Some(1250), 42).unwrap();
    assert_eq!(job.lang, "es");
    assert_eq!(job.voice, "mx");
    assert_eq!(job.speed_milli, 1250);
    assert_eq!(job.audio_filename(), "output_42.mp3");
    assert_eq!(job.audio_path(), "uploads/output_42.mp3");
    assert_eq!(job.wave_path(), "uploads/temp_42.wav");
}

#[test]
fn a_speed_of_zero_is_refused() {
    let failure = tts_request("hello", Some("en"), Some("us"), Some(0), 1).unwrap_err();
    assert_eq!(failure.kind, ErrorKind::Input);
    assert_eq!(failure.message, "Speed must be positive");
    let failure = tts_request(" ", None, None, Some(0), 1).unwrap_err();
    assert_eq!(failure.kind, ErrorKind::Input);
    assert_eq!(failure.message, "No text provided");
    assert_eq!(tts_request("hello", None, None, Some(1), 1).unwrap().speed_milli, 1);
    assert_eq!(tts_request("hello", None, None, None, 1).unwrap().speed_milli, 1000);
}
