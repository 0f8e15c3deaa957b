//! Requests as they arrive: what is missing is refused or takes its default.

use vstd::prelude::*;
use vstd::string::StringExecFns;
use crate::composer::{VideoJob, VideoJobModel};
use crate::error::{ErrorKind, Failure};
use crate::text::{is_blank, text_is_blank};
use crate::tts::{TtsJob, TtsJobModel};
use crate::video::{parse_aspect, AspectRatio};

verus! {

/// Normal speed, in thousandths.
pub const NORMAL_SPEED_MILLI: u32 = 1000;

/// The view of a text that may be absent, or of the default in its place.
pub open spec fn text_or(value: Option<&str>, default: Seq<char>) -> Seq<char> {
    match value {
        Some(text) => text@,
        None => default,
    }
}

/// The speech job of a request. A text that is blank is refused, and so is
/// a speed of zero, at which no word would ever be spoken; the text is looked
/// at first. A language that is not given is `en`, a voice that is not given
/// is `us`, and a speed that is not given is normal speed.
pub fn tts_request(
    text: &str,
    lang: Option<&str>,
    voice: Option<&str>,
    speed_milli: Option<u32>,
    timestamp: u64,
) -> (out: Result<TtsJob, Failure>)
    ensures
        is_blank(text@) || speed_milli == Some(0u32) <==> out is Err,
        out matches Err(e) ==> e.kind == ErrorKind::Input && e.message@ == if is_blank(text@) {
            "No text provided"@
        } else {
            "Speed must be positive"@
        },
        out matches Ok(job) ==> job.speed_milli > 0 && job@ == (TtsJobModel {
            text: text@,
            lang: text_or(lang, "en"@),
            voice: text_or(voice, "us"@),
            speed_milli: match speed_milli {
                Some(speed) => speed as nat,
                None => 1000,
            },
            timestamp: timestamp as nat,
        }),
{
    if text_is_blank(text) {
        return Err(Failure::new(ErrorKind::Input, "No text provided"));
    }
    let speed_milli = match speed_milli {
        Some(speed) => speed,
        None => NORMAL_SPEED_MILLI,
    };
    if speed_milli == 0 {
        return Err(Failure::new(ErrorKind::Input, "Speed must be positive"));
    }
    let lang = match lang {
        Some(l) => String::from_str(l),
        None => String::from_str("en"),
    };
    let voice = match voice {
        Some(v) => String::from_str(v),
        None => String::from_str("us"),
    };
    Ok(TtsJob { text: String::from_str(text), lang, voice, speed_milli, timestamp })
}

/// The aspect ratio of a request: the one its selector names, or the default
/// where none is given.
pub open spec fn aspect_of(selector: Option<&str>) -> AspectRatio {
    match selector {
        Some(text) => if text@ == "9:16"@ {
            AspectRatio::Portrait
        } else {
            AspectRatio::Landscape
        },
        None => AspectRatio::Landscape,
    }
}

/// The video job of a request. An upload without bytes and an empty audio
/// reference are refused, in this order; a background name that is not given
/// is `unknown`, and an aspect ratio that is not given is 16:9.
pub fn video_request(
    background_len: usize,
    background_name: Option<&str>,
    aspect: Option<&str>,
    audio_filename: &str,
    text: &str,
    timestamp: u64,
) -> (out: Result<VideoJob, Failure>)
    ensures
        background_len == 0 || audio_filename@.len() == 0 <==> out is Err,
        out matches Err(e) ==> e.kind == ErrorKind::Input && e.message@ == if background_len == 0 {
            "No background file uploaded"@
        } else {
            "No audio reference provided"@
        },
        out matches Ok(job) ==> job@ == (VideoJobModel {
            background_name: text_or(background_name, "unknown"@),
            aspect: aspect_of(aspect),
            audio_filename: audio_filename@,
            text: text@,
            timestamp: timestamp as nat,
        }),
{
    if background_len == 0 {
        return Err(Failure::new(ErrorKind::Input, "No background file uploaded"));
    }
    if audio_filename.is_empty() {
        return Err(Failure::new(ErrorKind::Input, "No audio reference provided"));
    }
    let background_name = match background_name {
        Some(name) => String::from_str(name),
        None => String::from_str("unknown"),
    };
    let aspect = match aspect {
        Some(selector) => parse_aspect(selector),
        None => AspectRatio::Landscape,
    };
    Ok(
        VideoJob {
            background_name,
            aspect,
            audio_filename: String::from_str(audio_filename),
            text: String::from_str(text),
            timestamp,
        },
    )
}

} // verus!
