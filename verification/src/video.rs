//! Video assembly: the names of the files of a job, the kind of the
//! background, the filter graph and the command lines of the encoder.

use vstd::prelude::*;
use vstd::string::StringExecFns;
use crate::decimal::{decimal, push_decimal};
use crate::text::{
    alphanumeric,
    chars_of,
    ends_with,
    is_alphanumeric,
    lowercase_of,
    same_text,
    text_ends_with,
    to_lowercase,
};

verus! {

/// The kind of a background: an image, which has no duration of its own, or
/// a clip, which has one.
#[derive(Clone, Copy, Debug, PartialEq, Eq, Structural)]
pub enum BackgroundKind {
    Still,
    Motion,
}

/// The shape of the canvas.
#[derive(Clone, Copy, Debug, PartialEq, Eq, Structural)]
pub enum AspectRatio {
    /// 16:9, 1920 by 1080.
    Landscape,
    /// 9:16, 1080 by 1920.
    Portrait,
}

/// Whether a character of an uploaded name is kept in the name of the copy:
/// letters, numbers, the full stop and the underscore are.
pub open spec fn kept_in_name(c: char) -> bool {
    alphanumeric(c) || c == '.' || c == '_'
}

/// A name without the characters that are not kept.
pub open spec fn safe_name(name: Seq<char>) -> Seq<char>
    decreases name.len(),
{
    if name.len() == 0 {
        Seq::empty()
    } else if kept_in_name(name.last()) {
        safe_name(name.drop_last()).push(name.last())
    } else {
        safe_name(name.drop_last())
    }
}

/// Whether `c` is kept in a name, given whether it is a letter or a number.
pub fn keeps_character(c: char, letter_or_number: bool) -> (keep: bool)
    ensures
        keep == (letter_or_number || c == '.' || c == '_'),
{
    letter_or_number || c == '.' || c == '_'
}

/// The uploaded name without the characters that are not kept.
pub fn sanitize_filename(name: &str) -> (out: String)
    ensures
        out@ == safe_name(name@),
{
    let chars = chars_of(name);
    let mut out = String::new();
    let mut i: usize = 0;
    while i < chars.len()
        invariant
            i <= chars.len(),
            chars@ == name@,
            out@ == safe_name(name@.take(i as int)),
        decreases chars.len() - i,
    {
        let c = chars[i];
        assert(name@.take(i + 1).drop_last() =~= name@.take(i as int));
        if keeps_character(c, is_alphanumeric(c)) {
            out.push(c);
        }
        i += 1;
    }
    assert(name@.take(i as int) =~= name@);
    out
}

/// Whether a name in lower case has the extension of an image.
pub open spec fn is_image_name(lower: Seq<char>) -> bool {
    ||| ends_with(lower, ".jpg"@)
    ||| ends_with(lower, ".jpeg"@)
    ||| ends_with(lower, ".png"@)
    ||| ends_with(lower, ".bmp"@)
    ||| ends_with(lower, ".gif"@)
    ||| ends_with(lower, ".webp"@)
}

/// The kind of the background whose name, in lower case, is `lower`.
pub fn classify_lowercased(lower: &str) -> (kind: BackgroundKind)
    ensures
        kind == BackgroundKind::Still <==> is_image_name(lower@),
{
    if text_ends_with(lower, ".jpg") || text_ends_with(lower, ".jpeg") || text_ends_with(
        lower,
        ".png",
    ) || text_ends_with(lower, ".bmp") || text_ends_with(lower, ".gif") || text_ends_with(
        lower,
        ".webp",
    ) {
        BackgroundKind::Still
    } else {
        BackgroundKind::Motion
    }
}

/// The kind of a background, by the extension of its name; the case of the
/// letters does not count.
pub fn classify_background(filename: &str) -> (kind: BackgroundKind)
    ensures
        kind == BackgroundKind::Still <==> is_image_name(lowercase_of(filename@)),
{
    let lower = to_lowercase(filename);
    classify_lowercased(lower.as_str())
}

/// The aspect ratio that a selector names: `9:16` is portrait, and anything
/// else is the default, landscape.
pub fn parse_aspect(selector: &str) -> (aspect: AspectRatio)
    ensures
        aspect == AspectRatio::Portrait <==> selector@ == "9:16"@,
{
    if same_text(selector, "9:16") {
        AspectRatio::Portrait
    } else {
        AspectRatio::Landscape
    }
}

impl AspectRatio {
    /// The width of the canvas in pixels.
    pub open spec fn width_of(self) -> nat {
        match self {
            AspectRatio::Landscape => 1920,
            AspectRatio::Portrait => 1080,
        }
    }

    /// The height of the canvas in pixels.
    pub open spec fn height_of(self) -> nat {
        match self {
            AspectRatio::Landscape => 1080,
            AspectRatio::Portrait => 1920,
        }
    }

    /// The font size of captions before scaling.
    pub open spec fn base_font_size(self) -> nat {
        match self {
            AspectRatio::Landscape => 32,
            AspectRatio::Portrait => 36,
        }
    }

    /// The distance of captions from the lower edge before scaling.
    pub open spec fn base_margin(self) -> nat {
        match self {
            AspectRatio::Landscape => 40,
            AspectRatio::Portrait => 80,
        }
    }

    /// The selector that names this aspect ratio.
    pub open spec fn selector_of(self) -> Seq<char> {
        match self {
            AspectRatio::Landscape => "16:9"@,
            AspectRatio::Portrait => "9:16"@,
        }
    }

    /// The width of the canvas in pixels.
    pub fn width(self) -> (out: u64)
        ensures
            out == self.width_of(),
    {
        match self {
            AspectRatio::Landscape => 1920,
            AspectRatio::Portrait => 1080,
        }
    }

    /// The height of the canvas in pixels.
    pub fn height(self) -> (out: u64)
        ensures
            out == self.height_of(),
    {
        match self {
            AspectRatio::Landscape => 1080,
            AspectRatio::Portrait => 1920,
        }
    }

    /// The font size of captions, scaled.
    pub fn font_size(self) -> (out: u64)
        ensures
            out == scaled_style(self.base_font_size()),
    {
        match self {
            AspectRatio::Landscape => 32 * 7 / 10,
            AspectRatio::Portrait => 36 * 7 / 10,
        }
    }

    /// The distance of captions from the lower edge, scaled.
    pub fn margin(self) -> (out: u64)
        ensures
            out == scaled_style(self.base_margin()),
    {
        match self {
            AspectRatio::Landscape => 40 * 7 / 10,
            AspectRatio::Portrait => 80 * 7 / 10,
        }
    }

    /// The selector that names this aspect ratio.
    pub fn selector(self) -> (out: &'static str)
        ensures
            out@ == self.selector_of(),
    {
        match self {
            AspectRatio::Landscape => "16:9",
            AspectRatio::Portrait => "9:16",
        }
    }
}

/// A style parameter scaled down to seven tenths, rounded down.
pub open spec fn scaled_style(base: nat) -> nat {
    base * 7 / 10
}

/// The stage that fits the background into the canvas: scaled without
/// distortion, then padded on both sides to the full size.
pub open spec fn scale_filter_of(aspect: AspectRatio) -> Seq<char> {
    "scale="@ + decimal(aspect.width_of()) + ":"@ + decimal(aspect.height_of())
        + ":force_original_aspect_ratio=decrease,pad="@ + decimal(aspect.width_of()) + ":"@
        + decimal(aspect.height_of()) + ":(ow-iw)/2:(oh-ih)/2"@
}

/// What stands for a character of a path inside a filter: the backslash and
/// the colon, which the filter syntax uses, get a backslash in front.
pub open spec fn escaped_char(c: char) -> Seq<char> {
    if c == '\\' {
        seq!['\\', '\\']
    } else if c == ':' {
        seq!['\\', ':']
    } else {
        seq![c]
    }
}

/// A path as it is written inside a filter.
pub open spec fn escaped_path(path: Seq<char>) -> Seq<char>
    decreases path.len(),
{
    if path.len() == 0 {
        Seq::empty()
    } else {
        escaped_path(path.drop_last()) + escaped_char(path.last())
    }
}

/// The stage that draws the captions of the subtitle document at `path`.
pub open spec fn subtitle_filter_of(path: Seq<char>, aspect: AspectRatio) -> Seq<char> {
    ",subtitles='"@ + escaped_path(path) + "':force_style='Fontsize="@ + decimal(
        scaled_style(aspect.base_font_size()),
    )
        + ",PrimaryColour=&Hffffff,OutlineColour=&H000000,BackColour=&H80000000,Outline=3,Shadow=2,Alignment=2,MarginV="@
        + decimal(scaled_style(aspect.base_margin())) + ",Bold=1'"@
}

/// The filter graph: the video of the first input is fitted into the canvas,
/// captions are drawn on it where there is a subtitle document, and the
/// result is named `v`.
pub open spec fn filter_graph_of(aspect: AspectRatio, subtitles: Option<Seq<char>>) -> Seq<char> {
    "[0:v]"@ + scale_filter_of(aspect) + match subtitles {
        Some(path) => subtitle_filter_of(path, aspect),
        None => Seq::empty(),
    } + "[v]"@
}

/// Appends the stage that fits the background into the canvas.
pub fn push_scale_filter(out: &mut String, aspect: AspectRatio)
    ensures
        final(out)@ == old(out)@ + scale_filter_of(aspect),
{
    out.append("scale=");
    push_decimal(out, aspect.width());
    out.append(":");
    push_decimal(out, aspect.height());
    out.append(":force_original_aspect_ratio=decrease,pad=");
    push_decimal(out, aspect.width());
    out.append(":");
    push_decimal(out, aspect.height());
    out.append(":(ow-iw)/2:(oh-ih)/2");
}

/// Appends a path as it is written inside a filter.
pub fn push_escaped_path(out: &mut String, path: &str)
    ensures
        final(out)@ == old(out)@ + escaped_path(path@),
{
    let chars = chars_of(path);
    let mut i: usize = 0;
    while i < chars.len()
        invariant
            i <= chars.len(),
            chars@ == path@,
            out@ == old(out)@ + escaped_path(path@.take(i as int)),
        decreases chars.len() - i,
    {
        let c = chars[i];
        assert(path@.take(i + 1).drop_last() =~= path@.take(i as int));
        if c == '\\' || c == ':' {
            out.push('\\');
        }
        out.push(c);
        i += 1;
    }
    assert(path@.take(i as int) =~= path@);
}

/// Appends the stage that draws the captions.
pub fn push_subtitle_filter(out: &mut String, path: &str, aspect: AspectRatio)
    ensures
        final(out)@ == old(out)@ + subtitle_filter_of(path@, aspect),
{
    out.append(",subtitles='");
    push_escaped_path(out, path);
    out.append("':force_style='Fontsize=");
    push_decimal(out, aspect.font_size());
    out.append(
        ",PrimaryColour=&Hffffff,OutlineColour=&H000000,BackColour=&H80000000,Outline=3,Shadow=2,Alignment=2,MarginV=",
    );
    push_decimal(out, aspect.margin());
    out.append(",Bold=1'");
}

/// The view of a path that may be absent.
pub open spec fn path_view(path: Option<&str>) -> Option<Seq<char>> {
    match path {
        Some(text) => Some(text@),
        None => None,
    }
}

/// The filter graph for a canvas, with captions from the subtitle document
/// at `subtitles` where there is one.
pub fn filter_graph(aspect: AspectRatio, subtitles: Option<&str>) -> (out: String)
    ensures
        out@ == filter_graph_of(aspect, path_view(subtitles)),
{
    let mut out = String::from_str("[0:v]");
    push_scale_filter(&mut out, aspect);
    match subtitles {
        Some(path) => {
            push_subtitle_filter(&mut out, path, aspect);
        },
        None => {
        },
    }
    out.append("[v]");
    out
}

} // verus!
