//! Inspection of a media file: the query put to the probing tool, the
//! descriptor read from its answer, and the rule that says whether the file
//! has to be converted.

use vstd::prelude::*;
use serde_json::Value;
use crate::command::{Attempt, Command, CommandView, RunOutcome};
use crate::json::{
    as_elements, as_number, as_text, elements_of, get, json_parse, json_tree, member, number_of,
    parse, text_of, trees_of, JsonTree,
};
use crate::paths::{display_name, ffprobe_name, file_name_of};
use crate::text::{
    chars_of, joined, contains, contains_run, parse_unsigned, saturate, str_eq, texts_of,
    unsigned_value,
};
use crate::timecode::{field_micros, parse_seconds};

verus! {

/// What is known of a media file. A descriptor is made once per inspection
/// and never changed.
#[derive(Debug, Clone)]
pub struct VideoInfo {
    /// The path, as the caller gave it.
    pub path: String,
    /// The last component of the path.
    pub filename: String,
    /// The codec of the first video stream; `unknown` where it has no name.
    pub codec: String,
    /// The codec of the first audio stream; `unknown` where there is none.
    pub audio_codec: String,
    /// The container's format name, which may list several aliases.
    pub container: String,
    /// The duration in microseconds; 0 where it is not known.
    pub duration_micros: u64,
    pub width: u32,
    pub height: u32,
    /// Bits per second; 0 where it is not known.
    pub bitrate: u64,
    /// Whether the file has to be converted to play on mobile devices.
    pub needs_conversion: bool,
}

/// The mathematical model of a [`VideoInfo`].
pub struct VideoInfoView {
    pub path: Seq<char>,
    pub filename: Seq<char>,
    pub codec: Seq<char>,
    pub audio_codec: Seq<char>,
    pub container: Seq<char>,
    pub duration_micros: u64,
    pub width: u32,
    pub height: u32,
    pub bitrate: u64,
    pub needs_conversion: bool,
}

impl View for VideoInfo {
    type V = VideoInfoView;

    open spec fn view(&self) -> VideoInfoView {
        VideoInfoView {
            path: self.path@,
            filename: self.filename@,
            codec: self.codec@,
            audio_codec: self.audio_codec@,
            container: self.container@,
            duration_micros: self.duration_micros,
            width: self.width,
            height: self.height,
            bitrate: self.bitrate,
            needs_conversion: self.needs_conversion,
        }
    }
}

impl VideoInfoView {
    /// The invariant of a descriptor: it asks for conversion exactly where
    /// the file is not mobile compatible.
    pub open spec fn consistent(self) -> bool {
        self.needs_conversion == !mobile_compatible(self.codec, self.audio_codec, self.container)
    }
}

/// What to do after one run of the probing tool.
#[derive(Debug)]
pub enum ProbeStep {
    /// Run this command and come back with its outcome, as the system's attempt.
    Retry(Command),
    /// The inspection has ended, with the descriptor or with an error.
    Done(Result<VideoInfo, String>),
}

/// The mobile compatibility profile: H.264 video and AAC audio in a
/// container whose format name mentions `mp4`.
pub open spec fn mobile_compatible(
    codec: Seq<char>,
    audio_codec: Seq<char>,
    container: Seq<char>,
) -> bool {
    codec == "h264"@ && audio_codec == "aac"@ && contains_run(container, "mp4"@)
}

/// Whether the stream `t` is of the type `kind`.
pub open spec fn is_kind(t: JsonTree, kind: Seq<char>) -> bool {
    text_of(member(t, "codec_type"@)) == Some(kind)
}

/// The first of `streams` that is of the type `kind`.
pub open spec fn first_of_kind(streams: Seq<JsonTree>, kind: Seq<char>) -> Option<JsonTree>
    decreases streams.len(),
{
    if streams.len() == 0 {
        None
    } else if is_kind(streams[0], kind) {
        Some(streams[0])
    } else {
        first_of_kind(streams.drop_first(), kind)
    }
}

/// The streams that the probing tool lists in `doc`; none where `doc` has
/// no array of that name.
pub open spec fn streams_of(doc: JsonTree) -> Seq<JsonTree> {
    match elements_of(member(doc, "streams"@)) {
        Some(items) => items,
        None => Seq::<JsonTree>::empty(),
    }
}

/// The text under `key` in `t`, or `default` where `t` holds no text there.
pub open spec fn text_or(t: JsonTree, key: Seq<char>, default: Seq<char>) -> Seq<char> {
    match text_of(member(t, key)) {
        Some(s) => s,
        None => default,
    }
}

/// The number under `key` in `t`, reduced to 32 bits; 0 where `t` holds no
/// number there that `serde_json` holds as an unsigned integer.
pub open spec fn dimension(t: JsonTree, key: Seq<char>) -> u32 {
    match number_of(member(t, key)) {
        Some(n) => (n % 0x1_0000_0000) as u32,
        None => 0,
    }
}

/// The duration that `format` reports as a text of seconds, in
/// microseconds; 0 where it reports none that can be read.
pub open spec fn duration_of(format: JsonTree) -> u64 {
    match text_of(member(format, "duration"@)) {
        Some(s) => saturate(field_micros(s)),
        None => 0,
    }
}

/// The bit rate that `format` reports as a text; 0 where it reports none
/// that can be read as an unsigned 64-bit integer.
pub open spec fn bitrate_of(format: JsonTree) -> u64 {
    match text_of(member(format, "bit_rate"@)) {
        Some(s) => match unsigned_value(s) {
            Some(v) => if v <= u64::MAX {
                v as u64
            } else {
                0
            },
            None => 0,
        },
        None => 0,
    }
}

/// The codec of the first audio stream, or `unknown`.
pub open spec fn audio_codec_of(streams: Seq<JsonTree>) -> Seq<char> {
    match first_of_kind(streams, "audio"@) {
        Some(audio) => text_or(audio, "codec_name"@, "unknown"@),
        None => "unknown"@,
    }
}

/// The descriptor of the file at `path`, given the document `doc` that the
/// probing tool printed for it; an error where the document lists no video
/// stream.
pub open spec fn described(path: Seq<char>, doc: JsonTree) -> Result<VideoInfoView, Seq<char>> {
    let streams = streams_of(doc);
    let format = member(doc, "format"@);
    match first_of_kind(streams, "video"@) {
        None => Err("No video stream found"@),
        Some(video) => {
            let codec = text_or(video, "codec_name"@, "unknown"@);
            let audio_codec = audio_codec_of(streams);
            let container = text_or(format, "format_name"@, "unknown"@);
            Ok(
                VideoInfoView {
                    path,
                    filename: display_name(path),
                    codec,
                    audio_codec,
                    container,
                    duration_micros: duration_of(format),
                    width: dimension(video, "width"@),
                    height: dimension(video, "height"@),
                    bitrate: bitrate_of(format),
                    needs_conversion: !mobile_compatible(codec, audio_codec, container),
                },
            )
        },
    }
}

/// The descriptor of the file at `path`, given what the probing tool wrote
/// to its standard output; an error where that is no JSON or lists no video
/// stream.
pub open spec fn probed(path: Seq<char>, stdout: Seq<char>) -> Result<VideoInfoView, Seq<char>> {
    match json_parse(stdout) {
        Ok(doc) => described(path, doc),
        Err(message) => Err("Failed to parse ffprobe output: "@ + message),
    }
}

/// The arguments with which the probing tool is asked about `path`: quiet,
/// JSON output, with the format and the streams.
pub open spec fn probe_arguments(path: Seq<char>) -> Seq<Seq<char>> {
    seq![
        "-v"@,
        "quiet"@,
        "-print_format"@,
        "json"@,
        "-show_format"@,
        "-show_streams"@,
        path,
    ]
}

/// The query that `program` is run with to inspect `path`.
pub open spec fn probe_query(program: Seq<char>, path: Seq<char>) -> CommandView {
    CommandView { program, args: probe_arguments(path) }
}

/// How an inspection ends after one run of the probing tool: `None` where
/// the system's copy has to be run next.
pub open spec fn probe_verdict(path: Seq<char>, attempt: Attempt, outcome: RunOutcome) -> Option<
    Result<VideoInfoView, Seq<char>>,
> {
    match outcome {
        RunOutcome::Exited { success, stdout } => if success {
            Some(probed(path, stdout@))
        } else if attempt == Attempt::Bundled {
            None
        } else {
            Some(Err("Failed to probe video file"@))
        },
        RunOutcome::SpawnFailed { reason } => if attempt == Attempt::Bundled {
            None
        } else {
            Some(Err("Failed to get video info: "@ + reason@))
        },
    }
}

/// The model of the result of an inspection.
pub open spec fn info_result_view(r: Result<VideoInfo, String>) -> Result<
    VideoInfoView,
    Seq<char>,
> {
    match r {
        Ok(info) => Ok(info@),
        Err(e) => Err(e@),
    }
}

/// Every descriptor that is read from a document is consistent: it asks for
/// conversion unless the file is H.264 video and AAC audio in a container
/// whose format name mentions `mp4`.
pub proof fn described_is_consistent(path: Seq<char>, doc: JsonTree)
    ensures
        described(path, doc) matches Ok(info) ==> info.consistent() && (info.needs_conversion
            <==> !(info.codec == "h264"@ && info.audio_codec == "aac"@ && contains_run(
            info.container,
            "mp4"@,
        ))),
{
}

/// An inspection is repeatable: two inspections of one path that meet the
/// same answer of the probing tool give the same descriptor, or the same
/// error.
pub proof fn inspection_is_repeatable(
    path: Seq<char>,
    attempt: Attempt,
    outcome: RunOutcome,
    first: Result<VideoInfo, String>,
    second: Result<VideoInfo, String>,
)
    requires
        probe_verdict(path, attempt, outcome) == Some(info_result_view(first)),
        probe_verdict(path, attempt, outcome) == Some(info_result_view(second)),
    ensures
        info_result_view(first) == info_result_view(second),
        first matches Ok(a) ==> second matches Ok(b) && a@ == b@,
{
}

/// Whether a file with these codecs and this container has to be
/// converted: it has, unless it is H.264 video and AAC audio in a container
/// whose format name mentions `mp4`.
pub fn needs_conversion(codec: &str, audio_codec: &str, container: &str) -> (r: bool)
    ensures
        r == !mobile_compatible(codec@, audio_codec@, container@),
{
    if str_eq(codec, "h264") && str_eq(audio_codec, "aac") {
        let hay = chars_of(container);
        let needle = chars_of("mp4");
        !contains(&hay, &needle)
    } else {
        true
    }
}

/// The query that `program` is run with to inspect `path`.
pub fn probe_command(program: &str, path: &str) -> (c: Command)
    ensures
        c@ == probe_query(program@, path@),
{
    let args = vec![
        "-v".to_owned(),
        "quiet".to_owned(),
        "-print_format".to_owned(),
        "json".to_owned(),
        "-show_format".to_owned(),
        "-show_streams".to_owned(),
        path.to_owned(),
    ];
    assert(texts_of(args@) =~= probe_arguments(path@));
    Command { program: program.to_owned(), args }
}

fn find_stream<'a>(streams: &'a Vec<Value>, kind: &str) -> (r: Option<&'a Value>)
    ensures
        match r {
            Some(v) => first_of_kind(trees_of(streams@), kind@) == Some(json_tree(*v)),
            None => first_of_kind(trees_of(streams@), kind@) is None,
        },
{
    let ghost trees = trees_of(streams@);
    let mut i: usize = 0;
    assert(trees.skip(0) =~= trees);
    while i < streams.len()
        invariant
            i <= streams.len(),
            trees == trees_of(streams@),
            first_of_kind(trees.skip(i as int), kind@) == first_of_kind(trees, kind@),
        decreases streams.len() - i,
    {
        let stream = &streams[i];
        proof {
            assert(trees.skip(i as int)[0] == json_tree(*stream));
            assert(trees.skip(i as int).drop_first() =~= trees.skip(i + 1));
        }
        let matches = match as_text(get(stream, "codec_type")) {
            Some(t) => str_eq(t, kind),
            None => false,
        };
        if matches {
            return Some(stream);
        }
        i += 1;
    }
    None
}

fn read_text(v: &Value, key: &str, default: &str) -> (r: String)
    ensures
        r@ == text_or(json_tree(*v), key@, default@),
{
    match as_text(get(v, key)) {
        Some(s) => s.to_owned(),
        None => default.to_owned(),
    }
}

fn read_dimension(v: &Value, key: &str) -> (r: u32)
    ensures
        r == dimension(json_tree(*v), key@),
{
    match as_number(get(v, key)) {
        Some(n) => (n % 0x1_0000_0000) as u32,
        None => 0,
    }
}

fn read_duration(format: &Value) -> (r: u64)
    ensures
        r == duration_of(json_tree(*format)),
{
    match as_text(get(format, "duration")) {
        Some(s) => parse_seconds(s),
        None => 0,
    }
}

fn read_bitrate(format: &Value) -> (r: u64)
    ensures
        r == bitrate_of(json_tree(*format)),
{
    match as_text(get(format, "bit_rate")) {
        Some(s) => match parse_unsigned(s) {
            Some(v) => v,
            None => 0,
        },
        None => 0,
    }
}

/// Reads the descriptor of the file at `path` from the document that the
/// probing tool printed for it. The first video stream gives codec, width
/// and height, and must be there; the first audio stream, if any, gives the
/// audio codec; the format gives container, duration and bit rate, each
/// with a default where it is missing or cannot be read.
pub fn describe(path: &str, doc: &Value) -> (r: Result<VideoInfo, String>)
    ensures
        info_result_view(r) == described(path@, json_tree(*doc)),
        r matches Ok(info) ==> info@.consistent(),
{
    let none: Vec<Value> = Vec::new();
    let streams = match as_elements(get(doc, "streams")) {
        Some(items) => items,
        None => &none,
    };
    assert(trees_of(streams@) =~= streams_of(json_tree(*doc)));
    let video = match find_stream(streams, "video") {
        Some(v) => v,
        None => {
            return Err("No video stream found".to_owned());
        },
    };
    let codec = read_text(video, "codec_name", "unknown");
    let audio_codec = match find_stream(streams, "audio") {
        Some(audio) => read_text(audio, "codec_name", "unknown"),
        None => "unknown".to_owned(),
    };
    let format = get(doc, "format");
    let container = read_text(format, "format_name", "unknown");
    let needs = needs_conversion(codec.as_str(), audio_codec.as_str(), container.as_str());
    Ok(
        VideoInfo {
            path: path.to_owned(),
            filename: file_name_of(path),
            codec,
            audio_codec,
            container,
            duration_micros: read_duration(format),
            width: read_dimension(video, "width"),
            height: read_dimension(video, "height"),
            bitrate: read_bitrate(format),
            needs_conversion: needs,
        },
    )
}

/// Reads the descriptor of the file at `path` from what the probing tool
/// wrote to its standard output.
pub fn read_probe_output(path: &str, stdout: &str) -> (r: Result<VideoInfo, String>)
    ensures
        info_result_view(r) == probed(path@, stdout@),
        r matches Ok(info) ==> info@.consistent(),
{
    match parse(stdout) {
        Ok(doc) => describe(path, &doc),
        Err(message) => Err(joined("Failed to parse ffprobe output: ", message.as_str())),
    }
}

/// Decides how the inspection of `path` goes on after one run of the
/// probing tool. A run that reports success ends it with the descriptor
/// read from its output. After a first run that failed, the system's
/// `ffprobe` is to be run; after a second, the inspection has failed.
pub fn get_video_info(path: &str, attempt: Attempt, outcome: &RunOutcome) -> (step: ProbeStep)
    ensures
        match step {
            ProbeStep::Retry(c) => probe_verdict(path@, attempt, *outcome) is None && c@
                == probe_query(ffprobe_name(), path@),
            ProbeStep::Done(r) => probe_verdict(path@, attempt, *outcome) == Some(
                info_result_view(r),
            ) && (r matches Ok(info) ==> info@.consistent()),
        },
{
    match outcome {
        RunOutcome::Exited { success, stdout } => {
            if *success {
                ProbeStep::Done(read_probe_output(path, stdout.as_str()))
            } else {
                match attempt {
                    Attempt::Bundled => ProbeStep::Retry(probe_command("ffprobe", path)),
                    Attempt::System => ProbeStep::Done(
                        Err("Failed to probe video file".to_owned()),
                    ),
                }
            }
        },
        RunOutcome::SpawnFailed { reason } => {
            match attempt {
                Attempt::Bundled => ProbeStep::Retry(probe_command("ffprobe", path)),
                Attempt::System => ProbeStep::Done(
                    Err(joined("Failed to get video info: ", reason.as_str())),
                ),
            }
        },
    }
}

} // verus!
