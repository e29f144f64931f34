//! The conversion plan: what happens to each stream, and the argument list
//! that tells the encoder so.

use vstd::prelude::*;
use crate::probe::{mobile_compatible, VideoInfo};
use crate::text::{decimal_string, decimal_text, str_eq, texts_of};

verus! {

/// The number of threads asked for where the machine's count is not known.
pub const DEFAULT_THREAD_COUNT: u32 = 4;

/// What is done with the video stream.
#[derive(Debug, Clone, Copy, PartialEq, Eq, Structural)]
pub enum VideoStrategy {
    /// The stream is H.264 already and is copied as it is.
    Copy,
    /// The stream is encoded anew by the software encoder.
    ReencodeSoftware,
    /// The stream is encoded anew by the platform's hardware encoder.
    ReencodeHardware,
}

/// What is done with the audio stream.
#[derive(Debug, Clone, Copy, PartialEq, Eq, Structural)]
pub enum AudioStrategy {
    /// The stream is AAC already and is copied as it is.
    Copy,
    /// The stream is encoded anew as AAC.
    ReencodeAac,
}

/// How one file is converted.
#[derive(Debug, Clone, Copy, PartialEq, Eq, Structural)]
pub struct ConversionPlan {
    pub video: VideoStrategy,
    pub audio: AudioStrategy,
    pub thread_count: u32,
}

/// The strategy for a video stream of the codec `codec`: copy exactly where
/// it is H.264; else the hardware encoder where the platform has one, and
/// the software encoder where it has none.
pub open spec fn video_strategy_for(codec: Seq<char>, hardware_encoder: bool) -> VideoStrategy {
    if codec == "h264"@ {
        VideoStrategy::Copy
    } else if hardware_encoder {
        VideoStrategy::ReencodeHardware
    } else {
        VideoStrategy::ReencodeSoftware
    }
}

/// The strategy for an audio stream of the codec `codec`: copy exactly
/// where it is AAC.
pub open spec fn audio_strategy_for(codec: Seq<char>) -> AudioStrategy {
    if codec == "aac"@ {
        AudioStrategy::Copy
    } else {
        AudioStrategy::ReencodeAac
    }
}

/// The plan for a file with these codecs.
pub open spec fn planned(
    codec: Seq<char>,
    audio_codec: Seq<char>,
    hardware_encoder: bool,
    thread_count: u32,
) -> ConversionPlan {
    ConversionPlan {
        video: video_strategy_for(codec, hardware_encoder),
        audio: audio_strategy_for(audio_codec),
        thread_count,
    }
}

/// The arguments that say what to do with the video stream. `threads` is
/// the thread count as a numeral.
pub open spec fn video_arguments(strategy: VideoStrategy, threads: Seq<char>) -> Seq<Seq<char>> {
    match strategy {
        VideoStrategy::Copy => seq!["-c:v"@, "copy"@],
        VideoStrategy::ReencodeHardware => seq![
            "-c:v"@,
            "h264_videotoolbox"@,
            "-q:v"@,
            "65"@,
            "-profile:v"@,
            "main"@,
            "-level"@,
            "4.0"@,
            "-allow_sw"@,
            "1"@,
        ],
        VideoStrategy::ReencodeSoftware => seq![
            "-c:v"@,
            "libx264"@,
            "-preset"@,
            "fast"@,
            "-crf"@,
            "23"@,
            "-profile:v"@,
            "main"@,
            "-level"@,
            "4.0"@,
            "-threads"@,
            threads,
        ],
    }
}

/// The arguments that say what to do with the audio stream.
pub open spec fn audio_arguments(strategy: AudioStrategy) -> Seq<Seq<char>> {
    match strategy {
        AudioStrategy::Copy => seq!["-c:a"@, "copy"@],
        AudioStrategy::ReencodeAac => seq!["-c:a"@, "aac"@, "-b:a"@, "128k"@],
    }
}

/// The whole argument list of the encoder, in order: decoding threads,
/// overwrite, the input; the video stream; pixel format and fast start; the
/// audio stream; threads, the progress stream on standard output, the output.
pub open spec fn encoder_arguments(
    plan: ConversionPlan,
    input_path: Seq<char>,
    output_path: Seq<char>,
) -> Seq<Seq<char>> {
    let threads = decimal_text(plan.thread_count as nat);
    seq!["-threads"@, threads, "-y"@, "-i"@, input_path] + video_arguments(plan.video, threads)
        + seq!["-pix_fmt"@, "yuv420p"@, "-movflags"@, "+faststart"@] + audio_arguments(plan.audio)
        + seq!["-threads"@, threads, "-progress"@, "pipe:1"@, output_path]
}

/// A file that is mobile compatible already is converted by copying both
/// of its streams, whatever the platform offers.
pub proof fn compatible_file_is_copied(
    codec: Seq<char>,
    audio_codec: Seq<char>,
    container: Seq<char>,
    hardware_encoder: bool,
    thread_count: u32,
)
    requires
        mobile_compatible(codec, audio_codec, container),
    ensures
        planned(codec, audio_codec, hardware_encoder, thread_count).video == VideoStrategy::Copy,
        planned(codec, audio_codec, hardware_encoder, thread_count).audio == AudioStrategy::Copy,
{
}

/// Whatever the plan, the argument list opens with the thread count, the
/// overwrite flag and the input, and ends with the progress stream on
/// standard output and the output path.
pub proof fn arguments_frame_the_plan(
    plan: ConversionPlan,
    input_path: Seq<char>,
    output_path: Seq<char>,
)
    ensures
        ({
            let args = encoder_arguments(plan, input_path, output_path);
            let n = args.len() as int;
            &&& n >= 18
            &&& args[0] == "-threads"@
            &&& args[1] == decimal_text(plan.thread_count as nat)
            &&& args[2] == "-y"@
            &&& args[3] == "-i"@
            &&& args[4] == input_path
            &&& args[n - 3] == "-progress"@
            &&& args[n - 2] == "pipe:1"@
            &&& args[n - 1] == output_path
        }),
{
}

/// The number of threads to ask for: the machine's count of logical
/// processors where it is known, else four.
pub fn get_thread_count(detected: Option<u32>) -> (n: u32)
    ensures
        n == match detected {
            Some(count) => count,
            None => DEFAULT_THREAD_COUNT,
        },
{
    match detected {
        Some(count) => count,
        None => DEFAULT_THREAD_COUNT,
    }
}

/// Plans the conversion of the file that `info` describes.
/// `hardware_encoder` says whether the platform has a hardware encoder.
pub fn plan(info: &VideoInfo, hardware_encoder: bool, thread_count: u32) -> (p: ConversionPlan)
    ensures
        p == planned(info.codec@, info.audio_codec@, hardware_encoder, thread_count),
        p.video == VideoStrategy::Copy <==> info.codec@ == "h264"@,
        p.audio == AudioStrategy::Copy <==> info.audio_codec@ == "aac"@,
        p.video == VideoStrategy::ReencodeHardware ==> hardware_encoder,
{
    let video = if str_eq(info.codec.as_str(), "h264") {
        VideoStrategy::Copy
    } else if hardware_encoder {
        VideoStrategy::ReencodeHardware
    } else {
        VideoStrategy::ReencodeSoftware
    };
    let audio = if str_eq(info.audio_codec.as_str(), "aac") {
        AudioStrategy::Copy
    } else {
        AudioStrategy::ReencodeAac
    };
    ConversionPlan { video, audio, thread_count }
}

fn video_args(strategy: VideoStrategy, threads: &str) -> (args: Vec<String>)
    ensures
        texts_of(args@) == video_arguments(strategy, threads@),
{
    let args = match strategy {
        VideoStrategy::Copy => vec!["-c:v".to_owned(), "copy".to_owned()],
        VideoStrategy::ReencodeHardware => vec![
            "-c:v".to_owned(),
            "h264_videotoolbox".to_owned(),
            "-q:v".to_owned(),
            "65".to_owned(),
            "-profile:v".to_owned(),
            "main".to_owned(),
            "-level".to_owned(),
            "4.0".to_owned(),
            "-allow_sw".to_owned(),
            "1".to_owned(),
        ],
        VideoStrategy::ReencodeSoftware => vec![
            "-c:v".to_owned(),
            "libx264".to_owned(),
            "-preset".to_owned(),
            "fast".to_owned(),
            "-crf".to_owned(),
            "23".to_owned(),
            "-profile:v".to_owned(),
            "main".to_owned(),
            "-level".to_owned(),
            "4.0".to_owned(),
            "-threads".to_owned(),
            threads.to_owned(),
        ],
    };
    assert(texts_of(args@) =~= video_arguments(strategy, threads@));
    args
}

fn audio_args(strategy: AudioStrategy) -> (args: Vec<String>)
    ensures
        texts_of(args@) == audio_arguments(strategy),
{
    let args = match strategy {
        AudioStrategy::Copy => vec!["-c:a".to_owned(), "copy".to_owned()],
        AudioStrategy::ReencodeAac => vec![
            "-c:a".to_owned(),
            "aac".to_owned(),
            "-b:a".to_owned(),
            "128k".to_owned(),
        ],
    };
    assert(texts_of(args@) =~= audio_arguments(strategy));
    args
}

/// Writes the argument list with which the encoder carries out `plan` on
/// `input_path`, writing to `output_path`.
pub fn build_arguments(plan: &ConversionPlan, input_path: &str, output_path: &str) -> (args: Vec<
    String,
>)
    ensures
        texts_of(args@) == encoder_arguments(*plan, input_path@, output_path@),
{
    let threads = decimal_string(plan.thread_count);
    let mut args = vec![
        "-threads".to_owned(),
        threads.clone(),
        "-y".to_owned(),
        "-i".to_owned(),
        input_path.to_owned(),
    ];
    let mut video = video_args(plan.video, threads.as_str());
    let mut middle = vec![
        "-pix_fmt".to_owned(),
        "yuv420p".to_owned(),
        "-movflags".to_owned(),
        "+faststart".to_owned(),
    ];
    let mut audio = audio_args(plan.audio);
    let mut end = vec![
        "-threads".to_owned(),
        threads,
        "-progress".to_owned(),
        "pipe:1".to_owned(),
        output_path.to_owned(),
    ];
    let ghost a = texts_of(args@);
    let ghost v = texts_of(video@);
    let ghost m = texts_of(middle@);
    let ghost u = texts_of(audio@);
    let ghost e = texts_of(end@);
    args.append(&mut video);
    args.append(&mut middle);
    args.append(&mut audio);
    args.append(&mut end);
    assert(texts_of(args@) =~= a + v + m + u + e);
    assert(a =~= seq!["-threads"@, threads@, "-y"@, "-i"@, input_path@]);
    assert(m =~= seq!["-pix_fmt"@, "yuv420p"@, "-movflags"@, "+faststart"@]);
    assert(e =~= seq!["-threads"@, threads@, "-progress"@, "pipe:1"@, output_path@]);
    args
}

} // verus!
