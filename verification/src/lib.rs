//! The engine of a video converter for mobile playback.
//!
//! Given what the probing tool says of a media file, the library decides
//! whether the file already is H.264 video and AAC audio in an MP4
//! container, plans the conversion stream by stream, writes the encoder's
//! argument list, reads the encoder's progress from its status stream and
//! classifies how it ended. It runs no process and touches no file: its
//! user does, and reports back.

pub mod command;
pub mod engine;
pub mod files;
pub mod json;
pub mod paths;
pub mod plan;
pub mod probe;
pub mod registry;
pub mod text;
pub mod timecode;

pub use command::{check_ffmpeg, version_command, Attempt, CheckStep, Command, RunOutcome};
pub use engine::{
    convert_video, event_name, Action, Conversion, ConversionProgress, Event, Phase, Status, Step,
};
pub use files::delete_file;
pub use paths::{
    bundled_candidate, file_name_of, get_ffmpeg_path, get_ffprobe_path, locate, output_path,
};
pub use plan::{
    build_arguments, get_thread_count, plan, AudioStrategy, ConversionPlan, VideoStrategy,
    DEFAULT_THREAD_COUNT,
};
pub use probe::{
    describe, get_video_info, needs_conversion, probe_command, read_probe_output, ProbeStep,
    VideoInfo,
};
pub use registry::TaskRegistry;
pub use timecode::{
    parse_clock_time, parse_seconds, parse_timestamp, progress_percent, MICROS_PER_SECOND,
    PROGRESS_CEILING, PROGRESS_COMPLETE,
};
