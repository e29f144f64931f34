use std::path::Path;
use video_converter::{
    bundled_candidate, file_name_of, get_ffmpeg_path, get_ffprobe_path, locate, output_path,
};

fn std_join(dir: &str, name: &str) -> String {
    Path::new(dir).join(name).to_string_lossy().into_owned()
}

#[test]
fn bundled_candidate_lies_in_the_given_directory() {
    assert_eq!(bundled_candidate("/opt/app", "ffmpeg"), std_join("/opt/app", "ffmpeg"));
    assert_ne!(bundled_candidate("/opt/app", "ffmpeg"), "/opt/app");
    assert_ne!(bundled_candidate("/opt/app", "ffmpeg"), "ffmpeg");
    assert!(bundled_candidate("/opt/app", "ffprobe").ends_with("ffprobe"));
    assert!(bundled_candidate("/opt/app", "ffprobe").starts_with("/opt/app"));
}

#[test]
fn bundled_encoder_is_preferred_where_it_exists() {
    assert_eq!(get_ffmpeg_path(Some("/opt/app"), true), std_join("/opt/app", "ffmpeg"));
    assert_eq!(get_ffprobe_path(Some("/opt/app"), true), std_join("/opt/app", "ffprobe"));
}

#[test]
fn bare_name_is_the_fallback() {
    assert_eq!(get_ffmpeg_path(Some("/opt/app"), false), "ffmpeg");
    assert_eq!(get_ffmpeg_path(None, false), "ffmpeg");
    assert_eq!(get_ffmpeg_path(None, true), "ffmpeg");
    assert_eq!(get_ffprobe_path(Some("/opt/app"), false), "ffprobe");
    assert_eq!(get_ffprobe_path(None, false), "ffprobe");
    assert_eq!(get_ffprobe_path(None, true), "ffprobe");
}

#[test]
fn locate_works_for_any_name() {
    assert_eq!(locate("tool", Some("bin"), true), std_join("bin", "tool"));
    assert_eq!(locate("tool", Some("bin"), false), "tool");
    assert_eq!(locate("tool", None, true), "tool");
}

#[test]
fn file_name_is_the_last_component() {
    assert_eq!(file_name_of("/videos/holiday.mkv"), "holiday.mkv");
    assert_eq!(file_name_of("holiday.mkv"), "holiday.mkv");
    assert_eq!(file_name_of("videos/clips/"), "clips");
}

#[test]
fn path_without_last_component_is_shown_whole() {
    assert_eq!(file_name_of(""), "");
    assert_eq!(file_name_of("/"), "/");
    assert_eq!(file_name_of("videos/.."), "videos/..");
}

#[test]
fn output_is_named_after_the_input_stem() {
    assert_eq!(
        output_path("/videos/holiday.mkv", "/out"),
        std_join("/out", "holiday_converted.mp4")
    );
    assert_eq!(output_path("clip.tar.gz", "out"), std_join("out", "clip.tar_converted.mp4"));
    assert_eq!(output_path("noext", "out"), std_join("out", "noext_converted.mp4"));
    assert_eq!(output_path(".hidden", "out"), std_join("out", ".hidden_converted.mp4"));
    assert!(output_path("/videos/holiday.mp4", "/out").ends_with("_converted.mp4"));
}

#[test]
fn output_of_a_path_without_stem_is_named_output() {
    assert_eq!(output_path("", "/out"), std_join("/out", "output_converted.mp4"));
    assert_eq!(output_path("/", "/out"), std_join("/out", "output_converted.mp4"));
    assert_eq!(output_path("a/..", "/out"), std_join("/out", "output_converted.mp4"));
}
