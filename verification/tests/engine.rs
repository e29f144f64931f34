use std::path::Path;
use video_converter::{
    convert_video, event_name, Action, Attempt, Conversion, ConversionProgress, Event, Phase,
    RunOutcome, Status, Step,
};

const MOBILE: &str = r#"{
  "streams": [
    {"codec_type": "video", "codec_name": "h264", "width": 1920, "height": 1080},
    {"codec_type": "audio", "codec_name": "aac"}
  ],
  "format": {"format_name": "mov,mp4,m4a,3gp,3g2,mj2", "duration": "10.0"}
}"#;

const HEVC: &str = r#"{
  "streams": [
    {"codec_type": "video", "codec_name": "hevc", "width": 3840, "height": 2160},
    {"codec_type": "audio", "codec_name": "mp3"}
  ],
  "format": {"format_name": "matroska,webm", "duration": "120.0"}
}"#;

fn begin(input: &str, hardware: bool) -> Conversion {
    let (state, command) =
        Conversion::begin(input, "/out", "task-7", "/opt/app/ffprobe", "/opt/app/ffmpeg", 8, hardware);
    assert_eq!(command.program, "/opt/app/ffprobe");
    assert_eq!(command.args.last().unwrap(), input);
    assert_eq!(command.args.len(), 7);
    state
}

fn probed(stdout: &str) -> Event {
    Event::ProbeEnded(RunOutcome::Exited { success: true, stdout: stdout.to_string() })
}

fn line(text: &str) -> Event {
    Event::Line(text.to_string())
}

fn exited(success: bool, output_exists: bool) -> Event {
    let status = if success { "exit status: 0" } else { "exit status: 1" };
    Event::Exited { success, status: status.to_string(), output_exists }
}

fn expected_output(stem: &str) -> String {
    Path::new("/out").join(format!("{}_converted.mp4", stem)).to_string_lossy().into_owned()
}

fn assert_idle(step: &Step) {
    assert!(step.emit.is_none());
    assert!(step.action.is_none());
    assert!(step.result.is_none());
}

fn assert_failed(step: Step, message: &str) {
    let event = step.emit.unwrap();
    assert_eq!(event.status, Status::Error);
    assert_eq!(event.task_id, "task-7");
    assert_eq!(event.progress, 0);
    assert!(event.output_path.is_none());
    assert_eq!(event.error.as_deref(), Some(message));
    assert!(step.action.is_none());
    assert_eq!(step.result.unwrap().unwrap_err(), message);
}

fn encoding(input: &str, stdout: &str) -> Conversion {
    let (state, _) = convert_video(begin(input, false), probed(stdout));
    assert_eq!(state.phase, Phase::Encoding);
    state
}

#[test]
fn conversion_begins_by_probing() {
    let state = begin("/videos/film.mkv", false);
    assert_eq!(state.phase, Phase::Probing(Attempt::Bundled));
    assert_eq!(state.task_id, "task-7");
    assert_eq!(state.input_path, "/videos/film.mkv");
    assert_eq!(state.output_path, expected_output("film"));
    assert_eq!(state.ffmpeg_path, "/opt/app/ffmpeg");
    assert_eq!(state.thread_count, 8);
    assert!(!state.hardware_encoder);
    assert_eq!(state.duration_micros, 0);
}

#[test]
fn mobile_file_is_still_converted_by_copying() {
    let (state, step) = convert_video(begin("/videos/phone.mp4", false), probed(MOBILE));
    assert_eq!(state.phase, Phase::Encoding);
    assert_eq!(state.duration_micros, 10_000_000);
    let started = step.emit.unwrap();
    assert_eq!(started.status, Status::Starting);
    assert_eq!(started.progress, 0);
    assert_eq!(started.task_id, "task-7");
    assert!(started.output_path.is_none());
    assert!(started.error.is_none());
    assert!(step.result.is_none());
    match step.action.unwrap() {
        Action::Encode(command) => {
            assert_eq!(command.program, "/opt/app/ffmpeg");
            assert_eq!(
                command.args,
                vec![
                    "-threads".to_string(), "8".to_string(), "-y".to_string(), "-i".to_string(),
                    "/videos/phone.mp4".to_string(),
                    "-c:v".to_string(), "copy".to_string(),
                    "-pix_fmt".to_string(), "yuv420p".to_string(),
                    "-movflags".to_string(), "+faststart".to_string(),
                    "-c:a".to_string(), "copy".to_string(),
                    "-threads".to_string(), "8".to_string(),
                    "-progress".to_string(), "pipe:1".to_string(),
                    expected_output("phone"),
                ]
            );
        }
        other => panic!("unexpected action {:?}", other),
    }
    let (state, step) = convert_video(state, exited(true, true));
    assert_eq!(state.phase, Phase::Finished);
    assert_eq!(step.emit.unwrap().status, Status::Completed);
    assert_eq!(step.result.unwrap().unwrap(), expected_output("phone"));
}

#[test]
fn conversion_reports_progress_and_completes() {
    let (mut state, step) = convert_video(begin("/videos/film.mkv", false), probed(HEVC));
    let mut events: Vec<ConversionProgress> = vec![step.emit.unwrap()];
    match step.action.unwrap() {
        Action::Encode(command) => {
            assert!(command.args.contains(&"libx264".to_string()));
            assert!(command.args.contains(&"aac".to_string()));
            assert!(command.args.contains(&"128k".to_string()));
            assert!(!command.args.contains(&"copy".to_string()));
        }
        other => panic!("unexpected action {:?}", other),
    }
    let lines = [
        "frame=10",
        "out_time_ms=1000000",
        "out_time=00:00:01.000000",
        "progress=continue",
        "out_time=00:01:00.000000",
        "out_time=00:01:00.000000",
        "out_time=00:01:59.999999",
        "out_time=00:03:00.000000",
        "progress=end",
    ];
    for text in lines {
        let (next, step) = convert_video(state, line(text));
        state = next;
        assert_eq!(state.phase, Phase::Encoding);
        assert!(step.action.is_none());
        assert!(step.result.is_none());
        if let Some(event) = step.emit {
            events.push(event);
        }
    }
    let (state, step) = convert_video(state, exited(true, true));
    assert_eq!(state.phase, Phase::Finished);
    assert!(step.action.is_none());
    let path = step.result.unwrap().unwrap();
    assert_eq!(path, expected_output("film"));
    assert!(path.ends_with("_converted.mp4"));
    events.push(step.emit.unwrap());

    let progress: Vec<u32> = events.iter().map(|e| e.progress).collect();
    assert_eq!(progress, vec![0, 83, 5_000, 5_000, 9_900, 9_900, 10_000]);
    let statuses: Vec<Status> = events.iter().map(|e| e.status).collect();
    assert_eq!(
        statuses,
        vec![
            Status::Starting,
            Status::Converting,
            Status::Converting,
            Status::Converting,
            Status::Converting,
            Status::Converting,
            Status::Completed,
        ]
    );
    for event in &events {
        assert_eq!(event.task_id, "task-7");
        assert!(event.error.is_none());
        assert_eq!(event.output_path.is_some(), event.status == Status::Completed);
    }
    assert_eq!(events.last().unwrap().output_path.as_deref(), Some(path.as_str()));
}

#[test]
fn hardware_encoder_is_used_where_the_platform_has_one() {
    let (_, step) = convert_video(begin("/videos/film.mkv", true), probed(HEVC));
    match step.action.unwrap() {
        Action::Encode(command) => {
            assert!(command.args.contains(&"h264_videotoolbox".to_string()));
            assert!(!command.args.contains(&"libx264".to_string()));
        }
        other => panic!("unexpected action {:?}", other),
    }
}

#[test]
fn failed_encoder_gives_one_error_event() {
    let state = encoding("/videos/film.mkv", HEVC);
    let (state, step) = convert_video(state, line("out_time=00:00:30.0"));
    assert_eq!(step.emit.unwrap().progress, 2_500);
    let (state, step) = convert_video(state, exited(false, true));
    assert_eq!(state.phase, Phase::Finished);
    let event = step.emit.unwrap();
    assert_eq!(event.status, Status::Error);
    assert_eq!(event.status.name(), "error");
    assert_eq!(event.progress, 0);
    assert!(event.output_path.is_none());
    assert_eq!(event.error.as_deref(), Some("FFmpeg exited with status: exit status: 1"));
    assert_eq!(step.result.unwrap().unwrap_err(), "FFmpeg exited with status: exit status: 1");
    assert!(step.action.is_none());
    let (state, step) = convert_video(state, exited(false, true));
    assert_eq!(state.phase, Phase::Finished);
    assert_idle(&step);
}

#[test]
fn failed_encoder_without_output_names_the_exit_status() {
    let (_, step) = convert_video(encoding("/videos/film.mkv", HEVC), exited(false, false));
    assert_eq!(step.result.unwrap().unwrap_err(), "FFmpeg exited with status: exit status: 1");
}

#[test]
fn missing_output_after_success_is_an_error() {
    let (state, step) = convert_video(encoding("/videos/film.mkv", HEVC), exited(true, false));
    assert_eq!(state.phase, Phase::Finished);
    let event = step.emit.unwrap();
    assert_eq!(event.status, Status::Error);
    assert_eq!(event.error.as_deref(), Some("Output file not created"));
    assert!(event.output_path.is_none());
    assert_eq!(step.result.unwrap().unwrap_err(), "Output file not created");
}

#[test]
fn failed_inspection_ends_with_an_error_event() {
    let state = begin("/videos/film.mkv", false);
    let (state, step) = convert_video(
        state,
        Event::ProbeEnded(RunOutcome::SpawnFailed { reason: "not found".to_string() }),
    );
    assert_eq!(state.phase, Phase::Probing(Attempt::System));
    assert!(step.emit.is_none());
    assert!(step.result.is_none());
    match step.action.unwrap() {
        Action::Probe(command) => {
            assert_eq!(command.program, "ffprobe");
            assert_eq!(command.args.last().unwrap(), "/videos/film.mkv");
        }
        other => panic!("unexpected action {:?}", other),
    }
    let (state, step) = convert_video(
        state,
        Event::ProbeEnded(RunOutcome::SpawnFailed { reason: "not found".to_string() }),
    );
    assert_eq!(state.phase, Phase::Finished);
    assert_failed(step, "Failed to get video info: not found");
}

#[test]
fn second_inspection_can_succeed() {
    let state = begin("/videos/film.mkv", false);
    let (state, _) = convert_video(
        state,
        Event::ProbeEnded(RunOutcome::Exited { success: false, stdout: String::new() }),
    );
    assert_eq!(state.phase, Phase::Probing(Attempt::System));
    let (state, step) = convert_video(state, probed(HEVC));
    assert_eq!(state.phase, Phase::Encoding);
    assert_eq!(state.duration_micros, 120_000_000);
    assert_eq!(step.emit.unwrap().status, Status::Starting);
}

#[test]
fn second_inspection_that_exits_badly_fails() {
    let state = begin("/videos/film.mkv", false);
    let (state, _) = convert_video(
        state,
        Event::ProbeEnded(RunOutcome::Exited { success: false, stdout: String::new() }),
    );
    let (state, step) = convert_video(
        state,
        Event::ProbeEnded(RunOutcome::Exited { success: false, stdout: HEVC.to_string() }),
    );
    assert_eq!(state.phase, Phase::Finished);
    assert_failed(step, "Failed to probe video file");
}

#[test]
fn input_without_video_stream_ends_with_an_error_event() {
    let (state, step) = convert_video(begin("/music/song.mp3", false), probed("{}"));
    assert_eq!(state.phase, Phase::Finished);
    assert_failed(step, "No video stream found");
    let (state, step) = convert_video(state, probed("{}"));
    assert_eq!(state.phase, Phase::Finished);
    assert_idle(&step);
}

#[test]
fn encoder_that_cannot_start_ends_with_an_error_event() {
    let (state, step) = convert_video(
        encoding("/videos/film.mkv", HEVC),
        Event::SpawnFailed { reason: "permission denied".to_string() },
    );
    assert_eq!(state.phase, Phase::Finished);
    assert_failed(step, "Failed to start ffmpeg: permission denied");
}

#[test]
fn encoder_without_captured_output_ends_with_an_error_event() {
    let (state, step) =
        convert_video(encoding("/videos/film.mkv", HEVC), Event::OutputNotCaptured);
    assert_eq!(state.phase, Phase::Finished);
    assert_failed(step, "Failed to capture stdout");
}

#[test]
fn encoder_that_cannot_be_waited_for_ends_with_an_error_event() {
    let (state, step) = convert_video(
        encoding("/videos/film.mkv", HEVC),
        Event::WaitFailed { reason: "interrupted".to_string() },
    );
    assert_eq!(state.phase, Phase::Finished);
    assert_failed(step, "FFmpeg process error: interrupted");
}

#[test]
fn unknown_duration_gives_zero_progress() {
    let no_duration = r#"{"streams": [{"codec_type": "video", "codec_name": "vp9"}]}"#;
    let state = encoding("/videos/clip.webm", no_duration);
    assert_eq!(state.duration_micros, 0);
    let (_, step) = convert_video(state, line("out_time=00:10:00.00"));
    let event = step.emit.unwrap();
    assert_eq!(event.status, Status::Converting);
    assert_eq!(event.progress, 0);
}

#[test]
fn garbled_time_gives_zero_progress() {
    let (_, step) = convert_video(encoding("/videos/film.mkv", HEVC), line("out_time=bad"));
    let event = step.emit.unwrap();
    assert_eq!(event.status, Status::Converting);
    assert_eq!(event.progress, 0);
}

#[test]
fn events_out_of_phase_are_ignored() {
    let state = begin("/videos/film.mkv", false);
    let (state, step) = convert_video(state, line("out_time=00:00:01.0"));
    assert_eq!(state.phase, Phase::Probing(Attempt::Bundled));
    assert_idle(&step);
    let (state, step) = convert_video(state, exited(true, true));
    assert_eq!(state.phase, Phase::Probing(Attempt::Bundled));
    assert_idle(&step);
    let (state, step) =
        convert_video(state, Event::SpawnFailed { reason: "x".to_string() });
    assert_eq!(state.phase, Phase::Probing(Attempt::Bundled));
    assert_idle(&step);

    let state = encoding("/videos/film.mkv", HEVC);
    let (state, step) = convert_video(state, probed(HEVC));
    assert_eq!(state.phase, Phase::Encoding);
    assert_idle(&step);
}

#[test]
fn finished_conversion_stays_finished() {
    let (mut state, _) = convert_video(encoding("/videos/film.mkv", HEVC), exited(true, true));
    let events = vec![
        probed(HEVC),
        line("out_time=00:00:01.0"),
        exited(true, true),
        exited(false, false),
        Event::OutputNotCaptured,
        Event::SpawnFailed { reason: "x".to_string() },
        Event::WaitFailed { reason: "x".to_string() },
    ];
    for event in events {
        let (next, step) = convert_video(state, event);
        state = next;
        assert_eq!(state.phase, Phase::Finished);
        assert_idle(&step);
    }
}

#[test]
fn progress_event_constructors() {
    let starting = ConversionProgress::starting("t");
    assert_eq!((starting.status, starting.progress), (Status::Starting, 0));
    let converting = ConversionProgress::converting("t", 83_450_000, 120_000_000);
    assert_eq!((converting.status, converting.progress), (Status::Converting, 6_954));
    assert!(converting.output_path.is_none() && converting.error.is_none());
    let capped = ConversionProgress::converting("t", 120_000_000, 120_000_000);
    assert_eq!(capped.progress, 9_900);
    let completed = ConversionProgress::completed("t", "/out/a_converted.mp4");
    assert_eq!((completed.status, completed.progress), (Status::Completed, 10_000));
    assert_eq!(completed.output_path.as_deref(), Some("/out/a_converted.mp4"));
    assert!(completed.error.is_none());
    let failed = ConversionProgress::failed("t", "boom");
    assert_eq!((failed.status, failed.progress), (Status::Error, 0));
    assert_eq!(failed.error.as_deref(), Some("boom"));
    assert!(failed.output_path.is_none());
    assert_eq!(failed.task_id, "t");
}

#[test]
fn status_names() {
    assert_eq!(Status::Starting.name(), "starting");
    assert_eq!(Status::Converting.name(), "converting");
    assert_eq!(Status::Completed.name(), "completed");
    assert_eq!(Status::Error.name(), "error");
}

#[test]
fn event_name_carries_the_task_id() {
    assert_eq!(event_name("task-7"), "conversion-progress-task-7");
    assert_eq!(event_name(""), "conversion-progress-");
}

#[test]
fn unparseable_probe_output_ends_with_an_error_event() {
    let (state, step) = convert_video(begin("/videos/film.mkv", false), probed("not json"));
    assert_eq!(state.phase, Phase::Finished);
    let event = step.emit.unwrap();
    assert_eq!(event.status, Status::Error);
    let message = event.error.unwrap();
    assert!(message.starts_with("Failed to parse ffprobe output: "));
    assert!(event.output_path.is_none());
    assert_eq!(step.result.unwrap().unwrap_err(), message);
}

#[test]
fn every_ended_conversion_has_one_closing_event() {
    let endings = vec![
        vec![probed("{}")],
        vec![probed(HEVC), Event::SpawnFailed { reason: "x".to_string() }],
        vec![probed(HEVC), Event::OutputNotCaptured],
        vec![probed(HEVC), line("out_time=00:00:01.0"), Event::WaitFailed { reason: "x".to_string() }],
        vec![probed(HEVC), line("out_time=00:00:01.0"), exited(false, false)],
        vec![probed(HEVC), line("out_time=00:00:01.0"), exited(true, false)],
        vec![probed(HEVC), line("out_time=00:00:01.0"), exited(true, true)],
    ];
    for events in endings {
        let mut state = begin("/videos/film.mkv", false);
        let mut sent: Vec<ConversionProgress> = Vec::new();
        let mut results = 0;
        for event in events.into_iter().chain(vec![exited(true, true), probed(HEVC)]) {
            let (next, step) = convert_video(state, event);
            state = next;
            if let Some(p) = step.emit {
                sent.push(p);
            }
            if step.result.is_some() {
                results += 1;
            }
        }
        assert_eq!(state.phase, Phase::Finished);
        assert_eq!(results, 1);
        let closing: Vec<usize> = sent
            .iter()
            .enumerate()
            .filter(|(_, p)| p.status == Status::Completed || p.status == Status::Error)
            .map(|(i, _)| i)
            .collect();
        assert_eq!(closing, vec![sent.len() - 1]);
        for (i, p) in sent.iter().enumerate() {
            assert_eq!(p.status == Status::Starting, i == 0 && sent.len() > 1);
        }
    }
}
