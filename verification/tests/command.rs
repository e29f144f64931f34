use video_converter::{check_ffmpeg, version_command, Attempt, CheckStep, RunOutcome};

fn exited(success: bool) -> RunOutcome {
    RunOutcome::Exited { success, stdout: "ffmpeg version 6.0".to_string() }
}

fn spawn_failed(reason: &str) -> RunOutcome {
    RunOutcome::SpawnFailed { reason: reason.to_string() }
}

#[test]
fn version_command_asks_for_the_version() {
    let command = version_command("/opt/app/ffmpeg");
    assert_eq!(command.program, "/opt/app/ffmpeg");
    assert_eq!(command.args, vec!["-version"]);
}

#[test]
fn located_encoder_that_answers_is_available() {
    match check_ffmpeg(Attempt::Bundled, &exited(true)) {
        CheckStep::Done(available) => assert!(available),
        other => panic!("unexpected step {:?}", other),
    }
}

#[test]
fn located_encoder_that_fails_hands_over_to_the_system() {
    for outcome in [exited(false), spawn_failed("No such file or directory")] {
        match check_ffmpeg(Attempt::Bundled, &outcome) {
            CheckStep::Retry(command) => {
                assert_eq!(command.program, "ffmpeg");
                assert_eq!(command.args, vec!["-version"]);
            }
            other => panic!("unexpected step {:?}", other),
        }
    }
}

#[test]
fn system_encoder_decides() {
    match check_ffmpeg(Attempt::System, &exited(true)) {
        CheckStep::Done(available) => assert!(available),
        other => panic!("unexpected step {:?}", other),
    }
    match check_ffmpeg(Attempt::System, &exited(false)) {
        CheckStep::Done(available) => assert!(!available),
        other => panic!("unexpected step {:?}", other),
    }
}

#[test]
fn encoder_that_cannot_start_is_not_available() {
    match check_ffmpeg(Attempt::System, &spawn_failed("No such file or directory")) {
        CheckStep::Done(available) => assert!(!available),
        other => panic!("unexpected step {:?}", other),
    }
}
