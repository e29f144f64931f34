//! The conversion engine, as a state machine. It runs no process itself:
//! each step takes what has happened and says what to report, what to run
//! next, and whether the conversion has ended.
//!
//! A conversion first inspects its input, then runs the encoder and follows
//! its status stream, then classifies how the encoder ended. It ends with
//! exactly one closing event, `completed` or `error`, which tells a
//! listener what the result tells the caller. An event that does not belong
//! to the phase at hand is ignored.

use vstd::prelude::*;
use crate::command::{Attempt, Command, CommandView, RunOutcome};
use crate::paths::{ffprobe_name, output_path, output_path_of};
use crate::plan::{build_arguments, encoder_arguments, plan, planned};
use crate::probe::{
    get_video_info, probe_command, probe_query, probe_verdict, ProbeStep, VideoInfoView,
};
use crate::text::{joined, saturate};
use crate::timecode::{
    parse_timestamp, progress_of, progress_percent, timestamp_of_line, PROGRESS_CEILING,
    PROGRESS_COMPLETE,
};

verus! {

/// Where a conversion stands, as its progress events say it.
#[derive(Debug, Clone, Copy, PartialEq, Eq, Structural)]
pub enum Status {
    Starting,
    Converting,
    Completed,
    Error,
}

/// One progress event of a conversion.
#[derive(Debug, Clone)]
pub struct ConversionProgress {
    /// The identifier that the caller gave the conversion.
    pub task_id: String,
    /// Progress in hundredths of a percent, from 0 to `PROGRESS_COMPLETE`.
    pub progress: u32,
    pub status: Status,
    /// The file written; there exactly on `Completed`.
    pub output_path: Option<String>,
    /// What went wrong; there exactly on `Error`.
    pub error: Option<String>,
}

/// The mathematical model of a [`ConversionProgress`].
pub struct ProgressView {
    pub task_id: Seq<char>,
    pub progress: u32,
    pub status: Status,
    pub output_path: Option<Seq<char>>,
    pub error: Option<Seq<char>>,
}

impl View for ConversionProgress {
    type V = ProgressView;

    open spec fn view(&self) -> ProgressView {
        ProgressView {
            task_id: self.task_id@,
            progress: self.progress,
            status: self.status,
            output_path: optional_text(self.output_path),
            error: optional_text(self.error),
        }
    }
}

impl ProgressView {
    /// The invariant of a progress event: an output path exactly on
    /// completion, an error exactly on failure, and a progress that fits
    /// the status. Only a completed conversion is at 100 %.
    pub open spec fn well_formed(self) -> bool {
        &&& self.output_path is Some <==> self.status == Status::Completed
        &&& self.error is Some <==> self.status == Status::Error
        &&& match self.status {
            Status::Starting => self.progress == 0,
            Status::Converting => self.progress <= PROGRESS_CEILING,
            Status::Completed => self.progress == PROGRESS_COMPLETE,
            Status::Error => self.progress == 0,
        }
    }

    /// Whether the event ends its conversion.
    pub open spec fn is_terminal(self) -> bool {
        self.status == Status::Completed || self.status == Status::Error
    }
}

/// The phase of a conversion.
#[derive(Debug, Clone, Copy, PartialEq, Eq, Structural)]
pub enum Phase {
    /// The probing tool is running, in the given attempt.
    Probing(Attempt),
    /// The encoder has been handed out to run.
    Encoding,
    /// The conversion has ended.
    Finished,
}

/// What has happened since the last step.
#[derive(Debug, Clone)]
pub enum Event {
    /// The probing tool has run, or could not be started.
    ProbeEnded(RunOutcome),
    /// The encoder could not be started; `reason` is the system's message.
    SpawnFailed { reason: String },
    /// The encoder runs, but its standard output could not be captured.
    OutputNotCaptured,
    /// The encoder wrote this line to its status stream.
    Line(String),
    /// Waiting for the encoder's exit failed; `reason` is the system's message.
    WaitFailed { reason: String },
    /// The encoder's status stream has ended and the encoder has exited.
    /// `status` is the exit status as the system words it; `output_exists`
    /// says whether the output file is there now.
    Exited { success: bool, status: String, output_exists: bool },
}

/// What the caller is to run next.
#[derive(Debug, Clone)]
pub enum Action {
    /// Run the probing tool to its end and report `Event::ProbeEnded`.
    Probe(Command),
    /// Start the encoder with its standard output captured, report each
    /// line it writes, then its exit.
    Encode(Command),
}

/// The mathematical model of an [`Action`].
pub enum ActionView {
    Probe(CommandView),
    Encode(CommandView),
}

impl View for Action {
    type V = ActionView;

    open spec fn view(&self) -> ActionView {
        match *self {
            Action::Probe(c) => ActionView::Probe(c@),
            Action::Encode(c) => ActionView::Encode(c@),
        }
    }
}

/// What one step of the engine asks of its caller.
#[derive(Debug)]
pub struct Step {
    /// The progress event to deliver, if any.
    pub emit: Option<ConversionProgress>,
    /// What to run next, if anything.
    pub action: Option<Action>,
    /// How the conversion has ended, once it has: the output path, or the
    /// error message.
    pub result: Option<Result<String, String>>,
}

/// The mathematical model of a [`Step`].
pub struct StepView {
    pub emit: Option<ProgressView>,
    pub action: Option<ActionView>,
    pub result: Option<Result<Seq<char>, Seq<char>>>,
}

impl View for Step {
    type V = StepView;

    open spec fn view(&self) -> StepView {
        StepView {
            emit: match self.emit {
                Some(p) => Some(p@),
                None => None,
            },
            action: match self.action {
                Some(a) => Some(a@),
                None => None,
            },
            result: match self.result {
                Some(Ok(path)) => Some(Ok(path@)),
                Some(Err(e)) => Some(Err(e@)),
                None => None,
            },
        }
    }
}

/// The state of one conversion.
#[derive(Debug, Clone)]
pub struct Conversion {
    pub task_id: String,
    pub input_path: String,
    pub output_path: String,
    /// Where the encoder is looked for.
    pub ffmpeg_path: String,
    pub thread_count: u32,
    /// Whether the platform has a hardware encoder.
    pub hardware_encoder: bool,
    /// The input's duration in microseconds, once it has been inspected; 0
    /// where it is not known.
    pub duration_micros: u64,
    pub phase: Phase,
}

/// The mathematical model of a [`Conversion`].
pub struct ConversionView {
    pub task_id: Seq<char>,
    pub input_path: Seq<char>,
    pub output_path: Seq<char>,
    pub ffmpeg_path: Seq<char>,
    pub thread_count: u32,
    pub hardware_encoder: bool,
    pub duration_micros: u64,
    pub phase: Phase,
}

impl View for Conversion {
    type V = ConversionView;

    open spec fn view(&self) -> ConversionView {
        ConversionView {
            task_id: self.task_id@,
            input_path: self.input_path@,
            output_path: self.output_path@,
            ffmpeg_path: self.ffmpeg_path@,
            thread_count: self.thread_count,
            hardware_encoder: self.hardware_encoder,
            duration_micros: self.duration_micros,
            phase: self.phase,
        }
    }
}

/// The characters of an optional string.
pub open spec fn optional_text(s: Option<String>) -> Option<Seq<char>> {
    match s {
        Some(t) => Some(t@),
        None => None,
    }
}

/// The name of a status, as listeners read it.
pub open spec fn status_name(status: Status) -> Seq<char> {
    match status {
        Status::Starting => "starting"@,
        Status::Converting => "converting"@,
        Status::Completed => "completed"@,
        Status::Error => "error"@,
    }
}

/// The event that opens a conversion.
pub open spec fn starting_event(task_id: Seq<char>) -> ProgressView {
    ProgressView {
        task_id,
        progress: 0,
        status: Status::Starting,
        output_path: None,
        error: None,
    }
}

/// The event for a running conversion that stands at `progress`.
pub open spec fn converting_event(task_id: Seq<char>, progress: u32) -> ProgressView {
    ProgressView { task_id, progress, status: Status::Converting, output_path: None, error: None }
}

/// The event that closes a conversion which wrote `output_path`.
pub open spec fn completed_event(task_id: Seq<char>, output_path: Seq<char>) -> ProgressView {
    ProgressView {
        task_id,
        progress: PROGRESS_COMPLETE,
        status: Status::Completed,
        output_path: Some(output_path),
        error: None,
    }
}

/// The event that closes a conversion which failed with `message`.
pub open spec fn error_event(task_id: Seq<char>, message: Seq<char>) -> ProgressView {
    ProgressView {
        task_id,
        progress: 0,
        status: Status::Error,
        output_path: None,
        error: Some(message),
    }
}

/// The step that asks for nothing.
pub open spec fn idle() -> StepView {
    StepView { emit: None, action: None, result: None }
}

/// The step that ends the conversion `task_id` with the error `message`:
/// the `error` event goes out, and the result holds the same message.
pub open spec fn failure(task_id: Seq<char>, message: Seq<char>) -> StepView {
    StepView {
        emit: Some(error_event(task_id, message)),
        action: None,
        result: Some(Err(message)),
    }
}

/// The state of a conversion that has not begun.
pub open spec fn initial(
    input_path: Seq<char>,
    output_dir: Seq<char>,
    task_id: Seq<char>,
    ffmpeg_path: Seq<char>,
    thread_count: u32,
    hardware_encoder: bool,
) -> ConversionView {
    ConversionView {
        task_id,
        input_path,
        output_path: output_path_of(input_path, output_dir),
        ffmpeg_path,
        thread_count,
        hardware_encoder,
        duration_micros: 0,
        phase: Phase::Probing(Attempt::Bundled),
    }
}

/// The call of the encoder for the inspected input.
pub open spec fn encoder_call(s: ConversionView, info: VideoInfoView) -> CommandView {
    CommandView {
        program: s.ffmpeg_path,
        args: encoder_arguments(
            planned(info.codec, info.audio_codec, s.hardware_encoder, s.thread_count),
            s.input_path,
            s.output_path,
        ),
    }
}

/// The message for an encoder that has exited without a usable result.
pub open spec fn exit_message(success: bool, status: Seq<char>) -> Seq<char> {
    if !success {
        "FFmpeg exited with status: "@ + status
    } else {
        "Output file not created"@
    }
}

/// What the end of a run of the probing tool leads to.
pub open spec fn react_to_probe(s: ConversionView, attempt: Attempt, outcome: RunOutcome) -> (
    ConversionView,
    StepView,
) {
    match probe_verdict(s.input_path, attempt, outcome) {
        None => (
            ConversionView { phase: Phase::Probing(Attempt::System), ..s },
            StepView {
                emit: None,
                action: Some(ActionView::Probe(probe_query(ffprobe_name(), s.input_path))),
                result: None,
            },
        ),
        Some(Err(message)) => (
            ConversionView { phase: Phase::Finished, ..s },
            failure(s.task_id, message),
        ),
        Some(Ok(info)) => (
            ConversionView {
                phase: Phase::Encoding,
                duration_micros: info.duration_micros,
                ..s
            },
            StepView {
                emit: Some(starting_event(s.task_id)),
                action: Some(ActionView::Encode(encoder_call(s, info))),
                result: None,
            },
        ),
    }
}

/// What a line of the encoder's status stream leads to: a progress event
/// where the line reports a time, nothing for any other line.
pub open spec fn react_to_line(s: ConversionView, line: Seq<char>) -> StepView {
    match timestamp_of_line(line) {
        Some(elapsed) => StepView {
            emit: Some(
                converting_event(
                    s.task_id,
                    progress_of(elapsed, s.duration_micros as nat) as u32,
                ),
            ),
            action: None,
            result: None,
        },
        None => idle(),
    }
}

/// What the encoder's exit leads to: completion where it reports success
/// and the output file is there, an error otherwise.
pub open spec fn react_to_exit(
    s: ConversionView,
    success: bool,
    status: Seq<char>,
    output_exists: bool,
) -> StepView {
    if success && output_exists {
        StepView {
            emit: Some(completed_event(s.task_id, s.output_path)),
            action: None,
            result: Some(Ok(s.output_path)),
        }
    } else {
        failure(s.task_id, exit_message(success, status))
    }
}

/// The engine's transition: the state after `event`, and what the step
/// asks for.
pub open spec fn react(s: ConversionView, event: Event) -> (ConversionView, StepView) {
    let finished = ConversionView { phase: Phase::Finished, ..s };
    match s.phase {
        Phase::Probing(attempt) => match event {
            Event::ProbeEnded(outcome) => react_to_probe(s, attempt, outcome),
            _ => (s, idle()),
        },
        Phase::Encoding => match event {
            Event::ProbeEnded(_) => (s, idle()),
            Event::SpawnFailed { reason } => (
                finished,
                failure(s.task_id, "Failed to start ffmpeg: "@ + reason@),
            ),
            Event::OutputNotCaptured => (
                finished,
                failure(s.task_id, "Failed to capture stdout"@),
            ),
            Event::Line(line) => (s, react_to_line(s, line@)),
            Event::WaitFailed { reason } => (
                finished,
                failure(s.task_id, "FFmpeg process error: "@ + reason@),
            ),
            Event::Exited { success, status, output_exists } => (
                finished,
                react_to_exit(s, success, status@, output_exists),
            ),
        },
        Phase::Finished => (s, idle()),
    }
}

/// The state that a conversion reaches from `s` while `events` happen to
/// it, and the progress events that it delivers on the way, in order.
pub open spec fn run(s: ConversionView, events: Seq<Event>) -> (ConversionView, Seq<ProgressView>)
    decreases events.len(),
{
    if events.len() == 0 {
        (s, Seq::<ProgressView>::empty())
    } else {
        let before = run(s, events.drop_last());
        let last = react(before.0, events.last());
        (
            last.0,
            match last.1.emit {
                Some(p) => before.1.push(p),
                None => before.1,
            },
        )
    }
}

/// The order of a conversion's progress events. The first is `starting`,
/// or `error` for a conversion that fails before it starts; `starting`
/// comes nowhere else; a `completed` or `error` event is the last one, so
/// there is at most one. Each event is well formed and carries `task_id`.
pub open spec fn orderly(sent: Seq<ProgressView>, task_id: Seq<char>) -> bool {
    &&& forall|i: int|
        0 <= i < sent.len() ==> (#[trigger] sent[i]).well_formed() && sent[i].task_id == task_id
    &&& forall|i: int| 0 <= i < sent.len() ==> ((#[trigger] sent[i]).status == Status::Starting ==> i == 0)
    &&& sent.len() > 0 ==> sent[0].status == Status::Starting || sent[0].status == Status::Error
    &&& forall|i: int|
        0 <= i < sent.len() ==> ((#[trigger] sent[i]).is_terminal() ==> i == sent.len() - 1)
}

/// What holds of a conversion at every point of its life: its events are
/// orderly; none has gone out while it inspects its input; while the
/// encoder runs, `starting` has gone out and no closing event; once it has
/// ended, exactly one closing event has gone out, as the last.
pub open spec fn on_course(s: ConversionView, sent: Seq<ProgressView>) -> bool {
    &&& orderly(sent, s.task_id)
    &&& s.phase is Probing ==> sent.len() == 0
    &&& s.phase == Phase::Encoding ==> sent.len() >= 1 && sent[0].status == Status::Starting
        && !sent.last().is_terminal()
    &&& s.phase == Phase::Finished ==> sent.len() >= 1 && sent.last().is_terminal()
}

/// One step keeps a conversion on course.
pub proof fn step_stays_on_course(s: ConversionView, sent: Seq<ProgressView>, event: Event)
    requires
        on_course(s, sent),
    ensures
        react(s, event).0.task_id == s.task_id,
        on_course(
            react(s, event).0,
            match react(s, event).1.emit {
                Some(p) => sent.push(p),
                None => sent,
            },
        ),
{
    let next = react(s, event);
    match next.1.emit {
        Some(p) => {
            let after = sent.push(p);
            assert(p.well_formed() && p.task_id == s.task_id) by {
                if let Event::Line(line) = event {
                    if let Some(elapsed) = timestamp_of_line(line@) {
                        assert(progress_of(elapsed, s.duration_micros as nat) <= 9_900);
                    }
                }
            }
            assert forall|i: int| 0 <= i < after.len() implies (#[trigger] after[i]).well_formed()
                && after[i].task_id == s.task_id by {
                if i < sent.len() {
                    assert(after[i] == sent[i]);
                }
            }
            assert forall|i: int| 0 <= i < after.len() implies ((#[trigger] after[i]).status
                == Status::Starting ==> i == 0) by {
                if i < sent.len() {
                    assert(after[i] == sent[i]);
                }
            }
            assert(after[0].status == Status::Starting || after[0].status == Status::Error) by {
                if sent.len() > 0 {
                    assert(after[0] == sent[0]);
                }
            }
            assert forall|i: int| 0 <= i < after.len() implies ((#[trigger] after[i]).is_terminal()
                ==> i == after.len() - 1) by {
                if i < sent.len() {
                    assert(after[i] == sent[i]);
                    if s.phase == Phase::Encoding {
                        assert(sent[i].is_terminal() ==> i == sent.len() - 1);
                    }
                }
            }
        },
        None => {},
    }
}

/// The lifecycle of a conversion. Whatever happens to a conversion from its
/// beginning, the progress events that it delivers are orderly: `starting`
/// comes first and only first, every event between is `converting` at no
/// more than 99 %, a `completed` or `error` event is the last one, and all
/// carry the conversion's task identifier. The conversion has ended exactly
/// when a closing event has gone out: an ended conversion has delivered
/// exactly one.
pub proof fn lifecycle_is_orderly(
    input_path: Seq<char>,
    output_dir: Seq<char>,
    task_id: Seq<char>,
    ffmpeg_path: Seq<char>,
    thread_count: u32,
    hardware_encoder: bool,
    events: Seq<Event>,
)
    ensures
        ({
            let end = run(
                initial(
                    input_path,
                    output_dir,
                    task_id,
                    ffmpeg_path,
                    thread_count,
                    hardware_encoder,
                ),
                events,
            );
            &&& orderly(end.1, task_id)
            &&& end.0.phase == Phase::Finished <==> end.1.len() > 0 && end.1.last().is_terminal()
        }),
{
    let start = initial(
        input_path,
        output_dir,
        task_id,
        ffmpeg_path,
        thread_count,
        hardware_encoder,
    );
    run_stays_on_course(start, events);
}

/// A conversion that begins on course stays on course.
pub proof fn run_stays_on_course(s: ConversionView, events: Seq<Event>)
    requires
        on_course(s, Seq::<ProgressView>::empty()),
    ensures
        run(s, events).0.task_id == s.task_id,
        on_course(run(s, events).0, run(s, events).1),
    decreases events.len(),
{
    if events.len() > 0 {
        run_stays_on_course(s, events.drop_last());
        let before = run(s, events.drop_last());
        step_stays_on_course(before.0, before.1, events.last());
    }
}

/// A conversion that has ended stays as it is: no event moves it, and it
/// delivers and asks for nothing more.
pub proof fn finished_is_final(s: ConversionView, event: Event)
    requires
        s.phase == Phase::Finished,
    ensures
        react(s, event) == (s, idle()),
{
}

/// A step gives a result exactly when it ends the conversion, and exactly
/// then a closing event goes out with it, so that a listener learns what
/// the caller learns: `completed` with the result `Ok`, which holds the
/// same output path; `error` with the result `Err`, which holds the same
/// message.
pub proof fn result_ends_conversion(s: ConversionView, event: Event)
    ensures
        react(s, event).1.result is Some <==> s.phase != Phase::Finished && react(s, event).0.phase
            == Phase::Finished,
        react(s, event).1.result is Some <==> (react(s, event).1.emit matches Some(p)
            && p.is_terminal()),
        match react(s, event).1.emit {
            Some(p) => match p.status {
                Status::Completed => react(s, event).1.result == Some(
                    Ok::<Seq<char>, Seq<char>>(p.output_path.unwrap()),
                ),
                Status::Error => react(s, event).1.result == Some(
                    Err::<Seq<char>, Seq<char>>(p.error.unwrap()),
                ),
                _ => react(s, event).1.result is None,
            },
            None => react(s, event).1.result is None,
        },
{
}

/// The exit of a running encoder always gives a closing event: `completed`,
/// at 100 % and with the output path, exactly where the encoder reports
/// success and the output file is there; `error`, with a message and no
/// output path, in every other case.
pub proof fn exit_gives_closing_event(
    s: ConversionView,
    success: bool,
    status: String,
    output_exists: bool,
)
    requires
        s.phase == Phase::Encoding,
    ensures
        ({
            let next = react(s, Event::Exited { success, status, output_exists });
            &&& next.0.phase == Phase::Finished
            &&& next.1.emit matches Some(p) && p.is_terminal() && p.well_formed() && (p.status
                == Status::Completed <==> success && output_exists)
            &&& next.1.result is Some
            &&& next.1.result.unwrap() is Ok <==> success && output_exists
        }),
{
}

/// Cutting the elapsed time down to 64 bits does not change the progress.
pub proof fn progress_of_saturated(elapsed: nat, duration: u64)
    ensures
        progress_of(saturate(elapsed) as nat, duration as nat) == progress_of(
            elapsed,
            duration as nat,
        ),
{
    if duration > 0 && elapsed > u64::MAX {
        let d = duration as nat;
        let m = u64::MAX as nat;
        assert(elapsed * 10_000 / d >= 10_000 && m * 10_000 / d >= 10_000) by (nonlinear_arith)
            requires
                0 < d <= m,
                m < elapsed,
        ;
    }
}

impl Status {
    /// The name of the status, as listeners read it.
    pub fn name(&self) -> (r: &'static str)
        ensures
            r@ == status_name(*self),
    {
        match self {
            Status::Starting => "starting",
            Status::Converting => "converting",
            Status::Completed => "completed",
            Status::Error => "error",
        }
    }
}

impl ConversionProgress {
    /// The event that opens the conversion `task_id`.
    pub fn starting(task_id: &str) -> (p: ConversionProgress)
        ensures
            p@ == starting_event(task_id@),
            p@.well_formed(),
    {
        ConversionProgress {
            task_id: task_id.to_owned(),
            progress: 0,
            status: Status::Starting,
            output_path: None,
            error: None,
        }
    }

    /// The event for the running conversion `task_id`, `elapsed`
    /// microseconds into an input of `duration` microseconds (0 where it
    /// is not known). The progress is the share of the duration, held at
    /// 99 %: it never reaches 100 %.
    pub fn converting(task_id: &str, elapsed: u64, duration: u64) -> (p: ConversionProgress)
        ensures
            p@ == converting_event(
                task_id@,
                progress_of(elapsed as nat, duration as nat) as u32,
            ),
            p@.progress < PROGRESS_COMPLETE,
            p@.well_formed(),
    {
        ConversionProgress {
            task_id: task_id.to_owned(),
            progress: progress_percent(elapsed, duration),
            status: Status::Converting,
            output_path: None,
            error: None,
        }
    }

    /// The event that closes the conversion `task_id`, which wrote
    /// `output_path`.
    pub fn completed(task_id: &str, output_path: &str) -> (p: ConversionProgress)
        ensures
            p@ == completed_event(task_id@, output_path@),
            p@.well_formed(),
    {
        ConversionProgress {
            task_id: task_id.to_owned(),
            progress: PROGRESS_COMPLETE,
            status: Status::Completed,
            output_path: Some(output_path.to_owned()),
            error: None,
        }
    }

    /// The event that closes the conversion `task_id`, which failed with
    /// `message`.
    pub fn failed(task_id: &str, message: &str) -> (p: ConversionProgress)
        ensures
            p@ == error_event(task_id@, message@),
            p@.well_formed(),
    {
        ConversionProgress {
            task_id: task_id.to_owned(),
            progress: 0,
            status: Status::Error,
            output_path: None,
            error: Some(message.to_owned()),
        }
    }
}

/// The name of the channel on which the events of `task_id` are published.
pub fn event_name(task_id: &str) -> (r: String)
    ensures
        r@ == "conversion-progress-"@ + task_id@,
{
    joined("conversion-progress-", task_id)
}

fn idle_step() -> (step: Step)
    ensures
        step@ == idle(),
{
    Step { emit: None, action: None, result: None }
}

fn failure_step(task_id: &str, message: String) -> (step: Step)
    ensures
        step@ == failure(task_id@, message@),
{
    Step {
        emit: Some(ConversionProgress::failed(task_id, message.as_str())),
        action: None,
        result: Some(Err(message)),
    }
}

impl Conversion {
    /// Begins the conversion of `input_path` into `output_dir`. Gives the
    /// state, and the first command to run: the query of the probing tool at
    /// `ffprobe_path`, whose outcome is the first event.
    pub fn begin(
        input_path: &str,
        output_dir: &str,
        task_id: &str,
        ffprobe_path: &str,
        ffmpeg_path: &str,
        thread_count: u32,
        hardware_encoder: bool,
    ) -> (r: (Conversion, Command))
        ensures
            r.0@ == initial(
                input_path@,
                output_dir@,
                task_id@,
                ffmpeg_path@,
                thread_count,
                hardware_encoder,
            ),
            r.1@ == probe_query(ffprobe_path@, input_path@),
    {
        let state = Conversion {
            task_id: task_id.to_owned(),
            input_path: input_path.to_owned(),
            output_path: output_path(input_path, output_dir),
            ffmpeg_path: ffmpeg_path.to_owned(),
            thread_count,
            hardware_encoder,
            duration_micros: 0,
            phase: Phase::Probing(Attempt::Bundled),
        };
        (state, probe_command(ffprobe_path, input_path))
    }

    fn end_probe(self, attempt: Attempt, outcome: &RunOutcome) -> (r: (Conversion, Step))
        ensures
            r.0@ == react_to_probe(self@, attempt, *outcome).0,
            r.1@ == react_to_probe(self@, attempt, *outcome).1,
    {
        match get_video_info(self.input_path.as_str(), attempt, outcome) {
            ProbeStep::Retry(command) => {
                let step = Step { emit: None, action: Some(Action::Probe(command)), result: None };
                (Conversion { phase: Phase::Probing(Attempt::System), ..self }, step)
            },
            ProbeStep::Done(Err(message)) => {
                let step = failure_step(self.task_id.as_str(), message);
                (Conversion { phase: Phase::Finished, ..self }, step)
            },
            ProbeStep::Done(Ok(info)) => {
                let p = plan(&info, self.hardware_encoder, self.thread_count);
                let args = build_arguments(
                    &p,
                    self.input_path.as_str(),
                    self.output_path.as_str(),
                );
                let command = Command { program: self.ffmpeg_path.clone(), args };
                let step = Step {
                    emit: Some(ConversionProgress::starting(self.task_id.as_str())),
                    action: Some(Action::Encode(command)),
                    result: None,
                };
                (
                    Conversion {
                        phase: Phase::Encoding,
                        duration_micros: info.duration_micros,
                        ..self
                    },
                    step,
                )
            },
        }
    }

    fn read_line(&self, line: &str) -> (step: Step)
        ensures
            step@ == react_to_line(self@, line@),
    {
        match parse_timestamp(line) {
            Some(elapsed) => {
                proof {
                    progress_of_saturated(timestamp_of_line(line@).unwrap(), self.duration_micros);
                }
                Step {
                    emit: Some(
                        ConversionProgress::converting(
                            self.task_id.as_str(),
                            elapsed,
                            self.duration_micros,
                        ),
                    ),
                    action: None,
                    result: None,
                }
            },
            None => idle_step(),
        }
    }

    fn end_encoding(&self, success: bool, status: &str, output_exists: bool) -> (step: Step)
        ensures
            step@ == react_to_exit(self@, success, status@, output_exists),
    {
        if success && output_exists {
            Step {
                emit: Some(
                    ConversionProgress::completed(
                        self.task_id.as_str(),
                        self.output_path.as_str(),
                    ),
                ),
                action: None,
                result: Some(Ok(self.output_path.clone())),
            }
        } else {
            let message = if !success {
                joined("FFmpeg exited with status: ", status)
            } else {
                "Output file not created".to_owned()
            };
            failure_step(self.task_id.as_str(), message)
        }
    }
}

/// Takes one step of a conversion: from its state and what has happened to
/// its next state, the progress event to deliver, the command to run next,
/// and its result once it has ended.
///
/// The input is inspected once or twice. After a successful inspection the
/// `starting` event goes out with the call of the encoder. Each line of the
/// encoder's status stream that reports a time gives a `converting` event.
/// The encoder's exit gives `completed` with the output path where it
/// reports success and the output file is there. Every failure (of the
/// inspection, of starting, reading or waiting for the encoder, of the
/// encoder itself, or an output file that is missing) ends the conversion
/// with an `error` event and the result `Err`, both with the same message.
pub fn convert_video(state: Conversion, event: Event) -> (r: (Conversion, Step))
    ensures
        r.0@ == react(state@, event).0,
        r.1@ == react(state@, event).1,
{
    match state.phase {
        Phase::Probing(attempt) => match event {
            Event::ProbeEnded(outcome) => state.end_probe(attempt, &outcome),
            _ => (state, idle_step()),
        },
        Phase::Encoding => match event {
            Event::ProbeEnded(_) => (state, idle_step()),
            Event::SpawnFailed { reason } => {
                let step = failure_step(
                    state.task_id.as_str(),
                    joined("Failed to start ffmpeg: ", reason.as_str()),
                );
                (Conversion { phase: Phase::Finished, ..state }, step)
            },
            Event::OutputNotCaptured => {
                let step = failure_step(
                    state.task_id.as_str(),
                    "Failed to capture stdout".to_owned(),
                );
                (Conversion { phase: Phase::Finished, ..state }, step)
            },
            Event::Line(line) => {
                let step = state.read_line(line.as_str());
                (state, step)
            },
            Event::WaitFailed { reason } => {
                let step = failure_step(
                    state.task_id.as_str(),
                    joined("FFmpeg process error: ", reason.as_str()),
                );
                (Conversion { phase: Phase::Finished, ..state }, step)
            },
            Event::Exited { success, status, output_exists } => {
                let step = state.end_encoding(success, status.as_str(), output_exists);
                (Conversion { phase: Phase::Finished, ..state }, step)
            },
        },
        Phase::Finished => (state, idle_step()),
    }
}

} // verus!
