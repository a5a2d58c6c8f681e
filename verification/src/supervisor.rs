//! The supervisor as a state machine.
//!
//! The program that drives the supervisor does what an [`Action`] asks and
//! reports what came of it as an [`Event`]. [`App::step`] takes the event and
//! answers with the next action.

use crate::launch::{
    child_arguments,
    chosen_mode,
    daemon_arguments,
    daemon_name,
    daemon_path,
    passed_through,
    resolve,
};
use crate::line_handling::{Classifier, LineError, LineHandler, LineSuccess};
use crate::notice::{
    config_missing_text,
    connection_limit_text,
    kill_failed_text,
    port_conflict_text,
    probe_missing_text,
    reap_failed_text,
    spawn_failed_text,
    stderr_missing_text,
    stdout_missing_text,
    Notice,
    NoticeText,
};
use crate::state::ArgMode;
use vstd::prelude::*;
use vstd::string::StringExecFns;

verus! {

/// How long the supervisor rests between the end of one daemon and the start
/// of the next, in milliseconds.
pub const COOL_DOWN_MILLIS: u64 = 1000;

/// The four phases of supervision.
#[derive(Clone, Copy, Debug, PartialEq, Eq, Structural)]
pub enum Phase {
    /// A daemon is about to be started.
    Launching,
    /// A daemon runs and its output is read.
    Running,
    /// The daemon is being replaced.
    Restarting,
    /// The supervisor has given up.
    Terminated,
}

/// Where the supervisor stands: a phase, and within it the action whose
/// outcome it waits for.
#[derive(Clone, Copy, Debug, PartialEq, Eq, Structural)]
pub enum Stage {
    /// Waiting for the daemon to start.
    Launching,
    /// Waiting for the next line of a running daemon.
    Watching,
    /// Waiting for conflicting processes to be terminated.
    Reaping,
    /// Waiting for the daemon to be terminated.
    Killing,
    /// Waiting for the rest of a terminated daemon's output.
    Draining,
    /// Waiting for the rest between two daemons to pass.
    Cooling,
    /// Waiting for nothing more.
    Terminated,
}

impl Stage {
    /// The phase that a stage belongs to.
    pub open spec fn phase(self) -> Phase {
        match self {
            Stage::Launching => Phase::Launching,
            Stage::Watching | Stage::Reaping => Phase::Running,
            Stage::Killing | Stage::Draining | Stage::Cooling => Phase::Restarting,
            Stage::Terminated => Phase::Terminated,
        }
    }

    /// Whether a daemon started by this supervisor may be alive.
    pub open spec fn child_may_live(self) -> bool {
        self == Stage::Watching || self == Stage::Reaping || self == Stage::Killing || self
            == Stage::Draining
    }

    /// Tells the phase that a stage belongs to.
    pub fn to_phase(&self) -> (phase: Phase)
        ensures
            phase == self.phase(),
    {
        match self {
            Stage::Launching => Phase::Launching,
            Stage::Watching => Phase::Running,
            Stage::Reaping => Phase::Running,
            Stage::Killing => Phase::Restarting,
            Stage::Draining => Phase::Restarting,
            Stage::Cooling => Phase::Restarting,
            Stage::Terminated => Phase::Terminated,
        }
    }
}

/// What the driving program reports.
#[derive(Clone, Debug, PartialEq, Eq)]
pub enum Event {
    /// The daemon was started and both of its output streams are read.
    Spawned,
    /// The daemon could not be started.
    SpawnFailed,
    /// The daemon was started without a standard output to read.
    StdoutUnavailable,
    /// The daemon was started without a standard error to read.
    StderrUnavailable,
    /// The daemon printed a line, on either stream.
    Line(String),
    /// Both streams have ended and every line was reported.
    Closed,
    /// Every conflicting process was dealt with.
    Reaped,
    /// A conflicting process could not be terminated.
    ReapFailed,
    /// The daemon was terminated.
    Killed,
    /// The daemon could not be terminated.
    KillFailed,
    /// The rest between two daemons has passed.
    Rested,
}

/// What the driving program is asked to do.
#[derive(Clone, Debug, PartialEq, Eq)]
pub enum Action {
    /// Start `program` with `arguments`, and read both of its output streams.
    Launch { program: String, arguments: Vec<String> },
    /// Wait for the next line of the daemon.
    Receive,
    /// Terminate every process that runs under `name`.
    Reap { name: String },
    /// Terminate the daemon.
    KillChild,
    /// Wait for `millis` milliseconds.
    Pause { millis: u64 },
    /// Leave with a failure status.
    Exit,
}

/// An action as a mathematical value.
pub enum ActionText {
    Launch { program: Seq<char>, arguments: Seq<Seq<char>> },
    Receive,
    Reap { name: Seq<char> },
    KillChild,
    Pause { millis: u64 },
    Exit,
}

impl View for Action {
    type V = ActionText;

    open spec fn view(&self) -> ActionText {
        match self {
            Action::Launch { program, arguments } => ActionText::Launch {
                program: program@,
                arguments: arguments.deep_view(),
            },
            Action::Receive => ActionText::Receive,
            Action::Reap { name } => ActionText::Reap { name: name@ },
            Action::KillChild => ActionText::KillChild,
            Action::Pause { millis } => ActionText::Pause { millis: *millis },
            Action::Exit => ActionText::Exit,
        }
    }
}

/// The supervisor's answer to an event: what to tell the user, if anything,
/// and what to do then.
#[derive(Clone, Debug, PartialEq, Eq)]
pub struct Directive {
    pub notice: Option<Notice>,
    pub action: Action,
}

/// A directive as a mathematical value.
pub struct DirectiveText {
    pub notice: Option<NoticeText>,
    pub action: ActionText,
}

impl View for Directive {
    type V = DirectiveText;

    open spec fn view(&self) -> DirectiveText {
        DirectiveText {
            notice: match self.notice {
                Some(notice) => Some(notice@),
                None => None,
            },
            action: self.action@,
        }
    }
}

/// The directive that asks for `action` and tells the user nothing.
pub open spec fn quietly(action: ActionText) -> DirectiveText {
    DirectiveText { notice: None, action }
}

/// The directive that tells the user `notice` and asks for `action`.
pub open spec fn loudly(notice: NoticeText, action: ActionText) -> DirectiveText {
    DirectiveText { notice: Some(notice), action }
}

/// The supervisor as a mathematical value.
pub struct Supervisor {
    pub classifier: Classifier,
    pub args: Seq<Seq<char>>,
    pub subprocess_args: Seq<Seq<char>>,
    pub arg_mode: ArgMode,
    pub restart_openocd: bool,
    pub stage: Stage,
}

impl Supervisor {
    /// The action that starts the daemon.
    pub open spec fn launch(self) -> ActionText {
        ActionText::Launch { program: daemon_path(), arguments: self.subprocess_args }
    }

    /// The action whose outcome the supervisor waits for.
    pub open spec fn awaited(self) -> ActionText {
        match self.stage {
            Stage::Launching => self.launch(),
            Stage::Watching | Stage::Draining => ActionText::Receive,
            Stage::Reaping => ActionText::Reap { name: daemon_name() },
            Stage::Killing => ActionText::KillChild,
            Stage::Cooling => ActionText::Pause { millis: COOL_DOWN_MILLIS },
            Stage::Terminated => ActionText::Exit,
        }
    }

    /// Whether `event` is a possible outcome of the awaited action.
    pub open spec fn expects(self, event: Event) -> bool {
        match self.stage {
            Stage::Launching => event is Spawned || event is SpawnFailed || event
                is StdoutUnavailable || event is StderrUnavailable,
            Stage::Watching | Stage::Draining => event is Line || event is Closed,
            Stage::Reaping => event is Reaped || event is ReapFailed,
            Stage::Killing => event is Killed || event is KillFailed,
            Stage::Cooling => event is Rested,
            Stage::Terminated => false,
        }
    }

    /// The supervisor once it has read its command line, with the directive
    /// to start the daemon. The command line is read only while the
    /// supervisor waits for a daemon to start: in every other stage nothing
    /// changes, and the answer is the awaited action.
    pub open spec fn start(self) -> (Supervisor, DirectiveText) {
        if self.stage == Stage::Launching {
            let arg_mode = chosen_mode(self.args);
            let subprocess_args = child_arguments(arg_mode, passed_through(self.args));
            let next = Supervisor { arg_mode, subprocess_args, ..self };
            (next, quietly(next.launch()))
        } else {
            (self, quietly(self.awaited()))
        }
    }

    /// The supervisor after it has read `line` of a running daemon, with what
    /// the line calls for. A refused connection asks for a restart, which
    /// is carried out once the line is dealt with.
    pub open spec fn react(self, line: Seq<char>) -> (Supervisor, DirectiveText) {
        let classifier = self.classifier.record(line);
        let next = Supervisor { classifier, ..self };
        match self.classifier.diagnose(line) {
            Err(LineError::AddressAlreadyInUse) => (
                next,
                loudly(
                    port_conflict_text(classifier.conflict_port),
                    ActionText::Reap { name: daemon_name() },
                ),
            ),
            Err(LineError::PicoProbeNotFound) => (
                next,
                loudly(probe_missing_text(), ActionText::Exit),
            ),
            Err(LineError::CantFindOpenOCD) => (
                next,
                loudly(config_missing_text(), ActionText::Exit),
            ),
            Err(LineError::NoMoreConnections) => (
                Supervisor { restart_openocd: true, ..next },
                loudly(connection_limit_text(), ActionText::Receive),
            ),
            Ok(_) => (next, quietly(ActionText::Receive)),
        }
    }

    /// The supervisor once a line is dealt with, and what it does then: it
    /// terminates the daemon if a restart was asked for, and reads on if not.
    pub open spec fn resume(self) -> (Supervisor, ActionText) {
        if self.restart_openocd {
            (
                Supervisor { restart_openocd: false, stage: Stage::Killing, ..self },
                ActionText::KillChild,
            )
        } else {
            (Supervisor { stage: Stage::Watching, ..self }, ActionText::Receive)
        }
    }

    /// The supervisor after it has given up for the reason `notice`.
    pub open spec fn give_up(self, notice: NoticeText) -> (Supervisor, DirectiveText) {
        (Supervisor { stage: Stage::Terminated, ..self }, loudly(notice, ActionText::Exit))
    }

    /// The supervisor after a line of a running daemon.
    pub open spec fn watch(self, line: Seq<char>) -> (Supervisor, DirectiveText) {
        let (next, directive) = self.react(line);
        match directive.action {
            ActionText::Exit => (Supervisor { stage: Stage::Terminated, ..next }, directive),
            ActionText::Reap { name } => (Supervisor { stage: Stage::Reaping, ..next }, directive),
            _ => {
                let (resumed, action) = next.resume();
                (resumed, DirectiveText { notice: directive.notice, action })
            },
        }
    }

    /// The supervisor after `event`, with its answer. An event that is no
    /// outcome of the awaited action changes nothing and is answered with
    /// that action.
    pub open spec fn step(self, event: Event) -> (Supervisor, DirectiveText) {
        if !self.expects(event) {
            (self, quietly(self.awaited()))
        } else {
            match event {
                Event::Spawned => (
                    Supervisor { stage: Stage::Watching, ..self },
                    quietly(ActionText::Receive),
                ),
                Event::SpawnFailed => self.give_up(spawn_failed_text()),
                Event::StdoutUnavailable => self.give_up(stdout_missing_text()),
                Event::StderrUnavailable => self.give_up(stderr_missing_text()),
                Event::Line(line) => if self.stage == Stage::Watching {
                    self.watch(line@)
                } else {
                    (self, quietly(ActionText::Receive))
                },
                Event::Closed => (
                    Supervisor { stage: Stage::Cooling, ..self },
                    quietly(ActionText::Pause { millis: COOL_DOWN_MILLIS }),
                ),
                Event::Reaped => {
                    let (resumed, action) = self.resume();
                    (resumed, quietly(action))
                },
                Event::ReapFailed => self.give_up(reap_failed_text()),
                Event::Killed => (
                    Supervisor { stage: Stage::Draining, ..self },
                    quietly(ActionText::Receive),
                ),
                Event::KillFailed => self.give_up(kill_failed_text()),
                Event::Rested => {
                    let next = Supervisor { stage: Stage::Launching, ..self };
                    (next, quietly(next.launch()))
                },
            }
        }
    }
}

impl Supervisor {
    /// The supervisor gives up for seven reasons and no other: the daemon
    /// cannot be started, one of its two streams cannot be read, a
    /// conflicting process or the daemon itself cannot be terminated, or a
    /// line of the running daemon reports a missing probe or a missing
    /// configuration file.
    pub proof fn lemma_reasons_to_give_up(self, event: Event)
        requires
            self.stage != Stage::Terminated,
            self.step(event).0.stage == Stage::Terminated,
        ensures
            self.step(event).1.action == ActionText::Exit,
            self.step(event).1.notice is Some,
            match event {
                Event::SpawnFailed | Event::StdoutUnavailable | Event::StderrUnavailable =>
                    self.stage == Stage::Launching,
                Event::ReapFailed => self.stage == Stage::Reaping,
                Event::KillFailed => self.stage == Stage::Killing,
                Event::Line(line) => self.stage == Stage::Watching && (self.classifier.diagnose(
                    line@,
                ) == Err::<LineSuccess, LineError>(LineError::PicoProbeNotFound)
                    || self.classifier.diagnose(line@) == Err::<LineSuccess, LineError>(
                    LineError::CantFindOpenOCD,
                )),
                _ => false,
            },
    {
    }

    /// Once the supervisor has given up it stays so, and asks for nothing
    /// but to leave.
    pub proof fn lemma_terminated_is_final(self, event: Event)
        requires
            self.stage == Stage::Terminated,
        ensures
            self.step(event) == (self, quietly(ActionText::Exit)),
    {
    }

    /// A daemon is started only while none that this supervisor started may
    /// be alive, and always with the arguments settled at the start.
    pub proof fn lemma_one_daemon_at_a_time(self, event: Event)
        requires
            self.step(event).1.action is Launch,
        ensures
            !self.stage.child_may_live(),
            !self.step(event).0.stage.child_may_live(),
            self.step(event).1.action == self.launch(),
    {
    }

    /// Reading the command line never starts a second daemon either: it asks
    /// for a start only while the supervisor waits for one, and it never
    /// changes the stage.
    pub proof fn lemma_start_keeps_one_daemon(self)
        ensures
            self.start().0.stage == self.stage,
            self.start().1.notice is None,
            self.start().1.action is Launch <==> self.stage == Stage::Launching,
            self.start().1.action is Launch ==> !self.stage.child_may_live(),
            self.stage != Stage::Launching ==> self.start() == (self, quietly(self.awaited())),
    {
    }

    /// No event changes the command line, the mode or the daemon's
    /// arguments, nor the expressions of the classifier.
    pub proof fn lemma_settings_are_kept(self, event: Event)
        ensures
            self.step(event).0.args == self.args,
            self.step(event).0.arg_mode == self.arg_mode,
            self.step(event).0.subprocess_args == self.subprocess_args,
            self.step(event).0.classifier.bind_failure == self.classifier.bind_failure,
            self.step(event).0.classifier.probe_missing == self.classifier.probe_missing,
            self.step(event).0.classifier.config_missing == self.classifier.config_missing,
            self.step(event).0.classifier.connection_limit == self.classifier.connection_limit,
    {
    }

    /// A port conflict is answered by a warning that names the port and by
    /// the termination of every process that runs under the daemon's name.
    /// The daemon itself is left running.
    pub proof fn lemma_port_conflict_reaps(self, line: String, port: Seq<char>)
        requires
            self.stage == Stage::Watching,
            self.classifier.port_in_use(line@) == Some(port),
        ensures
            self.step(Event::Line(line)).1 == loudly(
                port_conflict_text(port),
                ActionText::Reap { name: daemon_name() },
            ),
            self.step(Event::Line(line)).0.stage == Stage::Reaping,
            self.step(Event::Line(line)).0.stage.phase() == Phase::Running,
            self.step(Event::Line(line)).0.restart_openocd == self.restart_openocd,
    {
    }

    /// When the conflicting processes are dealt with, the supervisor reads
    /// on, unless a restart is still asked for.
    pub proof fn lemma_reading_goes_on_after_reaping(self)
        requires
            self.stage == Stage::Reaping,
            !self.restart_openocd,
        ensures
            self.step(Event::Reaped) == (
                Supervisor { stage: Stage::Watching, ..self },
                quietly(ActionText::Receive),
            ),
    {
    }

    /// A refused connection is answered by a warning and by the termination
    /// of the daemon.
    pub proof fn lemma_refused_connection_restarts(self, line: String)
        requires
            self.stage == Stage::Watching,
            self.classifier.diagnose(line@) == Err::<LineSuccess, LineError>(
                LineError::NoMoreConnections,
            ),
        ensures
            self.step(Event::Line(line)).1 == loudly(
                connection_limit_text(),
                ActionText::KillChild,
            ),
            self.step(Event::Line(line)).0 == (Supervisor {
                stage: Stage::Killing,
                restart_openocd: false,
                ..self
            }),
            self.step(Event::Line(line)).0.stage.phase() == Phase::Restarting,
    {
    }

    /// From the termination of the daemon to its next start: the rest of its
    /// output is read, the supervisor rests, and the daemon is started with
    /// the arguments it had before.
    pub proof fn lemma_restart_runs_its_course(self)
        requires
            self.stage == Stage::Killing,
        ensures
            ({
                let (drained, first) = self.step(Event::Killed);
                let (cooled, second) = drained.step(Event::Closed);
                let (launched, third) = cooled.step(Event::Rested);
                &&& first == quietly(ActionText::Receive)
                &&& second == quietly(ActionText::Pause { millis: COOL_DOWN_MILLIS })
                &&& third == quietly(self.launch())
                &&& launched == (Supervisor { stage: Stage::Launching, ..self })
            }),
    {
    }

    /// What a daemon still prints while it is replaced is read and thrown
    /// away: such a line changes nothing, whatever it holds.
    pub proof fn lemma_stale_lines_are_dropped(self, line: String)
        requires
            self.stage.phase() == Phase::Restarting,
        ensures
            self.step(Event::Line(line)).0 == self,
            self.step(Event::Line(line)).1.notice is None,
            self.step(Event::Line(line)).1.action == self.awaited(),
    {
    }

    /// A line that the classifier finds clean is answered by reading on, and
    /// changes nothing.
    pub proof fn lemma_clean_line_reads_on(self, line: String)
        requires
            self.stage == Stage::Watching,
            !self.restart_openocd,
            self.classifier.diagnose(line@) is Ok,
        ensures
            self.step(Event::Line(line)) == (self, quietly(ActionText::Receive)),
    {
    }

    /// A daemon that ends by itself is started again after the rest.
    pub proof fn lemma_ended_daemon_is_replaced(self)
        requires
            self.stage == Stage::Watching,
        ensures
            ({
                let (cooled, first) = self.step(Event::Closed);
                let (launched, second) = cooled.step(Event::Rested);
                &&& first == quietly(ActionText::Pause { millis: COOL_DOWN_MILLIS })
                &&& cooled.stage.phase() == Phase::Restarting
                &&& second == quietly(self.launch())
                &&& launched == (Supervisor { stage: Stage::Launching, ..self })
            }),
    {
    }
}

/// The supervisor: the line classifier, the command line, and where the
/// supervision stands.
pub struct App {
    pub line_handler: LineHandler,
    pub args: Vec<String>,
    pub subprocess_args: Vec<String>,
    pub arg_mode: ArgMode,
    pub restart_openocd: bool,
    pub stage: Stage,
}

impl View for App {
    type V = Supervisor;

    open spec fn view(&self) -> Supervisor {
        Supervisor {
            classifier: self.line_handler@,
            args: self.args.deep_view(),
            subprocess_args: self.subprocess_args.deep_view(),
            arg_mode: self.arg_mode,
            restart_openocd: self.restart_openocd,
            stage: self.stage,
        }
    }
}

/// A copy of a list of strings.
fn copy_of(strings: &Vec<String>) -> (copy: Vec<String>)
    ensures
        copy.deep_view() == strings.deep_view(),
{
    let mut copy: Vec<String> = Vec::new();
    let mut i: usize = 0;
    while i < strings.len()
        invariant
            i <= strings.len(),
            copy.deep_view() == strings.deep_view().subrange(0, i as int),
        decreases strings.len() - i,
    {
        let ghost so_far = copy.deep_view();
        copy.push(strings[i].clone());
        assert(copy.deep_view() =~= so_far.push(strings[i as int]@));
        assert(strings.deep_view().subrange(0, i as int + 1) =~= so_far.push(strings[i as int]@));
        i += 1;
    }
    assert(strings.deep_view().subrange(0, i as int) =~= strings.deep_view());
    copy
}

impl App {
    /// A supervisor for the command line `args`, whose first entry is the
    /// name under which the program was started. The command line is not
    /// read yet: that is left to [`App::start`].
    pub fn new(args: Vec<String>) -> (made: Option<App>)
        ensures
            made is Some <==> LineHandler::expressions_compile(),
            made matches Some(app) ==> {
                &&& app@.classifier.standard()
                &&& !app@.classifier.conflict_seen
                &&& app@.classifier.conflict_port == crate::line_handling::unknown_port()
                &&& app@.args == args.deep_view()
                &&& app@.subprocess_args == Seq::<Seq<char>>::empty()
                &&& app@.arg_mode == ArgMode::Plain
                &&& !app@.restart_openocd
                &&& app@.stage == Stage::Launching
            },
    {
        match LineHandler::new() {
            Some(line_handler) => {
                let app = App {
                    line_handler,
                    args,
                    subprocess_args: Vec::new(),
                    arg_mode: ArgMode::Plain,
                    restart_openocd: false,
                    stage: Stage::Launching,
                };
                assert(app.subprocess_args.deep_view() =~= Seq::<Seq<char>>::empty());
                Some(app)
            },
            None => None,
        }
    }

    /// The action that starts the daemon.
    fn launch(&self) -> (action: Action)
        ensures
            action@ == self@.launch(),
    {
        Action::Launch {
            program: String::from_str("/opt/rpi-openocd/src/openocd"),
            arguments: copy_of(&self.subprocess_args),
        }
    }

    /// Reads the command line: settles the mode and the daemon's arguments,
    /// and asks for the daemon to be started. Once a daemon was started, or
    /// the supervisor has given up, this changes nothing and repeats the
    /// awaited action.
    pub fn start(&mut self) -> (directive: Directive)
        ensures
            (final(self)@, directive@) == old(self)@.start(),
    {
        match self.stage {
            Stage::Launching => {
                let (arg_mode, passed) = resolve(&self.args);
                self.arg_mode = arg_mode;
                self.subprocess_args = daemon_arguments(arg_mode, &passed);
                Directive { notice: None, action: self.launch() }
            },
            _ => Directive { notice: None, action: self.awaited() },
        }
    }

    /// Classifies one line of the daemon and decides what it calls for.
    pub fn handle_line(&mut self, line: String) -> (outcome: (
        Result<LineSuccess, LineError>,
        Directive,
    ))
        ensures
            outcome.0 == old(self)@.classifier.diagnose(line@),
            (final(self)@, outcome.1@) == old(self)@.react(line@),
    {
        let result = self.line_handler.handle(line);
        let directive = match result {
            Err(LineError::AddressAlreadyInUse) => Directive {
                notice: Some(
                    Notice::port_conflict(self.line_handler.address_already_in_use_port.as_str()),
                ),
                action: Action::Reap { name: String::from_str("openocd") },
            },
            Err(LineError::PicoProbeNotFound) => Directive {
                notice: Some(Notice::probe_missing()),
                action: Action::Exit,
            },
            Err(LineError::CantFindOpenOCD) => Directive {
                notice: Some(Notice::config_missing()),
                action: Action::Exit,
            },
            Err(LineError::NoMoreConnections) => {
                self.restart_openocd = true;
                Directive { notice: Some(Notice::connection_limit()), action: Action::Receive }
            },
            Ok(_) => Directive { notice: None, action: Action::Receive },
        };
        (result, directive)
    }

    /// Carries out a restart that was asked for, or reads on.
    fn resume(&mut self) -> (action: Action)
        ensures
            (final(self)@, action@) == old(self)@.resume(),
    {
        if self.restart_openocd {
            self.restart_openocd = false;
            self.stage = Stage::Killing;
            Action::KillChild
        } else {
            self.stage = Stage::Watching;
            Action::Receive
        }
    }

    /// Gives up for the reason `notice`.
    fn give_up(&mut self, notice: Notice) -> (directive: Directive)
        ensures
            (final(self)@, directive@) == old(self)@.give_up(notice@),
    {
        self.stage = Stage::Terminated;
        Directive { notice: Some(notice), action: Action::Exit }
    }

    /// Tells the phase of supervision.
    pub fn to_phase(&self) -> (phase: Phase)
        ensures
            phase == self@.stage.phase(),
    {
        self.stage.to_phase()
    }

    /// The action whose outcome the supervisor waits for.
    pub fn awaited(&self) -> (action: Action)
        ensures
            action@ == self@.awaited(),
    {
        match self.stage {
            Stage::Launching => self.launch(),
            Stage::Watching => Action::Receive,
            Stage::Draining => Action::Receive,
            Stage::Reaping => Action::Reap { name: String::from_str("openocd") },
            Stage::Killing => Action::KillChild,
            Stage::Cooling => Action::Pause { millis: COOL_DOWN_MILLIS },
            Stage::Terminated => Action::Exit,
        }
    }

    /// Tells whether `event` is a possible outcome of the awaited action.
    pub fn expects(&self, event: &Event) -> (expected: bool)
        ensures
            expected == self@.expects(*event),
    {
        match self.stage {
            Stage::Launching => match event {
                Event::Spawned => true,
                Event::SpawnFailed => true,
                Event::StdoutUnavailable => true,
                Event::StderrUnavailable => true,
                _ => false,
            },
            Stage::Watching => match event {
                Event::Line(_) => true,
                Event::Closed => true,
                _ => false,
            },
            Stage::Draining => match event {
                Event::Line(_) => true,
                Event::Closed => true,
                _ => false,
            },
            Stage::Reaping => match event {
                Event::Reaped => true,
                Event::ReapFailed => true,
                _ => false,
            },
            Stage::Killing => match event {
                Event::Killed => true,
                Event::KillFailed => true,
                _ => false,
            },
            Stage::Cooling => match event {
                Event::Rested => true,
                _ => false,
            },
            Stage::Terminated => false,
        }
    }

    /// Takes the outcome of the last action and answers with the next.
    pub fn step(&mut self, event: Event) -> (directive: Directive)
        ensures
            (final(self)@, directive@) == old(self)@.step(event),
    {
        if !self.expects(&event) {
            return Directive { notice: None, action: self.awaited() };
        }
        match event {
            Event::Spawned => {
                self.stage = Stage::Watching;
                Directive { notice: None, action: Action::Receive }
            },
            Event::SpawnFailed => self.give_up(Notice::spawn_failed()),
            Event::StdoutUnavailable => self.give_up(Notice::stdout_missing()),
            Event::StderrUnavailable => self.give_up(Notice::stderr_missing()),
            Event::Line(line) => {
                if self.stage == Stage::Watching {
                    let (_, directive) = self.handle_line(line);
                    match directive.action {
                        Action::Exit => {
                            self.stage = Stage::Terminated;
                            directive
                        },
                        Action::Reap { name: _ } => {
                            self.stage = Stage::Reaping;
                            directive
                        },
                        _ => {
                            let action = self.resume();
                            Directive { notice: directive.notice, action }
                        },
                    }
                } else {
                    Directive { notice: None, action: Action::Receive }
                }
            },
            Event::Closed => {
                self.stage = Stage::Cooling;
                Directive { notice: None, action: Action::Pause { millis: COOL_DOWN_MILLIS } }
            },
            Event::Reaped => {
                let action = self.resume();
                Directive { notice: None, action }
            },
            Event::ReapFailed => self.give_up(Notice::reap_failed()),
            Event::Killed => {
                self.stage = Stage::Draining;
                Directive { notice: None, action: Action::Receive }
            },
            Event::KillFailed => self.give_up(Notice::kill_failed()),
            Event::Rested => {
                self.stage = Stage::Launching;
                Directive { notice: None, action: self.launch() }
            },
        }
    }
}

} // verus!
