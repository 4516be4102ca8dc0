//! The worker supervisor as a state machine. The host performs each
//! [`Action`] (locating, spawning, logging, publishing, notifying) and feeds
//! back what happened as an [`Event`]; every decision about the worker's
//! life is taken here.

use vstd::prelude::*;
use crate::config::LauncherConfig;
use crate::handshake::{announced_port, read_stderr_line, read_stdout_line, trimmed};
use crate::locator::LocateError;
use crate::runtime::{RuntimeState, applied_all, lemma_applied_all_append};

verus! {

/// Environment entry that carries the data directory to the worker.
pub const DATA_DIR_VAR: &'static str = "PAPERMIND_DATA_DIR";

/// Environment entry that carries the environment-file path to the worker.
pub const ENV_FILE_VAR: &'static str = "PAPERMIND_ENV_FILE";

/// The life of one worker run.
#[derive(PartialEq, Eq, Structural, Clone, Copy, Debug)]
pub enum Phase {
    Idle,
    Spawning,
    AwaitingHandshake,
    Ready,
    Monitoring,
    Exited,
    Failed,
}

/// One of the worker's two output streams.
#[derive(PartialEq, Eq, Structural, Clone, Copy, Debug)]
pub enum StreamKind {
    Stdout,
    Stderr,
}

/// Why a start attempt failed before the worker became ready.
pub enum SupervisorError {
    /// No worker executable was found.
    Locate(LocateError),
    /// The system refused to start the process.
    Spawn(String),
    /// The worker's standard output could not be captured.
    StdoutNotCaptured,
    /// The worker's standard error could not be captured.
    StderrNotCaptured,
    /// Standard output closed before any line announced a port.
    ExitedBeforeReady,
    /// Reading standard output failed before any line announced a port.
    StdoutRead(String),
}

/// How the worker ended, as the host observed it.
pub enum ExitReport {
    /// The process ended with this status.
    Status(String),
    /// Waiting for the process failed with this error.
    WaitError(String),
}

/// The process the host is to start: the program, and the two settings as
/// environment entries ([`DATA_DIR_VAR`], [`ENV_FILE_VAR`]) of the child
/// only. Both output streams are captured through pipes, and the child is
/// killed when its handle is dropped before it exits.
pub struct SpawnRequest {
    pub program: String,
    pub config: LauncherConfig,
    pub kill_on_drop: bool,
}

/// What happened, as the host reports it to the supervisor.
pub enum Event {
    /// The host asks for a run with these settings.
    Start(LauncherConfig),
    /// The worker executable was looked for.
    Located(Result<String, LocateError>),
    /// The process started; the system may not report its id.
    Spawned(Option<u32>),
    /// The process could not be started.
    SpawnFailed(String),
    /// Whether each output stream was captured.
    Streams { stdout: bool, stderr: bool },
    /// The ready worker is handed to the background monitor.
    Detach,
    StdoutLine(String),
    StdoutClosed,
    StdoutError(String),
    StderrLine(String),
    StderrClosed,
    StderrError(String),
    /// The process ended.
    ProcessExited(ExitReport),
}

/// What the host is to do next.
pub enum Action {
    /// Look for the worker executable.
    Locate,
    /// Start the worker process.
    Spawn(SpawnRequest),
    /// Record the worker's process id in the runtime state.
    PublishPid(u32),
    /// Write a line of the worker's output to the log.
    Log(StreamKind, String),
    /// Record the port in the runtime state and announce readiness with it.
    Ready(u16),
    /// Announce that the start attempt failed.
    Fail(SupervisorError),
    /// Write how the worker ended to the log.
    LogExit(ExitReport),
    /// Nothing to do.
    Wait,
}

/// An action with the logged text as plain characters.
pub enum ActionView {
    Locate,
    Spawn(SpawnRequest),
    PublishPid(u32),
    Log(StreamKind, Seq<char>),
    Ready(u16),
    Fail(SupervisorError),
    LogExit(ExitReport),
    Wait,
}

impl View for Action {
    type V = ActionView;

    open spec fn view(&self) -> ActionView {
        match *self {
            Action::Locate => ActionView::Locate,
            Action::Spawn(q) => ActionView::Spawn(q),
            Action::PublishPid(p) => ActionView::PublishPid(p),
            Action::Log(k, t) => ActionView::Log(k, t@),
            Action::Ready(p) => ActionView::Ready(p),
            Action::Fail(e) => ActionView::Fail(e),
            Action::LogExit(x) => ActionView::LogExit(x),
            Action::Wait => ActionView::Wait,
        }
    }
}

/// The supervisor of one worker run.
pub struct Supervisor {
    pub phase: Phase,
    /// The settings of the run, until they are handed to the spawn.
    pub config: Option<LauncherConfig>,
    /// The worker's process id, once it was spawned.
    pub pid: Option<u32>,
    /// The port the worker announced, once it is ready.
    pub port: Option<u16>,
}

/// The state after `e` in state `s`. Events that do not belong to the
/// current phase change nothing.
pub open spec fn next(s: Supervisor, e: Event) -> Supervisor {
    match e {
        Event::Start(c) => if s.phase == Phase::Idle {
            Supervisor { phase: Phase::Spawning, config: Some(c), ..s }
        } else {
            s
        },
        Event::Located(Ok(_)) => if s.phase == Phase::Spawning && s.config is Some {
            Supervisor { config: None, ..s }
        } else {
            s
        },
        Event::Located(Err(_)) | Event::SpawnFailed(_) => if s.phase == Phase::Spawning {
            Supervisor { phase: Phase::Failed, ..s }
        } else {
            s
        },
        Event::Spawned(pid) => if s.phase == Phase::Spawning {
            Supervisor { pid: Some(pid.unwrap_or(0)), ..s }
        } else {
            s
        },
        Event::Streams { stdout, stderr } => if s.phase == Phase::Spawning {
            Supervisor {
                phase: if stdout && stderr { Phase::AwaitingHandshake } else { Phase::Failed },
                ..s
            }
        } else {
            s
        },
        Event::Detach => if s.phase == Phase::Ready {
            Supervisor { phase: Phase::Monitoring, ..s }
        } else {
            s
        },
        Event::StdoutLine(l) => if s.phase == Phase::AwaitingHandshake && announced_port(l@) is Some {
            Supervisor { phase: Phase::Ready, port: announced_port(l@), ..s }
        } else {
            s
        },
        Event::StdoutClosed | Event::StdoutError(_) => if s.phase == Phase::AwaitingHandshake {
            Supervisor { phase: Phase::Failed, ..s }
        } else if s.phase == Phase::Monitoring {
            Supervisor { phase: Phase::Exited, ..s }
        } else {
            s
        },
        Event::StderrLine(_) => s,
        Event::StderrClosed | Event::StderrError(_) | Event::ProcessExited(_) => if s.phase
            == Phase::Monitoring {
            Supervisor { phase: Phase::Exited, ..s }
        } else {
            s
        },
    }
}

/// Whether output lines are read in phase `p`.
pub open spec fn reads_output(p: Phase) -> bool {
    p == Phase::AwaitingHandshake || p == Phase::Monitoring
}

/// The action that `e` calls for in state `s`.
pub open spec fn output(s: Supervisor, e: Event) -> ActionView {
    match e {
        Event::Start(_) => if s.phase == Phase::Idle {
            ActionView::Locate
        } else {
            ActionView::Wait
        },
        Event::Located(Ok(program)) => if s.phase == Phase::Spawning && s.config is Some {
            ActionView::Spawn(SpawnRequest { program, config: s.config->0, kill_on_drop: true })
        } else {
            ActionView::Wait
        },
        Event::Located(Err(err)) => if s.phase == Phase::Spawning {
            ActionView::Fail(SupervisorError::Locate(err))
        } else {
            ActionView::Wait
        },
        Event::SpawnFailed(m) => if s.phase == Phase::Spawning {
            ActionView::Fail(SupervisorError::Spawn(m))
        } else {
            ActionView::Wait
        },
        Event::Spawned(pid) => if s.phase == Phase::Spawning {
            ActionView::PublishPid(pid.unwrap_or(0))
        } else {
            ActionView::Wait
        },
        Event::Streams { stdout, stderr } => if s.phase == Phase::Spawning && !stdout {
            ActionView::Fail(SupervisorError::StdoutNotCaptured)
        } else if s.phase == Phase::Spawning && !stderr {
            ActionView::Fail(SupervisorError::StderrNotCaptured)
        } else {
            ActionView::Wait
        },
        Event::Detach => ActionView::Wait,
        Event::StdoutLine(l) => if s.phase == Phase::AwaitingHandshake && announced_port(l@) is Some {
            ActionView::Ready(announced_port(l@)->0)
        } else if reads_output(s.phase) {
            ActionView::Log(StreamKind::Stdout, trimmed(l@))
        } else {
            ActionView::Wait
        },
        Event::StdoutClosed => if s.phase == Phase::AwaitingHandshake {
            ActionView::Fail(SupervisorError::ExitedBeforeReady)
        } else {
            ActionView::Wait
        },
        Event::StdoutError(m) => if s.phase == Phase::AwaitingHandshake {
            ActionView::Fail(SupervisorError::StdoutRead(m))
        } else {
            ActionView::Wait
        },
        Event::StderrLine(l) => if reads_output(s.phase) {
            ActionView::Log(StreamKind::Stderr, trimmed(l@))
        } else {
            ActionView::Wait
        },
        Event::StderrClosed | Event::StderrError(_) => ActionView::Wait,
        Event::ProcessExited(x) => if s.phase == Phase::Monitoring {
            ActionView::LogExit(x)
        } else {
            ActionView::Wait
        },
    }
}

impl Supervisor {
    /// A supervisor with no run yet.
    pub fn new() -> (r: Self)
        ensures
            r.phase == Phase::Idle,
            r.config is None,
            r.pid is None,
            r.port is None,
    {
        Supervisor { phase: Phase::Idle, config: None, pid: None, port: None }
    }

    /// Takes in one event and says what the host is to do.
    pub fn step(&mut self, e: Event) -> (r: Action)
        ensures
            *final(self) == next(*old(self), e),
            r@ == output(*old(self), e),
    {
        let phase = self.phase;
        let mut phase_next = phase;
        let action = match e {
            Event::Start(c) => {
                if phase == Phase::Idle {
                    phase_next = Phase::Spawning;
                    self.config = Some(c);
                    Action::Locate
                } else {
                    Action::Wait
                }
            },
            Event::Located(Ok(program)) => {
                let held = self.config.take();
                match held {
                    Some(config) if phase == Phase::Spawning => {
                        Action::Spawn(SpawnRequest { program, config, kill_on_drop: true })
                    },
                    other => {
                        self.config = other;
                        Action::Wait
                    },
                }
            },
            Event::Located(Err(err)) => {
                if phase == Phase::Spawning {
                    phase_next = Phase::Failed;
                    Action::Fail(SupervisorError::Locate(err))
                } else {
                    Action::Wait
                }
            },
            Event::SpawnFailed(m) => {
                if phase == Phase::Spawning {
                    phase_next = Phase::Failed;
                    Action::Fail(SupervisorError::Spawn(m))
                } else {
                    Action::Wait
                }
            },
            Event::Spawned(pid) => {
                if phase == Phase::Spawning {
                    let id = pid.unwrap_or(0);
                    self.pid = Some(id);
                    Action::PublishPid(id)
                } else {
                    Action::Wait
                }
            },
            Event::Streams { stdout, stderr } => {
                if phase == Phase::Spawning {
                    if !stdout {
                        phase_next = Phase::Failed;
                        Action::Fail(SupervisorError::StdoutNotCaptured)
                    } else if !stderr {
                        phase_next = Phase::Failed;
                        Action::Fail(SupervisorError::StderrNotCaptured)
                    } else {
                        phase_next = Phase::AwaitingHandshake;
                        Action::Wait
                    }
                } else {
                    Action::Wait
                }
            },
            Event::Detach => {
                if phase == Phase::Ready {
                    phase_next = Phase::Monitoring;
                }
                Action::Wait
            },
            Event::StdoutLine(l) => {
                if phase == Phase::AwaitingHandshake || phase == Phase::Monitoring {
                    let read = read_stdout_line(l.as_str());
                    match read.port {
                        Some(p) if phase == Phase::AwaitingHandshake => {
                            phase_next = Phase::Ready;
                            self.port = Some(p);
                            Action::Ready(p)
                        },
                        _ => Action::Log(StreamKind::Stdout, read.text),
                    }
                } else {
                    Action::Wait
                }
            },
            Event::StdoutClosed => {
                if phase == Phase::AwaitingHandshake {
                    phase_next = Phase::Failed;
                    Action::Fail(SupervisorError::ExitedBeforeReady)
                } else {
                    if phase == Phase::Monitoring {
                        phase_next = Phase::Exited;
                    }
                    Action::Wait
                }
            },
            Event::StdoutError(m) => {
                if phase == Phase::AwaitingHandshake {
                    phase_next = Phase::Failed;
                    Action::Fail(SupervisorError::StdoutRead(m))
                } else {
                    if phase == Phase::Monitoring {
                        phase_next = Phase::Exited;
                    }
                    Action::Wait
                }
            },
            Event::StderrLine(l) => {
                if phase == Phase::AwaitingHandshake || phase == Phase::Monitoring {
                    Action::Log(StreamKind::Stderr, read_stderr_line(l.as_str()))
                } else {
                    Action::Wait
                }
            },
            Event::StderrClosed | Event::StderrError(_) => {
                if phase == Phase::Monitoring {
                    phase_next = Phase::Exited;
                }
                Action::Wait
            },
            Event::ProcessExited(x) => {
                if phase == Phase::Monitoring {
                    phase_next = Phase::Exited;
                    Action::LogExit(x)
                } else {
                    Action::Wait
                }
            },
        };
        self.phase = phase_next;
        action
    }
}

/// The state after the events, taken in order.
pub open spec fn run(s: Supervisor, events: Seq<Event>) -> Supervisor
    decreases events.len(),
{
    if events.len() == 0 {
        s
    } else {
        run(next(s, events[0]), events.drop_first())
    }
}

/// The actions that the events call for, in order.
pub open spec fn run_output(s: Supervisor, events: Seq<Event>) -> Seq<ActionView>
    decreases events.len(),
{
    if events.len() == 0 {
        Seq::empty()
    } else {
        seq![output(s, events[0])] + run_output(next(s, events[0]), events.drop_first())
    }
}

/// The events that report these lines of standard output.
pub open spec fn stdout_events(lines: Seq<String>) -> Seq<Event> {
    lines.map_values(|l: String| Event::StdoutLine(l))
}

/// The log actions for these lines of standard output.
pub open spec fn stdout_logs(lines: Seq<String>) -> Seq<ActionView> {
    lines.map_values(|l: String| ActionView::Log(StreamKind::Stdout, trimmed(l@)))
}

/// None of the lines announces a port.
pub open spec fn no_port_line(lines: Seq<String>) -> bool {
    forall|i: int| 0 <= i < lines.len() ==> (#[trigger] announced_port(lines[i]@)) is None
}

/// An event about standard error.
pub open spec fn is_stderr_event(e: Event) -> bool {
    e is StderrLine || e is StderrClosed || e is StderrError
}

/// An action that settles a start attempt: readiness or failure.
pub open spec fn is_verdict(a: ActionView) -> bool {
    a is Ready || a is Fail
}

/// A phase in which the start attempt is not settled yet.
pub open spec fn unsettled(p: Phase) -> bool {
    p == Phase::Idle || p == Phase::Spawning || p == Phase::AwaitingHandshake
}

/// The number of verdicts among the actions.
pub open spec fn verdicts(acts: Seq<ActionView>) -> nat
    decreases acts.len(),
{
    if acts.len() == 0 {
        0
    } else {
        (if is_verdict(acts[0]) { 1nat } else { 0nat }) + verdicts(acts.drop_first())
    }
}

proof fn lemma_run_append(s: Supervisor, a: Seq<Event>, b: Seq<Event>)
    ensures
        run(s, a + b) == run(run(s, a), b),
        run_output(s, a + b) == run_output(s, a) + run_output(run(s, a), b),
    decreases a.len(),
{
    if a.len() == 0 {
        assert(a + b =~= b);
    } else {
        assert((a + b).drop_first() =~= a.drop_first() + b);
        lemma_run_append(next(s, a[0]), a.drop_first(), b);
        assert(run_output(s, a + b) =~= run_output(s, a) + run_output(run(s, a), b));
    }
}

proof fn lemma_run_one(s: Supervisor, e: Event)
    ensures
        run(s, seq![e]) == next(s, e),
        run_output(s, seq![e]) == seq![output(s, e)],
{
    reveal_with_fuel(run, 2);
    reveal_with_fuel(run_output, 2);
    assert(seq![e].drop_first() =~= Seq::<Event>::empty());
    assert(run_output(s, seq![e]) =~= seq![output(s, e)]);
}

proof fn lemma_run_output_len(s: Supervisor, events: Seq<Event>)
    ensures
        run_output(s, events).len() == events.len(),
    decreases events.len(),
{
    if events.len() > 0 {
        lemma_run_output_len(next(s, events[0]), events.drop_first());
    }
}

/// While the handshake is awaited, lines of standard output that announce
/// no port leave the state as it was and are logged, trimmed, in the order
/// they came.
pub proof fn lemma_earlier_lines_logged_in_order(s: Supervisor, lines: Seq<String>)
    requires
        s.phase == Phase::AwaitingHandshake,
        no_port_line(lines),
    ensures
        run(s, stdout_events(lines)) == s,
        run_output(s, stdout_events(lines)) == stdout_logs(lines),
    decreases lines.len(),
{
    if lines.len() > 0 {
        let rest = lines.drop_first();
        assert(announced_port(lines[0]@) is None);
        assert(stdout_events(lines).drop_first() =~= stdout_events(rest));
        assert(no_port_line(rest)) by {
            assert forall|i: int| 0 <= i < rest.len() implies (#[trigger] announced_port(rest[i]@)) is None by {
                assert(rest[i] == lines[i + 1]);
            }
        }
        lemma_earlier_lines_logged_in_order(s, rest);
        assert(run_output(s, stdout_events(lines)) =~= stdout_logs(lines));
    }
}

/// The first line of standard output that announces a port settles the
/// handshake: the lines before it are logged in order, then the worker is
/// ready on that port.
pub proof fn lemma_first_port_line_wins(s: Supervisor, lines: Seq<String>, line: String)
    requires
        s.phase == Phase::AwaitingHandshake,
        no_port_line(lines),
        announced_port(line@) is Some,
    ensures
        run(s, stdout_events(lines).push(Event::StdoutLine(line))).phase == Phase::Ready,
        run(s, stdout_events(lines).push(Event::StdoutLine(line))).port == announced_port(line@),
        run_output(s, stdout_events(lines).push(Event::StdoutLine(line))) == stdout_logs(lines).push(
            ActionView::Ready(announced_port(line@)->0),
        ),
{
    let last = seq![Event::StdoutLine(line)];
    assert(stdout_events(lines).push(Event::StdoutLine(line)) == stdout_events(lines) + last);
    lemma_earlier_lines_logged_in_order(s, lines);
    lemma_run_append(s, stdout_events(lines), last);
    lemma_run_one(run(s, stdout_events(lines)), last[0]);
    assert(last =~= seq![last[0]]);
    assert(run_output(s, stdout_events(lines) + last) =~= stdout_logs(lines).push(
        ActionView::Ready(announced_port(line@)->0),
    ));
}

/// While the handshake is awaited, events of standard error change nothing
/// but what is logged: every line of it is logged, none settles the start.
pub proof fn lemma_stderr_does_not_settle(s: Supervisor, events: Seq<Event>)
    requires
        s.phase == Phase::AwaitingHandshake,
        forall|i: int| 0 <= i < events.len() ==> is_stderr_event(#[trigger] events[i]),
    ensures
        run(s, events) == s,
        verdicts(run_output(s, events)) == 0,
        forall|i: int|
            0 <= i < events.len() && events[i] is StderrLine ==> #[trigger] run_output(s, events)[i]
                == ActionView::Log(StreamKind::Stderr, trimmed(events[i]->StderrLine_0@)),
    decreases events.len(),
{
    if events.len() > 0 {
        let rest = events.drop_first();
        assert(is_stderr_event(events[0]));
        assert(next(s, events[0]) == s);
        assert forall|i: int| 0 <= i < rest.len() implies is_stderr_event(#[trigger] rest[i]) by {
            assert(rest[i] == events[i + 1]);
        }
        lemma_stderr_does_not_settle(s, rest);
        lemma_run_output_len(s, rest);
        let outs = run_output(s, events);
        assert(outs.drop_first() =~= run_output(s, rest));
        assert forall|i: int|
            0 <= i < events.len() && events[i] is StderrLine implies #[trigger] outs[i]
                == ActionView::Log(StreamKind::Stderr, trimmed(events[i]->StderrLine_0@)) by {
            if i > 0 {
                assert(outs[i] == run_output(s, rest)[i - 1]);
                assert(events[i] == rest[i - 1]);
            }
        }
    }
}

/// Whatever standard error reports meanwhile, a worker whose first line of
/// standard output announces a port becomes ready on that port.
pub proof fn lemma_ready_despite_stderr(s: Supervisor, before: Seq<Event>, line: String)
    requires
        s.phase == Phase::AwaitingHandshake,
        forall|i: int| 0 <= i < before.len() ==> is_stderr_event(#[trigger] before[i]),
        announced_port(line@) is Some,
    ensures
        run(s, before.push(Event::StdoutLine(line))).phase == Phase::Ready,
        run(s, before.push(Event::StdoutLine(line))).port == announced_port(line@),
{
    let last = seq![Event::StdoutLine(line)];
    assert(before.push(Event::StdoutLine(line)) == before + last);
    lemma_stderr_does_not_settle(s, before);
    lemma_run_append(s, before, last);
    lemma_run_one(run(s, before), last[0]);
    assert(last =~= seq![last[0]]);
}

proof fn lemma_logs_publish_nothing(rs: RuntimeState, lines: Seq<String>)
    ensures
        applied_all(rs, stdout_logs(lines)) == rs,
        verdicts(stdout_logs(lines)) == 0,
    decreases lines.len(),
{
    if lines.len() > 0 {
        assert(stdout_logs(lines).drop_first() =~= stdout_logs(lines.drop_first()));
        lemma_logs_publish_nothing(rs, lines.drop_first());
    }
}

/// When standard output closes before any line announced a port, the
/// start fails with the handshake failure, and the host, performing the
/// actions, publishes no port.
pub proof fn lemma_closed_before_port_fails(s: Supervisor, lines: Seq<String>, rs: RuntimeState)
    requires
        s.phase == Phase::AwaitingHandshake,
        no_port_line(lines),
    ensures
        run(s, stdout_events(lines).push(Event::StdoutClosed)).phase == Phase::Failed,
        run(s, stdout_events(lines).push(Event::StdoutClosed)).port == s.port,
        run_output(s, stdout_events(lines).push(Event::StdoutClosed)) == stdout_logs(lines).push(
            ActionView::Fail(SupervisorError::ExitedBeforeReady),
        ),
        applied_all(rs, run_output(s, stdout_events(lines).push(Event::StdoutClosed))).api_port == rs.api_port,
{
    let last = seq![Event::StdoutClosed];
    assert(stdout_events(lines).push(Event::StdoutClosed) == stdout_events(lines) + last);
    lemma_earlier_lines_logged_in_order(s, lines);
    lemma_run_append(s, stdout_events(lines), last);
    lemma_run_one(run(s, stdout_events(lines)), last[0]);
    assert(last =~= seq![last[0]]);
    let outs = stdout_logs(lines).push(ActionView::Fail(SupervisorError::ExitedBeforeReady));
    assert(run_output(s, stdout_events(lines) + last) =~= outs);
    lemma_logs_publish_nothing(rs, lines);
    lemma_applied_all_append(rs, stdout_logs(lines), seq![ActionView::Fail(SupervisorError::ExitedBeforeReady)]);
    reveal_with_fuel(applied_all, 2);
    assert(stdout_logs(lines) + seq![ActionView::Fail(SupervisorError::ExitedBeforeReady)] == outs);
}

/// Once the worker is monitored, the end of the process or of either
/// stream ends the run; the end of the process is logged with how it ended.
pub proof fn lemma_monitoring_ends_on_exit(s: Supervisor, e: Event)
    requires
        s.phase == Phase::Monitoring,
        e is ProcessExited || e is StdoutClosed || e is StdoutError || e is StderrClosed
            || e is StderrError,
    ensures
        next(s, e).phase == Phase::Exited,
        next(s, e).port == s.port,
        e is ProcessExited ==> output(s, e) == ActionView::LogExit(e->ProcessExited_0),
        !is_verdict(output(s, e)),
{
}

/// A start attempt is settled at most once: over any events, at most one
/// readiness or failure is announced, and none once the attempt is
/// settled.
pub proof fn lemma_at_most_one_verdict(s: Supervisor, events: Seq<Event>)
    ensures
        verdicts(run_output(s, events)) <= (if unsettled(s.phase) { 1nat } else { 0nat }),
    decreases events.len(),
{
    if events.len() > 0 {
        let e = events[0];
        let s2 = next(s, e);
        lemma_at_most_one_verdict(s2, events.drop_first());
        assert(run_output(s, events).drop_first() =~= run_output(s2, events.drop_first()));
        assert(is_verdict(output(s, e)) ==> !unsettled(s2.phase));
        assert(unsettled(s2.phase) ==> unsettled(s.phase));
    }
}

} // verus!
