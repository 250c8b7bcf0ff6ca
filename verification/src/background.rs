//! Supervision of the background tasks of one run: each task is started and watched
//! until its marker shows, and at the end every task that was started is stopped.

use vstd::prelude::*;
use vstd::string::StringExecFns;
use crate::shell::{plain, Command, CommandView, Task};
use crate::text::{decimal, push_decimal};

verus! {

/// How often a marker is looked for before its task counts as failed, unless the
/// caller says otherwise.
pub const PATIENCE: usize = 60;

/// The seconds between two looks for a marker.
pub const PROBE_SECONDS: u64 = 1;

/// The file whose presence tells the loop of task `number` to end.
pub open spec fn stop_file(number: nat) -> Seq<char> {
    "/tmp/background-stop-"@ + decimal(number)
}

/// The loop of a task: until its stop file shows, issue `cmd` and pause for `period`
/// seconds. A stop file that an earlier run left is removed first.
pub open spec fn loop_text(cmd: Seq<char>, period: u64, number: nat) -> Seq<char> {
    "rm -f "@ + stop_file(number) + " ; while [ ! -e "@ + stop_file(number) + " ] ; do "@ + cmd
        + " ; sleep "@ + decimal(period as nat) + " ; done"@
}

/// The command that succeeds once `marker` is there and not empty.
pub open spec fn marker_text(marker: Seq<char>) -> Seq<char> {
    "test -s "@ + marker
}

/// The command that tells the loop of task `number` to end.
pub open spec fn stop_text(number: nat) -> Seq<char> {
    "touch "@ + stop_file(number)
}

/// Writes the name of the stop file of task `number` behind `s`.
fn push_stop_file(s: &mut String, number: usize)
    ensures
        final(s)@ == old(s)@ + stop_file(number as nat),
{
    let mut name = String::from_str("/tmp/background-stop-");
    push_decimal(&mut name, number as u64);
    s.append(name.as_str());
}

/// The command that runs the loop of `task`, which is task `number` of the run. It is
/// to be started, not waited for, and needs bash.
pub fn loop_command(task: &Task, number: usize) -> (r: Command)
    ensures
        r@ == (CommandView {
            use_bash: true,
            ..plain(loop_text(task.cmd@, task.period, number as nat))
        }),
{
    let mut t = String::from_str("rm -f ");
    push_stop_file(&mut t, number);
    t.append(" ; while [ ! -e ");
    push_stop_file(&mut t, number);
    t.append(" ] ; do ");
    t.append(task.cmd.as_str());
    t.append(" ; sleep ");
    push_decimal(&mut t, task.period);
    t.append(" ; done");
    Command::new(t).use_bash()
}

/// The command that looks for the marker of `task`. It fails for as long as the
/// marker is not there or is empty.
pub fn marker_command(task: &Task) -> (r: Command)
    ensures
        r@ == plain(marker_text(task.marker@)),
{
    let mut t = String::from_str("test -s ");
    t.append(task.marker.as_str());
    Command::new(t)
}

/// The command that tells the loop of task `number` to end.
pub fn stop_command(number: usize) -> (r: Command)
    ensures
        r@ == plain(stop_text(number as nat)),
{
    let mut t = String::from_str("touch ");
    push_stop_file(&mut t, number);
    Command::new(t)
}

/// What went wrong with a background task. The number is that of the task, counted
/// from zero in the order in which the tasks were started.
#[derive(Debug, Clone, Copy, PartialEq, Eq, Structural)]
pub enum TaskError {
    /// The task could not be started.
    StartFailed { task: usize },
    /// The task was started, and its marker never showed.
    StartTimeout { task: usize },
    /// The task could not be stopped.
    StopFailed { task: usize },
}

/// What the supervisor is told.
#[derive(Debug, Clone, Copy, PartialEq, Eq, Structural)]
pub enum Event {
    /// Another task is to be started.
    Request,
    /// The task was started, or could not be.
    Launched { ok: bool },
    /// The marker of the task was looked for, and was there or not.
    Marker { present: bool },
    /// The task was told to stop, which went well or not.
    Stopped { ok: bool },
    /// The run is over: every task is to be stopped.
    Shutdown,
}

/// What the supervisor asks for.
#[derive(Debug, Clone, Copy, PartialEq, Eq, Structural)]
pub enum Action {
    /// Start the loop of the task with this number.
    Launch { task: usize },
    /// Wait a moment, then look for the marker of the task with this number.
    Probe { task: usize },
    /// Tell the task with this number to stop and wait until it has.
    Stop { task: usize },
    /// The task runs. Nothing is to be done before the next request.
    Settled,
    /// Nothing was expected of this event, and nothing follows from it.
    Ignored,
    /// Every task that was started has been told to stop. This is how it went.
    Finished { failure: Option<TaskError> },
}

/// Where the supervisor stands.
#[derive(Debug, Clone, Copy, PartialEq, Eq, Structural)]
pub enum Mode {
    /// Every task that was started runs.
    Idle,
    /// A task is being started.
    Launching,
    /// The last task was started; its marker may be looked for `left` times more.
    Waiting { left: usize },
    /// The tasks before `next` have been told to stop, task `next` is being told.
    Stopping { next: usize },
    /// Every task that was started has been told to stop.
    Done,
}

/// The state of the supervisor as a plain value.
pub struct State {
    pub mode: Mode,
    /// How many tasks were started.
    pub started: nat,
    /// How often a marker is looked for before the task counts as failed.
    pub patience: nat,
    /// The first thing that went wrong.
    pub failure: Option<TaskError>,
}

/// Whether `s` is a state that the supervisor can be in.
pub open spec fn valid(s: State) -> bool {
    &&& s.started <= usize::MAX
    &&& s.patience <= usize::MAX
    &&& match s.mode {
        Mode::Idle => s.failure is None,
        Mode::Launching => s.failure is None && s.started < usize::MAX,
        Mode::Waiting { left } => s.failure is None && s.started >= 1 && 1 <= left <= s.patience,
        Mode::Stopping { next } => next < s.started,
        Mode::Done => true,
    }
}

/// The state in which nothing has been started yet.
pub open spec fn initial(patience: nat) -> State {
    State { mode: Mode::Idle, started: 0, patience, failure: None }
}

/// What follows when the tasks are to be stopped, `failure` being what went wrong so
/// far: the first task is told to stop, or, where none was started, all is over.
pub open spec fn begin_stop(s: State, failure: Option<TaskError>) -> (State, Action) {
    if s.started == 0 {
        (State { mode: Mode::Done, failure, ..s }, Action::Finished { failure })
    } else {
        (State { mode: Mode::Stopping { next: 0 }, failure, ..s }, Action::Stop { task: 0 })
    }
}

/// The state after the event `e` in the state `s`, and what is asked for then.
///
/// A task that cannot be started, or whose marker has not shown after it was looked
/// for `patience` times, ends the supervision: every task that was started is told to
/// stop, in the order in which they were started and whether or not the one before
/// could be stopped, and the first thing that went wrong is reported at the end.
pub open spec fn next(s: State, e: Event) -> (State, Action) {
    match (s.mode, e) {
        (Mode::Idle, Event::Request) => if s.started < usize::MAX {
            (State { mode: Mode::Launching, ..s }, Action::Launch { task: s.started as usize })
        } else {
            (s, Action::Ignored)
        },
        (Mode::Idle, Event::Shutdown) => begin_stop(s, None),
        (Mode::Launching, Event::Launched { ok }) => if !ok {
            begin_stop(s, Some(TaskError::StartFailed { task: s.started as usize }))
        } else if s.patience == 0 {
            begin_stop(
                State { started: s.started + 1, ..s },
                Some(TaskError::StartTimeout { task: s.started as usize }),
            )
        } else {
            (
                State {
                    mode: Mode::Waiting { left: s.patience as usize },
                    started: s.started + 1,
                    ..s
                },
                Action::Probe { task: s.started as usize },
            )
        },
        (Mode::Waiting { left }, Event::Marker { present }) => if present {
            (State { mode: Mode::Idle, ..s }, Action::Settled)
        } else if left > 1 {
            (
                State { mode: Mode::Waiting { left: (left - 1) as usize }, ..s },
                Action::Probe { task: (s.started - 1) as usize },
            )
        } else {
            begin_stop(s, Some(TaskError::StartTimeout { task: (s.started - 1) as usize }))
        },
        (Mode::Stopping { next }, Event::Stopped { ok }) => {
            let failure = if s.failure is None && !ok {
                Some(TaskError::StopFailed { task: next })
            } else {
                s.failure
            };
            if next + 1 < s.started {
                (
                    State { mode: Mode::Stopping { next: (next + 1) as usize }, failure, ..s },
                    Action::Stop { task: (next + 1) as usize },
                )
            } else {
                (State { mode: Mode::Done, failure, ..s }, Action::Finished { failure })
            }
        },
        _ => (s, Action::Ignored),
    }
}

/// The supervisor of the background tasks of one run.
#[derive(Debug)]
pub struct Supervisor {
    mode: Mode,
    started: usize,
    patience: usize,
    failure: Option<TaskError>,
}

impl View for Supervisor {
    type V = State;

    closed spec fn view(&self) -> State {
        State {
            mode: self.mode,
            started: self.started as nat,
            patience: self.patience as nat,
            failure: self.failure,
        }
    }
}

impl Supervisor {
    #[verifier::type_invariant]
    spec fn inv(&self) -> bool {
        valid(self@)
    }

    /// A supervisor that has started nothing and looks for each marker at most
    /// `patience` times.
    pub fn new(patience: usize) -> (r: Supervisor)
        ensures
            r@ == initial(patience as nat),
    {
        Supervisor { mode: Mode::Idle, started: 0, patience, failure: None }
    }

    /// How many tasks were started.
    pub fn started(&self) -> (n: usize)
        ensures
            n == self@.started,
    {
        self.started
    }

    /// Whether every task that was started has been told to stop.
    pub fn is_done(&self) -> (r: bool)
        ensures
            r == (self@.mode == Mode::Done),
    {
        match self.mode {
            Mode::Done => true,
            _ => false,
        }
    }

    /// Takes the event `e` and says what is to be done next.
    pub fn handle(&mut self, e: Event) -> (r: Action)
        ensures
            valid(old(self)@),
            valid(final(self)@),
            (final(self)@, r) == next(old(self)@, e),
    {
        proof {
            use_type_invariant(&*self);
        }
        let started = self.started;
        let patience = self.patience;
        let (mode, started, failure, action) = match (self.mode, e) {
            (Mode::Idle, Event::Request) => {
                if started < usize::MAX {
                    (Mode::Launching, started, None, Action::Launch { task: started })
                } else {
                    (self.mode, started, self.failure, Action::Ignored)
                }
            },
            (Mode::Idle, Event::Shutdown) => {
                let (mode, action) = stopping(started, None);
                (mode, started, None, action)
            },
            (Mode::Launching, Event::Launched { ok }) => {
                if !ok {
                    let failure = Some(TaskError::StartFailed { task: started });
                    let (mode, action) = stopping(started, failure);
                    (mode, started, failure, action)
                } else if patience == 0 {
                    let failure = Some(TaskError::StartTimeout { task: started });
                    let (mode, action) = stopping(started + 1, failure);
                    (mode, started + 1, failure, action)
                } else {
                    (
                        Mode::Waiting { left: patience },
                        started + 1,
                        None,
                        Action::Probe { task: started },
                    )
                }
            },
            (Mode::Waiting { left }, Event::Marker { present }) => {
                let task = started - 1;
                if present {
                    (Mode::Idle, started, None, Action::Settled)
                } else if left > 1 {
                    (Mode::Waiting { left: left - 1 }, started, None, Action::Probe { task })
                } else {
                    let failure = Some(TaskError::StartTimeout { task });
                    let (mode, action) = stopping(started, failure);
                    (mode, started, failure, action)
                }
            },
            (Mode::Stopping { next }, Event::Stopped { ok }) => {
                let failure = if self.failure.is_none() && !ok {
                    Some(TaskError::StopFailed { task: next })
                } else {
                    self.failure
                };
                if next + 1 < started {
                    (
                        Mode::Stopping { next: next + 1 },
                        started,
                        failure,
                        Action::Stop { task: next + 1 },
                    )
                } else {
                    (Mode::Done, started, failure, Action::Finished { failure })
                }
            },
            _ => (self.mode, started, self.failure, Action::Ignored),
        };
        *self = Supervisor { mode, started, patience, failure };
        action
    }
}

/// Where the supervisor stands once the `started` tasks are to be stopped, and what it
/// asks for first.
fn stopping(started: usize, failure: Option<TaskError>) -> (r: (Mode, Action))
    ensures
        r.0 == (if started == 0 {
            Mode::Done
        } else {
            Mode::Stopping { next: 0 }
        }),
        r.1 == (if started == 0 {
            Action::Finished { failure }
        } else {
            Action::Stop { task: 0 }
        }),
{
    if started == 0 {
        (Mode::Done, Action::Finished { failure })
    } else {
        (Mode::Stopping { next: 0 }, Action::Stop { task: 0 })
    }
}

/// What is asked for as the outcomes `results` of the stops come in one after another,
/// from the state `s` on.
pub open spec fn drain(s: State, results: Seq<bool>) -> Seq<Action>
    decreases results.len(),
{
    if results.len() == 0 {
        Seq::empty()
    } else {
        seq![next(s, Event::Stopped { ok: results.first() }).1] + drain(
            next(s, Event::Stopped { ok: results.first() }).0,
            results.drop_first(),
        )
    }
}

/// The state after the outcomes `results` of the stops have come in, from `s` on.
pub open spec fn drained(s: State, results: Seq<bool>) -> State
    decreases results.len(),
{
    if results.len() == 0 {
        s
    } else {
        drained(next(s, Event::Stopped { ok: results.first() }).0, results.drop_first())
    }
}

/// The index of the first stop in `results` that went wrong, or the length of
/// `results` where all went well.
pub open spec fn first_failed(results: Seq<bool>) -> int
    decreases results.len(),
{
    if results.len() == 0 || !results.first() {
        0
    } else {
        1 + first_failed(results.drop_first())
    }
}

/// What is reported at the end: what had gone wrong before the stopping began, else
/// the first task from `from` on that could not be stopped, else nothing.
pub open spec fn verdict(failure: Option<TaskError>, from: usize, results: Seq<bool>) -> Option<
    TaskError,
> {
    if failure is Some {
        failure
    } else if first_failed(results) < results.len() {
        Some(TaskError::StopFailed { task: (from + first_failed(results)) as usize })
    } else {
        None
    }
}

/// Once the stopping has begun it goes through every task that was started: whatever
/// the outcome of each stop, the next task is told to stop, and after the last one the
/// first thing that went wrong is reported.
pub proof fn lemma_stop_reaches_every_task(s: State, from: usize, results: Seq<bool>)
    requires
        valid(s),
        s.mode == (Mode::Stopping { next: from }),
        results.len() == s.started - from,
    ensures
        drain(s, results).len() == results.len(),
        forall|i: int|
            0 <= i < results.len() - 1 ==> #[trigger] drain(s, results)[i] == (Action::Stop {
                task: (from + 1 + i) as usize,
            }),
        drain(s, results).last() == (Action::Finished {
            failure: verdict(s.failure, from, results),
        }),
        drained(s, results).mode == Mode::Done,
        drained(s, results).failure == verdict(s.failure, from, results),
    decreases results.len(),
{
    let (t, a) = next(s, Event::Stopped { ok: results.first() });
    let rest = results.drop_first();
    if results.len() == 1 {
        assert(drain(t, rest) =~= Seq::<Action>::empty());
        assert(first_failed(rest) == 0);
    } else {
        lemma_stop_reaches_every_task(t, (from + 1) as usize, rest);
        assert forall|i: int| 0 <= i < results.len() - 1 implies #[trigger] drain(s, results)[i]
            == (Action::Stop { task: (from + 1 + i) as usize }) by {
            if i > 0 {
                assert(drain(s, results)[i] == drain(t, rest)[i - 1]);
            }
        }
        assert(drain(s, results).last() == drain(t, rest).last());
    }
}

/// A task whose marker does not show when it is looked for the last time fails the
/// run, and no task that was started is left running: the first one is told to stop
/// at once and every other one after it, and the end reports the task that did not
/// come up, whatever the stops came to.
pub proof fn lemma_missing_marker_stops_all(s: State, results: Seq<bool>)
    requires
        valid(s),
        s.mode == (Mode::Waiting { left: 1 }),
        results.len() == s.started,
    ensures
        next(s, Event::Marker { present: false }).1 == (Action::Stop { task: 0 }),
        drain(next(s, Event::Marker { present: false }).0, results).len() == s.started,
        forall|i: int|
            0 <= i < s.started - 1 ==> #[trigger] drain(
                next(s, Event::Marker { present: false }).0,
                results,
            )[i] == (Action::Stop { task: (1 + i) as usize }),
        drain(next(s, Event::Marker { present: false }).0, results).last() == (Action::Finished {
            failure: Some(TaskError::StartTimeout { task: (s.started - 1) as usize }),
        }),
        drained(next(s, Event::Marker { present: false }).0, results).mode == Mode::Done,
{
    let t = next(s, Event::Marker { present: false }).0;
    lemma_stop_reaches_every_task(t, 0, results);
}

/// A task that cannot be started fails the run too, and every task that was started
/// before it is told to stop.
pub proof fn lemma_failed_start_stops_all(s: State, results: Seq<bool>)
    requires
        valid(s),
        s.mode == Mode::Launching,
        s.started >= 1,
        results.len() == s.started,
    ensures
        next(s, Event::Launched { ok: false }).1 == (Action::Stop { task: 0 }),
        drain(next(s, Event::Launched { ok: false }).0, results).len() == s.started,
        forall|i: int|
            0 <= i < s.started - 1 ==> #[trigger] drain(
                next(s, Event::Launched { ok: false }).0,
                results,
            )[i] == (Action::Stop { task: (1 + i) as usize }),
        drain(next(s, Event::Launched { ok: false }).0, results).last() == (Action::Finished {
            failure: Some(TaskError::StartFailed { task: s.started as usize }),
        }),
{
    let t = next(s, Event::Launched { ok: false }).0;
    lemma_stop_reaches_every_task(t, 0, results);
}

/// Every state that the supervisor comes to is one that it can be in.
pub proof fn lemma_next_valid(s: State, e: Event)
    requires
        valid(s),
    ensures
        valid(next(s, e).0),
{
}

} // verus!
