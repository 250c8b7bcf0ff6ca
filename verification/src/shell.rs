//! Commands for the remote host, as plain values that a transport can carry out.

use vstd::prelude::*;
use vstd::string::StringExecFns;

verus! {

/// One command line for the remote host and how it is to be run.
#[derive(Debug, Clone, PartialEq, Eq)]
pub struct Command {
    /// The command line.
    pub text: String,
    /// The directory to change to first, if any.
    pub cwd: Option<String>,
    /// Whether the command needs bash.
    pub use_bash: bool,
    /// Whether an exit code other than zero counts as success too.
    pub allow_error: bool,
}

/// A command as plain values.
pub struct CommandView {
    pub text: Seq<char>,
    pub cwd: Option<Seq<char>>,
    pub use_bash: bool,
    pub allow_error: bool,
}

impl View for Command {
    type V = CommandView;

    open spec fn view(&self) -> CommandView {
        CommandView {
            text: self.text@,
            cwd: match self.cwd {
                Some(d) => Some(d@),
                None => None,
            },
            use_bash: self.use_bash,
            allow_error: self.allow_error,
        }
    }
}

/// The command `text`, run where the session stands, failing on a nonzero exit code.
pub open spec fn plain(text: Seq<char>) -> CommandView {
    CommandView { text, cwd: None, use_bash: false, allow_error: false }
}

/// The command `text`, run in the directory `dir`.
pub open spec fn in_dir(text: Seq<char>, dir: Seq<char>) -> CommandView {
    CommandView { text, cwd: Some(dir), use_bash: false, allow_error: false }
}

/// The command `text`, whose exit code does not matter.
pub open spec fn lenient(text: Seq<char>) -> CommandView {
    CommandView { text, cwd: None, use_bash: false, allow_error: true }
}

impl Command {
    /// The command `text` with no directory and no flag set.
    pub fn new(text: String) -> (r: Command)
        ensures
            r@ == plain(text@),
    {
        Command { text, cwd: None, use_bash: false, allow_error: false }
    }

    /// The same command, run in `dir`.
    pub fn cwd(self, dir: &str) -> (r: Command)
        ensures
            r@ == (CommandView { cwd: Some(dir@), ..self@ }),
    {
        Command {
            text: self.text,
            cwd: Some(String::from_str(dir)),
            use_bash: self.use_bash,
            allow_error: self.allow_error,
        }
    }

    /// The same command, run by bash.
    pub fn use_bash(self) -> (r: Command)
        ensures
            r@ == (CommandView { use_bash: true, ..self@ }),
    {
        Command { text: self.text, cwd: self.cwd, use_bash: true, allow_error: self.allow_error }
    }

    /// The same command, allowed to exit with a nonzero code.
    pub fn allow_error(self) -> (r: Command)
        ensures
            r@ == (CommandView { allow_error: true, ..self@ }),
    {
        Command { text: self.text, cwd: self.cwd, use_bash: self.use_bash, allow_error: true }
    }
}

/// The path of `name` in the directory `dir`.
pub open spec fn path(dir: Seq<char>, name: Seq<char>) -> Seq<char> {
    dir + seq!['/'] + name
}

/// Writes the path of `name` in the directory `dir`.
pub fn join_path(dir: &str, name: &str) -> (r: String)
    ensures
        r@ == path(dir@, name@),
{
    let mut r = String::from_str(dir);
    r.push('/');
    r.append(name);
    r
}

/// Whether `c` is a letter or a digit of ASCII.
pub open spec fn is_ascii_alphanumeric(c: char) -> bool {
    ('0' <= c <= '9') || ('a' <= c <= 'z') || ('A' <= c <= 'Z')
}

/// `s` with a backslash before every character that is not a letter or a digit of ASCII.
pub open spec fn escaped(s: Seq<char>) -> Seq<char>
    decreases s.len(),
{
    if s.len() == 0 {
        Seq::empty()
    } else if is_ascii_alphanumeric(s.last()) {
        escaped(s.drop_last()).push(s.last())
    } else {
        escaped(s.drop_last()).push('\\').push(s.last())
    }
}

/// Calls `spurs_util::escape_for_bash`. Taken on trust of it: it copies `s` character
/// by character and puts a backslash before each one that is not a letter or a digit
/// of ASCII.
#[verifier::external_body]
pub(crate) fn escape_for_bash(s: &str) -> (r: String)
    ensures
        r@ == escaped(s@),
{
    spurs_util::escape_for_bash(s)
}

/// A command that is issued again and again in the background while the run lasts.
#[derive(Debug, Clone, PartialEq, Eq)]
pub struct Task {
    /// What the task is called.
    pub name: String,
    /// The seconds between two issues of the command.
    pub period: u64,
    /// The command line.
    pub cmd: String,
    /// The file that is there and not empty once the task has produced something.
    pub marker: String,
}

/// A background task as plain values.
pub struct TaskView {
    pub name: Seq<char>,
    pub period: u64,
    pub cmd: Seq<char>,
    pub marker: Seq<char>,
}

impl View for Task {
    type V = TaskView;

    open spec fn view(&self) -> TaskView {
        TaskView { name: self.name@, period: self.period, cmd: self.cmd@, marker: self.marker@ }
    }
}

/// A step of a plan: what the transport is asked to do next.
#[derive(Debug, Clone, PartialEq, Eq)]
pub enum Step {
    /// Run the command and wait for it; its failure ends the run.
    Run(Command),
    /// Start the command and go on without waiting for it.
    Spawn(Command),
    /// Start the background task and wait until its marker shows.
    Watch(Task),
    /// Switch transparent huge pages on or off.
    HugePages { on: bool },
    /// Switch address space randomisation on or off.
    Aslr { on: bool },
    /// Write down what hardware and software the host has.
    SysInfo,
    /// Set how much the kernel prints to the console.
    PrintkLevel { level: usize },
}

/// A step as plain values.
pub enum StepView {
    Run(CommandView),
    Spawn(CommandView),
    Watch(TaskView),
    HugePages { on: bool },
    Aslr { on: bool },
    SysInfo,
    PrintkLevel { level: usize },
}

impl View for Step {
    type V = StepView;

    open spec fn view(&self) -> StepView {
        match self {
            Step::Run(c) => StepView::Run(c@),
            Step::Spawn(c) => StepView::Spawn(c@),
            Step::Watch(t) => StepView::Watch(t@),
            Step::HugePages { on } => StepView::HugePages { on: *on },
            Step::Aslr { on } => StepView::Aslr { on: *on },
            Step::SysInfo => StepView::SysInfo,
            Step::PrintkLevel { level } => StepView::PrintkLevel { level: *level },
        }
    }
}

/// The steps that a list holds.
pub open spec fn step_views(steps: Seq<Step>) -> Seq<StepView> {
    steps.map_values(|s: Step| s@)
}

/// Running `text` where the session stands.
pub open spec fn running(text: Seq<char>) -> StepView {
    StepView::Run(plain(text))
}

/// Running `text` in the directory `dir`.
pub open spec fn running_in(text: Seq<char>, dir: Seq<char>) -> StepView {
    StepView::Run(in_dir(text, dir))
}

/// Starting `text` without waiting for it.
pub open spec fn spawning(text: Seq<char>) -> StepView {
    StepView::Spawn(plain(text))
}

/// Starting the background task `name`, which issues `cmd` every `period` seconds and
/// has produced something once `marker` shows.
pub open spec fn watching(name: Seq<char>, period: u64, cmd: Seq<char>, marker: Seq<char>) -> StepView {
    StepView::Watch(TaskView { name, period, cmd, marker })
}

/// Appends the step that runs `text`.
pub fn push_run(steps: &mut Vec<Step>, text: String)
    ensures
        step_views(final(steps)@) == step_views(old(steps)@).push(running(text@)),
{
    steps.push(Step::Run(Command::new(text)));
}

/// Appends the step that runs `text` in `dir`.
pub fn push_run_in(steps: &mut Vec<Step>, text: String, dir: &str)
    ensures
        step_views(final(steps)@) == step_views(old(steps)@).push(running_in(text@, dir@)),
{
    steps.push(Step::Run(Command::new(text).cwd(dir)));
}

/// Appends the step that starts `text`.
pub fn push_spawn(steps: &mut Vec<Step>, text: String)
    ensures
        step_views(final(steps)@) == step_views(old(steps)@).push(spawning(text@)),
{
    steps.push(Step::Spawn(Command::new(text)));
}

/// Appends the step that starts a background task.
pub fn push_watch(steps: &mut Vec<Step>, name: &str, period: u64, cmd: String, marker: String)
    ensures
        step_views(final(steps)@) == step_views(old(steps)@).push(
            watching(name@, period, cmd@, marker@),
        ),
{
    steps.push(Step::Watch(Task { name: String::from_str(name), period, cmd, marker }));
}

/// Appends a step that is no command.
pub fn push_step(steps: &mut Vec<Step>, step: Step)
    ensures
        step_views(final(steps)@) == step_views(old(steps)@).push(step@),
{
    steps.push(step);
}

/// Appends every step of `more`, in order.
pub fn push_all(steps: &mut Vec<Step>, more: Vec<Step>)
    ensures
        step_views(final(steps)@) == step_views(old(steps)@) + step_views(more@),
{
    let mut more = more;
    steps.append(&mut more);
}

/// A list without steps.
pub fn no_steps() -> (r: Vec<Step>)
    ensures
        step_views(r@) == Seq::<StepView>::empty(),
{
    let r: Vec<Step> = Vec::new();
    r
}

} // verus!
