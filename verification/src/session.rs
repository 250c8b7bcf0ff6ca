//! Getting a session with a host that is being rebooted: connect again and again until
//! the host answers, then tune it.

use vstd::prelude::*;
use vstd::string::StringExecFns;
use crate::shell::{
    lenient, no_steps, plain, push_run, push_step, running, step_views, Command, Step, StepView,
};

verus! {

/// The seconds that a reboot is given to begin.
pub const GRACE_SECONDS: u64 = 5;

/// The seconds between two attempts to connect.
pub const RETRY_SECONDS: u64 = 10;

/// Where the attempt to get a session stands.
#[derive(Debug, Clone, Copy, PartialEq, Eq, Structural)]
pub enum Link {
    /// Nothing was done yet.
    Fresh,
    /// The host was told to reboot.
    Rebooting,
    /// The reboot is being given time to begin.
    Settling,
    /// A connection is being attempted.
    Dialing,
    /// The last attempt failed, and the next one is being waited for.
    Backoff,
    /// The host is connected and is being asked whether it answers.
    Probing,
    /// The host answers.
    Up,
}

/// What is to be done for the session next.
#[derive(Debug, Clone, Copy, PartialEq, Eq, Structural)]
pub enum LinkAction {
    /// Tell the host to reboot. Whether that works does not matter.
    Reboot,
    /// Wait this many seconds.
    Sleep { seconds: u64 },
    /// Try to connect.
    Connect,
    /// Run the command that shows that the host answers.
    Probe,
    /// The session stands.
    Ready,
}

/// The command that shows that the host answers.
pub open spec fn probe_text() -> Seq<char> {
    "whoami"@
}

/// The command that tells the host to reboot.
pub open spec fn reboot_text() -> Seq<char> {
    "sudo reboot"@
}

/// The command that tells the host to reboot. Its failure is no failure of the run.
pub fn reboot_command() -> (r: Command)
    ensures
        r@ == lenient(reboot_text()),
{
    Command::new(String::from_str("sudo reboot")).allow_error()
}

/// The command that shows that the host answers.
pub fn probe_command() -> (r: Command)
    ensures
        r@ == plain(probe_text()),
{
    Command::new(String::from_str("whoami"))
}

/// The state after what was asked for in the state `link` was done, with success or
/// not, and what is asked for then. The reboot is best effort; a failed connection and
/// a host that does not answer both lead to a pause and a new connection, without end.
pub open spec fn link_next(link: Link, ok: bool) -> (Link, LinkAction) {
    match link {
        Link::Fresh => (Link::Rebooting, LinkAction::Reboot),
        Link::Rebooting => (Link::Settling, LinkAction::Sleep { seconds: GRACE_SECONDS }),
        Link::Settling => (Link::Dialing, LinkAction::Connect),
        Link::Dialing => if ok {
            (Link::Probing, LinkAction::Probe)
        } else {
            (Link::Backoff, LinkAction::Sleep { seconds: RETRY_SECONDS })
        },
        Link::Backoff => (Link::Dialing, LinkAction::Connect),
        Link::Probing => if ok {
            (Link::Up, LinkAction::Ready)
        } else {
            (Link::Backoff, LinkAction::Sleep { seconds: RETRY_SECONDS })
        },
        Link::Up => (Link::Up, LinkAction::Ready),
    }
}

/// Says what is to be done for the session next, and where the attempt stands then.
/// `ok` tells how what was asked for last went; before anything was asked for it
/// does not matter.
pub fn advance(link: Link, ok: bool) -> (r: (Link, LinkAction))
    ensures
        r == link_next(link, ok),
{
    match link {
        Link::Fresh => (Link::Rebooting, LinkAction::Reboot),
        Link::Rebooting => (Link::Settling, LinkAction::Sleep { seconds: GRACE_SECONDS }),
        Link::Settling => (Link::Dialing, LinkAction::Connect),
        Link::Dialing => if ok {
            (Link::Probing, LinkAction::Probe)
        } else {
            (Link::Backoff, LinkAction::Sleep { seconds: RETRY_SECONDS })
        },
        Link::Backoff => (Link::Dialing, LinkAction::Connect),
        Link::Probing => if ok {
            (Link::Up, LinkAction::Ready)
        } else {
            (Link::Backoff, LinkAction::Sleep { seconds: RETRY_SECONDS })
        },
        Link::Up => (Link::Up, LinkAction::Ready),
    }
}

/// The session stands only after the host has answered: no failure leads there, and
/// nothing but an answer of a connected host does.
pub proof fn lemma_up_only_after_answer(link: Link, ok: bool)
    ensures
        link_next(link, ok).0 == Link::Up ==> link == Link::Up || (link == Link::Probing && ok),
        link_next(link, ok).1 == LinkAction::Ready <==> link_next(link, ok).0 == Link::Up,
{
}

/// However often connecting fails or the host does not answer, the next thing is a
/// pause of ten seconds and then another attempt to connect.
pub proof fn lemma_failure_retries(link: Link, ok: bool)
    requires
        (link == Link::Dialing || link == Link::Probing) && !ok,
    ensures
        link_next(link, ok).1 == (LinkAction::Sleep { seconds: RETRY_SECONDS }),
        link_next(link_next(link, ok).0, ok).1 == LinkAction::Connect,
        link_next(link_next(link, ok).0, ok).0 == Link::Dialing,
{
}

/// Whether the reboot worked or not, a pause of five seconds follows and then the
/// first attempt to connect.
pub proof fn lemma_reboot_is_best_effort(ok: bool, slept: bool)
    ensures
        link_next(Link::Rebooting, ok).1 == (LinkAction::Sleep { seconds: GRACE_SECONDS }),
        link_next(link_next(Link::Rebooting, ok).0, slept).1 == LinkAction::Connect,
{
}

/// The tuning that a host gets once it answers: its system is written down, its
/// processors are set to run at full speed, its processors are listed, and the kernel
/// is told to print less.
pub open spec fn tuning_plan() -> Seq<StepView> {
    seq![
        StepView::SysInfo,
        running("sudo LD_LIBRARY_PATH=/usr/lib64/ cpupower frequency-set -g performance"@),
        running("lscpu"@),
        StepView::PrintkLevel { level: 5 },
    ]
}

/// Plans the tuning of a host that answers. Each step may be done any number of
/// times.
pub fn tuning_steps() -> (r: Vec<Step>)
    ensures
        step_views(r@) == tuning_plan(),
{
    let mut steps = no_steps();
    push_step(&mut steps, Step::SysInfo);
    push_run(
        &mut steps,
        String::from_str("sudo LD_LIBRARY_PATH=/usr/lib64/ cpupower frequency-set -g performance"),
    );
    push_run(&mut steps, String::from_str("lscpu"));
    push_step(&mut steps, Step::PrintkLevel { level: 5 });
    steps
}

} // verus!
