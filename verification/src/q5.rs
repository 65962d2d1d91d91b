//! What one and the same wait returns to a process with a child, and to one
//! without.
//!
//! Both sides of the fork wait for any child at all. The parent has one, so
//! its wait blocks until that child is gone and returns its status. The
//! child has none, so its wait returns an error at once. Each side says what
//! its wait returned, a status or an error, in one line.

use vstd::prelude::*;
use crate::call::{on_side, Action, Reply, Role, Text};
use crate::run::{issued, stage_at_action, Course, Stage};

verus! {

/// What a wait returned.
#[derive(Clone, Copy, Debug, PartialEq, Eq)]
pub enum Outcome {
    Status(nix::sys::wait::WaitStatus),
    Error(nix::errno::Errno),
}

/// The positions of the wait drill. Each is named after the action that is
/// pending there.
#[derive(Clone, Copy, Debug, PartialEq, Eq)]
pub enum Q5At {
    Start,
    Forking,
    ChildAsks,
    ChildSays { pid: i32 },
    ChildWaits { pid: i32 },
    ChildReports { pid: i32, outcome: Outcome },
    ChildFinished { pid: i32, outcome: Outcome },
    ParentWaits { child: i32 },
    ParentReports { child: i32, outcome: Outcome },
    ParentFinished { child: i32, outcome: Outcome },
    ForkFailed,
    ForkExit,
}

/// The line in which a side says what its wait returned.
pub open spec fn report(role: Role, outcome: Outcome) -> Text {
    match outcome {
        Outcome::Status(status) => Text::Waited { role, status },
        Outcome::Error(errno) => Text::WaitError { role, errno },
    }
}

/// Whether a reply is that outcome of a wait.
pub open spec fn returned(reply: Reply, outcome: Outcome) -> bool {
    match outcome {
        Outcome::Status(status) => reply == Reply::Reaped(status),
        Outcome::Error(errno) => reply == Reply::NotReaped(errno),
    }
}

/// What the child does up to its wait: it says who it is and waits for any
/// child.
pub open spec fn child_opening(pid: i32) -> Seq<Action> {
    seq![Action::Fork, Action::AskPid, Action::Print(Text::OwnPid { pid }), Action::WaitAny]
}

/// All that the child does.
pub open spec fn child_script(pid: i32, outcome: Outcome) -> Seq<Action> {
    child_opening(pid) + seq![Action::Print(report(Role::Child, outcome)), Action::Finish]
}

/// What the parent does up to its wait: it waits for any child, as the
/// child does.
pub open spec fn parent_opening() -> Seq<Action> {
    seq![Action::Fork, Action::WaitAny]
}

/// All that the parent does.
pub open spec fn parent_script(outcome: Outcome) -> Seq<Action> {
    parent_opening() + seq![Action::Print(report(Role::Parent, outcome)), Action::Finish]
}

/// What the forking process does when the fork fails.
pub open spec fn fork_failed_script() -> Seq<Action> {
    seq![Action::Fork, Action::Warn(Text::ForkFailed), Action::Exit { code: 1 }]
}

impl Course for Q5At {
    open spec fn start() -> Self {
        Q5At::Start
    }

    open spec fn path(self) -> Seq<Action> {
        match self {
            Q5At::Start => Seq::empty(),
            Q5At::Forking => fork_failed_script().take(1),
            Q5At::ChildAsks => seq![Action::Fork, Action::AskPid],
            Q5At::ChildSays { pid } => child_opening(pid).take(3),
            Q5At::ChildWaits { pid } => child_opening(pid),
            Q5At::ChildReports { pid, outcome } => child_script(pid, outcome).take(5),
            Q5At::ChildFinished { pid, outcome } => child_script(pid, outcome),
            Q5At::ParentWaits { child } => parent_opening(),
            Q5At::ParentReports { child, outcome } => parent_script(outcome).take(3),
            Q5At::ParentFinished { child, outcome } => parent_script(outcome),
            Q5At::ForkFailed => fork_failed_script().take(2),
            Q5At::ForkExit => fork_failed_script(),
        }
    }

    open spec fn next(self, reply: Reply) -> Result<Self, Text> {
        match self {
            Q5At::Start => Ok(Q5At::Forking),
            Q5At::Forking => match reply {
                Reply::InChild => Ok(Q5At::ChildAsks),
                Reply::InParent { child } => Ok(Q5At::ParentWaits { child }),
                _ => Ok(Q5At::ForkFailed),
            },
            Q5At::ChildAsks => match reply {
                Reply::Pid { pid } => Ok(Q5At::ChildSays { pid }),
                _ => Err(Text::PidFailed),
            },
            Q5At::ChildSays { pid } => Ok(Q5At::ChildWaits { pid }),
            Q5At::ChildWaits { pid } => match reply {
                Reply::Reaped(status) => Ok(
                    Q5At::ChildReports { pid, outcome: Outcome::Status(status) },
                ),
                Reply::NotReaped(errno) => Ok(
                    Q5At::ChildReports { pid, outcome: Outcome::Error(errno) },
                ),
                _ => Err(Text::WaitFailed),
            },
            Q5At::ChildReports { pid, outcome } => Ok(Q5At::ChildFinished { pid, outcome }),
            Q5At::ChildFinished { .. } => Ok(self),
            Q5At::ParentWaits { child } => match reply {
                Reply::Reaped(status) => Ok(
                    Q5At::ParentReports { child, outcome: Outcome::Status(status) },
                ),
                Reply::NotReaped(errno) => Ok(
                    Q5At::ParentReports { child, outcome: Outcome::Error(errno) },
                ),
                _ => Err(Text::WaitFailed),
            },
            Q5At::ParentReports { child, outcome } => Ok(Q5At::ParentFinished { child, outcome }),
            Q5At::ParentFinished { .. } => Ok(self),
            Q5At::ForkFailed => Ok(Q5At::ForkExit),
            Q5At::ForkExit => Ok(self),
        }
    }

    open spec fn told(self, replies: Seq<Reply>) -> bool {
        match self {
            Q5At::Start => true,
            Q5At::Forking => true,
            Q5At::ChildAsks => replies[1] == Reply::InChild,
            Q5At::ChildSays { pid } | Q5At::ChildWaits { pid } => {
                &&& replies[1] == Reply::InChild
                &&& replies[2] == (Reply::Pid { pid })
            },
            Q5At::ChildReports { pid, outcome } | Q5At::ChildFinished { pid, outcome } => {
                &&& replies[1] == Reply::InChild
                &&& replies[2] == (Reply::Pid { pid })
                &&& returned(replies[4], outcome)
            },
            Q5At::ParentWaits { child } => replies[1] == (Reply::InParent { child }),
            Q5At::ParentReports { child, outcome } | Q5At::ParentFinished { child, outcome } => {
                &&& replies[1] == (Reply::InParent { child })
                &&& returned(replies[2], outcome)
            },
            Q5At::ForkFailed | Q5At::ForkExit => {
                &&& replies[1] !is InChild
                &&& replies[1] !is InParent
            },
        }
    }

    proof fn path_from_start() {
    }

    proof fn path_grows(self, reply: Reply) {
    }

    proof fn told_reads_the_path(self, one: Seq<Reply>, other: Seq<Reply>) {
    }

    proof fn told_grows(self, replies: Seq<Reply>, reply: Reply) {
    }
}

/// The line in which a side says what its wait returned.
pub fn report_of(role: Role, outcome: Outcome) -> (text: Text)
    ensures
        text == report(role, outcome),
{
    match outcome {
        Outcome::Status(status) => Text::Waited { role, status },
        Outcome::Error(errno) => Text::WaitError { role, errno },
    }
}

/// One turn of the wait drill.
///
/// The parent asks for the same wait as the child, the one for any child. It
/// keeps the identifier that the fork reported and asks nothing by it. A
/// wait that returns a status and a wait that returns an error both lead
/// on, each to its own line. A wait that reports neither aborts the process,
/// and so does a request for the process identifier that does not report
/// one. A fork that reports anything but a side has failed: the process
/// warns and exits with status 1.
pub fn q5(stage: Stage<Q5At>, reply: Reply) -> (turn: (Stage<Q5At>, Action))
    ensures
        turn == stage.turn(reply),
{
    if let Some(text) = stage.aborted {
        return (stage, Action::Abort(text));
    }
    let step: Result<(Q5At, Action), Text> = match stage.at {
        Q5At::Start => Ok((Q5At::Forking, Action::Fork)),
        Q5At::Forking => match reply {
            Reply::InChild => Ok((Q5At::ChildAsks, Action::AskPid)),
            Reply::InParent { child } => Ok((Q5At::ParentWaits { child }, Action::WaitAny)),
            _ => Ok((Q5At::ForkFailed, Action::Warn(Text::ForkFailed))),
        },
        Q5At::ChildAsks => match reply {
            Reply::Pid { pid } => Ok(
                (Q5At::ChildSays { pid }, Action::Print(Text::OwnPid { pid })),
            ),
            _ => Err(Text::PidFailed),
        },
        Q5At::ChildSays { pid } => Ok((Q5At::ChildWaits { pid }, Action::WaitAny)),
        Q5At::ChildWaits { pid } => match reply {
            Reply::Reaped(status) => {
                let outcome = Outcome::Status(status);
                Ok(
                    (
                        Q5At::ChildReports { pid, outcome },
                        Action::Print(report_of(Role::Child, outcome)),
                    ),
                )
            },
            Reply::NotReaped(errno) => {
                let outcome = Outcome::Error(errno);
                Ok(
                    (
                        Q5At::ChildReports { pid, outcome },
                        Action::Print(report_of(Role::Child, outcome)),
                    ),
                )
            },
            _ => Err(Text::WaitFailed),
        },
        Q5At::ChildReports { pid, outcome } => Ok(
            (Q5At::ChildFinished { pid, outcome }, Action::Finish),
        ),
        Q5At::ChildFinished { .. } => Ok((stage.at, Action::Finish)),
        Q5At::ParentWaits { child } => match reply {
            Reply::Reaped(status) => {
                let outcome = Outcome::Status(status);
                Ok(
                    (
                        Q5At::ParentReports { child, outcome },
                        Action::Print(report_of(Role::Parent, outcome)),
                    ),
                )
            },
            Reply::NotReaped(errno) => {
                let outcome = Outcome::Error(errno);
                Ok(
                    (
                        Q5At::ParentReports { child, outcome },
                        Action::Print(report_of(Role::Parent, outcome)),
                    ),
                )
            },
            _ => Err(Text::WaitFailed),
        },
        Q5At::ParentReports { child, outcome } => Ok(
            (Q5At::ParentFinished { child, outcome }, Action::Finish),
        ),
        Q5At::ParentFinished { .. } => Ok((stage.at, Action::Finish)),
        Q5At::ForkFailed => Ok((Q5At::ForkExit, Action::Exit { code: 1 })),
        Q5At::ForkExit => Ok((stage.at, Action::Exit { code: 1 })),
    };
    stage.settle(Ghost(reply), step)
}

/// A side says what its wait returned, and says it as it was: the line that
/// shows a status follows a wait that returned that status, the line that
/// shows an error follows a wait that returned that error, and the line
/// names the side that waited. On either side the wait was the one for any
/// child: no process of the drill waits for a child by its identifier.
pub proof fn a_wait_is_reported_as_it_returned(replies: Seq<Reply>, i: int)
    requires
        0 <= i < issued::<Q5At>(replies).len(),
    ensures
        match issued::<Q5At>(replies)[i] {
            Action::Print(Text::Waited { role, status }) => {
                &&& i >= 1
                &&& replies[i] == Reply::Reaped(status)
                &&& waited_as(replies, i - 1, role)
            },
            Action::Print(Text::WaitError { role, errno }) => {
                &&& i >= 1
                &&& replies[i] == Reply::NotReaped(errno)
                &&& waited_as(replies, i - 1, role)
            },
            _ => true,
        },
{
    let stage = stage_at_action::<Q5At>(replies, i);
}

/// Whether the action at index `k` of a run is the wait of that side: the
/// wait for any child, asked for by the process that the fork put on that
/// side.
pub open spec fn waited_as(replies: Seq<Reply>, k: int, role: Role) -> bool {
    &&& on_side(replies[1], role)
    &&& issued::<Q5At>(replies)[k] == Action::WaitAny
}

/// Whatever the operating system replies, no process of the drill waits for
/// a child by its identifier, and each waits once at most: the parent right
/// after the fork, the child once it has said who it is.
pub proof fn both_sides_ask_for_the_same_wait(replies: Seq<Reply>, i: int)
    requires
        0 <= i < issued::<Q5At>(replies).len(),
    ensures
        issued::<Q5At>(replies)[i] !is WaitFor,
        issued::<Q5At>(replies)[i] is WaitAny ==> if replies[1] == Reply::InChild {
            i == 3
        } else {
            i == 1 && replies[1] is InParent
        },
{
    let stage = stage_at_action::<Q5At>(replies, i);
}

/// Whether an action is a line that says what a wait returned.
pub open spec fn is_report(action: Action) -> bool {
    action matches Action::Print(text) && (text is Waited || text is WaitError)
}

/// A run has at most one line that says what a wait returned, and a run that
/// finishes has one, right before it finishes: each side says one of the two
/// things and never both.
pub proof fn a_side_reports_one_outcome(replies: Seq<Reply>, i: int, j: int)
    requires
        0 <= i < issued::<Q5At>(replies).len(),
        0 <= j < issued::<Q5At>(replies).len(),
    ensures
        is_report(issued::<Q5At>(replies)[i]) && is_report(issued::<Q5At>(replies)[j]) ==> i == j,
        issued::<Q5At>(replies)[i] == Action::Finish ==> i >= 1 && is_report(
            issued::<Q5At>(replies)[i - 1],
        ),
{
    if is_report(issued::<Q5At>(replies)[i]) && is_report(issued::<Q5At>(replies)[j]) {
        a_report_has_its_place(replies, i);
        a_report_has_its_place(replies, j);
    }
    if issued::<Q5At>(replies)[i] == Action::Finish {
        let stage = stage_at_action::<Q5At>(replies, i);
        assert(stage.script()[i - 1] == issued::<Q5At>(replies)[i - 1]);
    }
}

/// The line that says what a wait returned is the fifth action of the child
/// and the third of the parent.
proof fn a_report_has_its_place(replies: Seq<Reply>, i: int)
    requires
        0 <= i < issued::<Q5At>(replies).len(),
        is_report(issued::<Q5At>(replies)[i]),
    ensures
        i == if replies[1] == Reply::InChild {
            4int
        } else {
            2int
        },
{
    let stage = stage_at_action::<Q5At>(replies, i);
}

} // verus!
