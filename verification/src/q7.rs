//! A child that closes its standard output and goes on writing to it.
//!
//! The child says a line, closes descriptor 1, says another line and writes
//! a third straight to descriptor 1. Neither can arrive anywhere, and the
//! failure of the write is expected: nothing is made of it. Standard error
//! is a descriptor of its own and still open, which a last line shows. The
//! parent waits for the child and says a line of its own: its standard
//! output was never closed.

use vstd::prelude::*;
use crate::call::{Action, Reply, Text};
use crate::descriptors::{standard_streams, table_at};
use crate::run::{issued, stage_at_action, turn_after, Course, Stage};

verus! {

/// The descriptor of standard output.
pub const STDOUT: i32 = 1;

/// The descriptor of standard error.
pub const STDERR: i32 = 2;

/// The positions of the closed-stream drill. Each is named after the action
/// that is pending there.
#[derive(Clone, Copy, Debug, PartialEq, Eq)]
pub enum Q7At {
    Start,
    Forking,
    ChildSpeaks,
    ChildCloses,
    ChildSpeaksAgain,
    ChildWrites,
    ChildWarns,
    ChildFinished,
    ParentWaits { child: i32 },
    ParentSpeaks { child: i32 },
    ParentFinished { child: i32 },
    ForkFailed,
    ForkExit,
}

/// All that the child does: a line, the closing of standard output, a line
/// and a write that go nowhere, and a line on standard error.
pub open spec fn child_script() -> Seq<Action> {
    seq![
        Action::Fork,
        Action::Print(Text::BeforeClosing),
        Action::Close { fd: STDOUT },
        Action::Print(Text::AfterClosing),
        Action::Write { fd: STDOUT, text: Text::DirectWrite },
        Action::Warn(Text::StderrStillOpen),
        Action::Finish,
    ]
}

/// All that the parent does: it waits for the child and says a line.
pub open spec fn parent_script(child: i32) -> Seq<Action> {
    seq![
        Action::Fork,
        Action::WaitFor { child },
        Action::Print(Text::ParentStillPrints),
        Action::Finish,
    ]
}

/// What the forking process does when the fork fails.
pub open spec fn fork_failed_script() -> Seq<Action> {
    seq![Action::Fork, Action::Warn(Text::ForkFailed), Action::Exit { code: 1 }]
}

impl Course for Q7At {
    open spec fn start() -> Self {
        Q7At::Start
    }

    open spec fn path(self) -> Seq<Action> {
        match self {
            Q7At::Start => Seq::empty(),
            Q7At::Forking => fork_failed_script().take(1),
            Q7At::ChildSpeaks => child_script().take(2),
            Q7At::ChildCloses => child_script().take(3),
            Q7At::ChildSpeaksAgain => child_script().take(4),
            Q7At::ChildWrites => child_script().take(5),
            Q7At::ChildWarns => child_script().take(6),
            Q7At::ChildFinished => child_script(),
            Q7At::ParentWaits { child } => parent_script(child).take(2),
            Q7At::ParentSpeaks { child } => parent_script(child).take(3),
            Q7At::ParentFinished { child } => parent_script(child),
            Q7At::ForkFailed => fork_failed_script().take(2),
            Q7At::ForkExit => fork_failed_script(),
        }
    }

    open spec fn next(self, reply: Reply) -> Result<Self, Text> {
        match self {
            Q7At::Start => Ok(Q7At::Forking),
            Q7At::Forking => match reply {
                Reply::InChild => Ok(Q7At::ChildSpeaks),
                Reply::InParent { child } => Ok(Q7At::ParentWaits { child }),
                _ => Ok(Q7At::ForkFailed),
            },
            Q7At::ChildSpeaks => Ok(Q7At::ChildCloses),
            Q7At::ChildCloses => match reply {
                Reply::Done => Ok(Q7At::ChildSpeaksAgain),
                _ => Err(Text::CloseFailed),
            },
            Q7At::ChildSpeaksAgain => Ok(Q7At::ChildWrites),
            Q7At::ChildWrites => Ok(Q7At::ChildWarns),
            Q7At::ChildWarns => Ok(Q7At::ChildFinished),
            Q7At::ChildFinished => Ok(self),
            Q7At::ParentWaits { child } => match reply {
                Reply::Reaped(_) => Ok(Q7At::ParentSpeaks { child }),
                _ => Err(Text::WaitFailed),
            },
            Q7At::ParentSpeaks { child } => Ok(Q7At::ParentFinished { child }),
            Q7At::ParentFinished { .. } => Ok(self),
            Q7At::ForkFailed => Ok(Q7At::ForkExit),
            Q7At::ForkExit => Ok(self),
        }
    }

    open spec fn told(self, replies: Seq<Reply>) -> bool {
        match self {
            Q7At::Start => true,
            Q7At::Forking => true,
            Q7At::ChildSpeaks | Q7At::ChildCloses => replies[1] == Reply::InChild,
            Q7At::ChildSpeaksAgain
            | Q7At::ChildWrites
            | Q7At::ChildWarns
            | Q7At::ChildFinished => {
                &&& replies[1] == Reply::InChild
                &&& replies[3] == Reply::Done
            },
            Q7At::ParentWaits { child } => replies[1] == (Reply::InParent { child }),
            Q7At::ParentSpeaks { child } | Q7At::ParentFinished { child } => {
                &&& replies[1] == (Reply::InParent { child })
                &&& replies[2] is Reaped
            },
            Q7At::ForkFailed | Q7At::ForkExit => {
                &&& replies[1] !is InChild
                &&& replies[1] !is InParent
            },
        }
    }

    proof fn path_from_start() {
    }

    proof fn path_grows(self, reply: Reply) {
    }

    proof fn told_reads_the_path(self, one: Seq<Reply>, other: Seq<Reply>) {
    }

    proof fn told_grows(self, replies: Seq<Reply>, reply: Reply) {
    }
}

/// One turn of the closed-stream drill.
///
/// What the write to the closed descriptor reports is not looked at: the
/// child goes on to its line on standard error whatever it is. A close that
/// does not report `Done` aborts the child, and a wait that does not report
/// a status aborts the parent. A fork that reports anything but a side has
/// failed: the process warns and exits with status 1.
pub fn q7(stage: Stage<Q7At>, reply: Reply) -> (turn: (Stage<Q7At>, Action))
    ensures
        turn == stage.turn(reply),
{
    if let Some(text) = stage.aborted {
        return (stage, Action::Abort(text));
    }
    let step: Result<(Q7At, Action), Text> = match stage.at {
        Q7At::Start => Ok((Q7At::Forking, Action::Fork)),
        Q7At::Forking => match reply {
            Reply::InChild => Ok((Q7At::ChildSpeaks, Action::Print(Text::BeforeClosing))),
            Reply::InParent { child } => Ok(
                (Q7At::ParentWaits { child }, Action::WaitFor { child }),
            ),
            _ => Ok((Q7At::ForkFailed, Action::Warn(Text::ForkFailed))),
        },
        Q7At::ChildSpeaks => Ok((Q7At::ChildCloses, Action::Close { fd: STDOUT })),
        Q7At::ChildCloses => match reply {
            Reply::Done => Ok((Q7At::ChildSpeaksAgain, Action::Print(Text::AfterClosing))),
            _ => Err(Text::CloseFailed),
        },
        Q7At::ChildSpeaksAgain => Ok(
            (Q7At::ChildWrites, Action::Write { fd: STDOUT, text: Text::DirectWrite }),
        ),
        Q7At::ChildWrites => Ok((Q7At::ChildWarns, Action::Warn(Text::StderrStillOpen))),
        Q7At::ChildWarns => Ok((Q7At::ChildFinished, Action::Finish)),
        Q7At::ChildFinished => Ok((stage.at, Action::Finish)),
        Q7At::ParentWaits { child } => match reply {
            Reply::Reaped(_) => Ok(
                (Q7At::ParentSpeaks { child }, Action::Print(Text::ParentStillPrints)),
            ),
            _ => Err(Text::WaitFailed),
        },
        Q7At::ParentSpeaks { child } => Ok((Q7At::ParentFinished { child }, Action::Finish)),
        Q7At::ParentFinished { .. } => Ok((stage.at, Action::Finish)),
        Q7At::ForkFailed => Ok((Q7At::ForkExit, Action::Exit { code: 1 })),
        Q7At::ForkExit => Ok((stage.at, Action::Exit { code: 1 })),
    };
    stage.settle(Ghost(reply), step)
}

/// In a process that began with its three standard streams, standard output
/// is open when the child says its first line and when the parent says its
/// own, and closed when the child says its second line and when it writes to
/// descriptor 1. Standard error is open whenever a process warns.
pub proof fn only_the_first_line_has_somewhere_to_go(replies: Seq<Reply>, i: int)
    requires
        0 <= i < issued::<Q7At>(replies).len(),
    ensures
        ({
            let open = table_at(standard_streams(), issued::<Q7At>(replies), replies, i as nat).dom();
            match issued::<Q7At>(replies)[i] {
                Action::Print(Text::BeforeClosing) => open.contains(STDOUT as int),
                Action::Print(Text::ParentStillPrints) => open.contains(STDOUT as int),
                Action::Print(_) => !open.contains(STDOUT as int),
                Action::Write { fd, .. } => fd == STDOUT && !open.contains(STDOUT as int),
                Action::Warn(_) => open.contains(STDERR as int),
                _ => true,
            }
        }),
{
    let stage = stage_at_action::<Q7At>(replies, i);
    let run = issued::<Q7At>(replies);
    let start = standard_streams();
    if stage.aborted is None {
        match stage.at {
            Q7At::ChildSpeaks => {
                assert(table_at(start, run, replies, 1) == start) by {
                    reveal_with_fuel(table_at, 2);
                }
            },
            Q7At::ChildSpeaksAgain | Q7At::ChildWrites => {
                assert(table_at(start, run, replies, 3) == start.remove(STDOUT as int)) by {
                    reveal_with_fuel(table_at, 4);
                }
                assert(table_at(start, run, replies, i as nat) == start.remove(STDOUT as int)) by {
                    reveal_with_fuel(table_at, 2);
                }
            },
            Q7At::ChildWarns => {
                assert(table_at(start, run, replies, 3) == start.remove(STDOUT as int)) by {
                    reveal_with_fuel(table_at, 4);
                }
                assert(table_at(start, run, replies, 5) == start.remove(STDOUT as int)) by {
                    reveal_with_fuel(table_at, 3);
                }
            },
            Q7At::ParentSpeaks { child } => {
                assert(table_at(start, run, replies, 2) == start) by {
                    reveal_with_fuel(table_at, 3);
                }
            },
            Q7At::ForkFailed => {
                assert(table_at(start, run, replies, 1) == start) by {
                    reveal_with_fuel(table_at, 2);
                }
            },
            _ => {},
        }
    }
}

/// Whatever the write to the closed descriptor reports, the child goes on
/// to its line on standard error.
pub proof fn the_child_warns_whatever_the_write_reports(replies: Seq<Reply>, i: int)
    requires
        0 <= i < issued::<Q7At>(replies).len(),
        issued::<Q7At>(replies)[i] is Write,
        i + 1 < replies.len(),
    ensures
        i + 1 < issued::<Q7At>(replies).len(),
        issued::<Q7At>(replies)[i + 1] == Action::Warn(Text::StderrStillOpen),
{
    let stage = stage_at_action::<Q7At>(replies, i);
    turn_after::<Q7At>(replies, i + 1);
}

/// The parent says its line only when the wait for its child, the one the
/// fork reported, has returned a status.
pub proof fn the_parent_speaks_after_its_child(replies: Seq<Reply>, i: int)
    requires
        0 <= i < issued::<Q7At>(replies).len(),
        issued::<Q7At>(replies)[i] == Action::Print(Text::ParentStillPrints),
    ensures
        i == 2,
        replies[1] matches Reply::InParent { child } && issued::<Q7At>(replies)[1]
            == (Action::WaitFor { child }),
        replies[2] is Reaped,
{
    let stage = stage_at_action::<Q7At>(replies, i);
}

} // verus!
