//! Two children that sleep for different times, and a parent that waits for
//! the second of them only.
//!
//! The first child sleeps for the shorter time and is never waited for: it
//! stays a zombie from its exit until the parent ends. That is intended. A
//! wait for one child does not reap another, and the drill shows it by
//! leaving the other unreaped.

use vstd::prelude::*;
use crate::call::{Action, Reply, Text};
use crate::run::{issued, stage_at_action, Course, Stage};

verus! {

/// For how many seconds the first child sleeps.
pub const FIRST_NAP: u64 = 1;

/// For how many seconds the second child sleeps.
pub const SECOND_NAP: u64 = 2;

/// The positions of the selective-reaping drill. Each is named after the
/// action that is pending there.
#[derive(Clone, Copy, Debug, PartialEq, Eq)]
pub enum Q6At {
    Start,
    ForkingFirst,
    FirstAsks,
    FirstSays { pid: i32 },
    FirstSleeps { pid: i32 },
    FirstExits { pid: i32 },
    FirstForkFailed,
    FirstForkExit,
    ForkingSecond { first: i32 },
    SecondAsks { first: i32 },
    SecondSays { first: i32, pid: i32 },
    SecondSleeps { first: i32, pid: i32 },
    SecondExits { first: i32, pid: i32 },
    SecondForkFailed { first: i32 },
    SecondForkExit { first: i32 },
    Reaping { first: i32, second: i32 },
    Reporting { first: i32, second: i32 },
    Finished { first: i32, second: i32 },
}

/// All that the first child does: it says who it is, sleeps and exits.
pub open spec fn first_child_script(pid: i32) -> Seq<Action> {
    seq![
        Action::Fork,
        Action::AskPid,
        Action::Print(Text::NumberedPid { child: 1, pid }),
        Action::Sleep { seconds: FIRST_NAP },
        Action::Exit { code: 0 },
    ]
}

/// All that the second child does: it says who it is, sleeps for longer than
/// the first and exits.
pub open spec fn second_child_script(pid: i32) -> Seq<Action> {
    seq![
        Action::Fork,
        Action::Fork,
        Action::AskPid,
        Action::Print(Text::NumberedPid { child: 2, pid }),
        Action::Sleep { seconds: SECOND_NAP },
        Action::Exit { code: 0 },
    ]
}

/// All that the parent does: it forks twice, waits for the second child and
/// says that it is gone. The first child is left unreaped.
pub open spec fn parent_script(second: i32) -> Seq<Action> {
    seq![
        Action::Fork,
        Action::Fork,
        Action::WaitFor { child: second },
        Action::Print(Text::SecondChildFinished),
        Action::Finish,
    ]
}

/// What the parent does when its first fork fails.
pub open spec fn first_fork_failed_script() -> Seq<Action> {
    seq![Action::Fork, Action::Warn(Text::ForkFailed), Action::Exit { code: 1 }]
}

/// What the parent does when its second fork fails.
pub open spec fn second_fork_failed_script() -> Seq<Action> {
    seq![Action::Fork, Action::Fork, Action::Warn(Text::ForkFailed), Action::Exit { code: 1 }]
}

impl Course for Q6At {
    open spec fn start() -> Self {
        Q6At::Start
    }

    open spec fn path(self) -> Seq<Action> {
        match self {
            Q6At::Start => Seq::empty(),
            Q6At::ForkingFirst => first_fork_failed_script().take(1),
            Q6At::FirstAsks => seq![Action::Fork, Action::AskPid],
            Q6At::FirstSays { pid } => first_child_script(pid).take(3),
            Q6At::FirstSleeps { pid } => first_child_script(pid).take(4),
            Q6At::FirstExits { pid } => first_child_script(pid),
            Q6At::FirstForkFailed => first_fork_failed_script().take(2),
            Q6At::FirstForkExit => first_fork_failed_script(),
            Q6At::ForkingSecond { first } => second_fork_failed_script().take(2),
            Q6At::SecondAsks { first } => seq![Action::Fork, Action::Fork, Action::AskPid],
            Q6At::SecondSays { first, pid } => second_child_script(pid).take(4),
            Q6At::SecondSleeps { first, pid } => second_child_script(pid).take(5),
            Q6At::SecondExits { first, pid } => second_child_script(pid),
            Q6At::SecondForkFailed { first } => second_fork_failed_script().take(3),
            Q6At::SecondForkExit { first } => second_fork_failed_script(),
            Q6At::Reaping { first, second } => parent_script(second).take(3),
            Q6At::Reporting { first, second } => parent_script(second).take(4),
            Q6At::Finished { first, second } => parent_script(second),
        }
    }

    open spec fn next(self, reply: Reply) -> Result<Self, Text> {
        match self {
            Q6At::Start => Ok(Q6At::ForkingFirst),
            Q6At::ForkingFirst => match reply {
                Reply::InChild => Ok(Q6At::FirstAsks),
                Reply::InParent { child } => Ok(Q6At::ForkingSecond { first: child }),
                _ => Ok(Q6At::FirstForkFailed),
            },
            Q6At::FirstAsks => match reply {
                Reply::Pid { pid } => Ok(Q6At::FirstSays { pid }),
                _ => Err(Text::PidFailed),
            },
            Q6At::FirstSays { pid } => Ok(Q6At::FirstSleeps { pid }),
            Q6At::FirstSleeps { pid } => Ok(Q6At::FirstExits { pid }),
            Q6At::FirstExits { .. } => Ok(self),
            Q6At::FirstForkFailed => Ok(Q6At::FirstForkExit),
            Q6At::FirstForkExit => Ok(self),
            Q6At::ForkingSecond { first } => match reply {
                Reply::InChild => Ok(Q6At::SecondAsks { first }),
                Reply::InParent { child } => Ok(Q6At::Reaping { first, second: child }),
                _ => Ok(Q6At::SecondForkFailed { first }),
            },
            Q6At::SecondAsks { first } => match reply {
                Reply::Pid { pid } => Ok(Q6At::SecondSays { first, pid }),
                _ => Err(Text::PidFailed),
            },
            Q6At::SecondSays { first, pid } => Ok(Q6At::SecondSleeps { first, pid }),
            Q6At::SecondSleeps { first, pid } => Ok(Q6At::SecondExits { first, pid }),
            Q6At::SecondExits { .. } => Ok(self),
            Q6At::SecondForkFailed { first } => Ok(Q6At::SecondForkExit { first }),
            Q6At::SecondForkExit { .. } => Ok(self),
            Q6At::Reaping { first, second } => match reply {
                Reply::Reaped(_) => Ok(Q6At::Reporting { first, second }),
                _ => Err(Text::WaitpidFailed),
            },
            Q6At::Reporting { first, second } => Ok(Q6At::Finished { first, second }),
            Q6At::Finished { .. } => Ok(self),
        }
    }

    open spec fn told(self, replies: Seq<Reply>) -> bool {
        match self {
            Q6At::Start => true,
            Q6At::ForkingFirst => true,
            Q6At::FirstAsks => replies[1] == Reply::InChild,
            Q6At::FirstSays { pid } | Q6At::FirstSleeps { pid } | Q6At::FirstExits { pid } => {
                &&& replies[1] == Reply::InChild
                &&& replies[2] == (Reply::Pid { pid })
            },
            Q6At::FirstForkFailed | Q6At::FirstForkExit => {
                &&& replies[1] !is InChild
                &&& replies[1] !is InParent
            },
            Q6At::ForkingSecond { first } => replies[1] == (Reply::InParent { child: first }),
            Q6At::SecondAsks { first } => {
                &&& replies[1] == (Reply::InParent { child: first })
                &&& replies[2] == Reply::InChild
            },
            Q6At::SecondSays { first, pid }
            | Q6At::SecondSleeps { first, pid }
            | Q6At::SecondExits { first, pid } => {
                &&& replies[1] == (Reply::InParent { child: first })
                &&& replies[2] == Reply::InChild
                &&& replies[3] == (Reply::Pid { pid })
            },
            Q6At::SecondForkFailed { first } | Q6At::SecondForkExit { first } => {
                &&& replies[1] == (Reply::InParent { child: first })
                &&& replies[2] !is InChild
                &&& replies[2] !is InParent
            },
            Q6At::Reaping { first, second } => {
                &&& replies[1] == (Reply::InParent { child: first })
                &&& replies[2] == (Reply::InParent { child: second })
            },
            Q6At::Reporting { first, second } | Q6At::Finished { first, second } => {
                &&& replies[1] == (Reply::InParent { child: first })
                &&& replies[2] == (Reply::InParent { child: second })
                &&& replies[3] is Reaped
            },
        }
    }

    proof fn path_from_start() {
    }

    proof fn path_grows(self, reply: Reply) {
    }

    proof fn told_reads_the_path(self, one: Seq<Reply>, other: Seq<Reply>) {
    }

    proof fn told_grows(self, replies: Seq<Reply>, reply: Reply) {
    }
}

/// One turn of the selective-reaping drill.
///
/// The first child is the process for which the first fork reports
/// `InChild`, the second child the one for which the second fork does. The
/// parent waits for the child that its second fork reported and for no
/// other. A wait that does not report a status aborts the parent, a request
/// for the process identifier that does not report one aborts the child, and
/// a fork that reports anything but a side has failed: the process warns and
/// exits with status 1.
pub fn q6(stage: Stage<Q6At>, reply: Reply) -> (turn: (Stage<Q6At>, Action))
    ensures
        turn == stage.turn(reply),
{
    if let Some(text) = stage.aborted {
        return (stage, Action::Abort(text));
    }
    let step: Result<(Q6At, Action), Text> = match stage.at {
        Q6At::Start => Ok((Q6At::ForkingFirst, Action::Fork)),
        Q6At::ForkingFirst => match reply {
            Reply::InChild => Ok((Q6At::FirstAsks, Action::AskPid)),
            Reply::InParent { child } => Ok((Q6At::ForkingSecond { first: child }, Action::Fork)),
            _ => Ok((Q6At::FirstForkFailed, Action::Warn(Text::ForkFailed))),
        },
        Q6At::FirstAsks => match reply {
            Reply::Pid { pid } => Ok(
                (Q6At::FirstSays { pid }, Action::Print(Text::NumberedPid { child: 1, pid })),
            ),
            _ => Err(Text::PidFailed),
        },
        Q6At::FirstSays { pid } => Ok(
            (Q6At::FirstSleeps { pid }, Action::Sleep { seconds: FIRST_NAP }),
        ),
        Q6At::FirstSleeps { pid } => Ok((Q6At::FirstExits { pid }, Action::Exit { code: 0 })),
        Q6At::FirstExits { .. } => Ok((stage.at, Action::Exit { code: 0 })),
        Q6At::FirstForkFailed => Ok((Q6At::FirstForkExit, Action::Exit { code: 1 })),
        Q6At::FirstForkExit => Ok((stage.at, Action::Exit { code: 1 })),
        Q6At::ForkingSecond { first } => match reply {
            Reply::InChild => Ok((Q6At::SecondAsks { first }, Action::AskPid)),
            Reply::InParent { child } => Ok(
                (Q6At::Reaping { first, second: child }, Action::WaitFor { child }),
            ),
            _ => Ok((Q6At::SecondForkFailed { first }, Action::Warn(Text::ForkFailed))),
        },
        Q6At::SecondAsks { first } => match reply {
            Reply::Pid { pid } => Ok(
                (
                    Q6At::SecondSays { first, pid },
                    Action::Print(Text::NumberedPid { child: 2, pid }),
                ),
            ),
            _ => Err(Text::PidFailed),
        },
        Q6At::SecondSays { first, pid } => Ok(
            (Q6At::SecondSleeps { first, pid }, Action::Sleep { seconds: SECOND_NAP }),
        ),
        Q6At::SecondSleeps { first, pid } => Ok(
            (Q6At::SecondExits { first, pid }, Action::Exit { code: 0 }),
        ),
        Q6At::SecondExits { .. } => Ok((stage.at, Action::Exit { code: 0 })),
        Q6At::SecondForkFailed { first } => Ok(
            (Q6At::SecondForkExit { first }, Action::Exit { code: 1 }),
        ),
        Q6At::SecondForkExit { .. } => Ok((stage.at, Action::Exit { code: 1 })),
        Q6At::Reaping { first, second } => match reply {
            Reply::Reaped(_) => Ok(
                (Q6At::Reporting { first, second }, Action::Print(Text::SecondChildFinished)),
            ),
            _ => Err(Text::WaitpidFailed),
        },
        Q6At::Reporting { first, second } => Ok((Q6At::Finished { first, second }, Action::Finish)),
        Q6At::Finished { .. } => Ok((stage.at, Action::Finish)),
    };
    stage.settle(Ghost(reply), step)
}

/// The parent says that the second child has finished only when the wait
/// for that child, the one its second fork reported, has returned a status.
pub proof fn the_parent_reports_after_the_second_child_is_reaped(replies: Seq<Reply>, i: int)
    requires
        0 <= i < issued::<Q6At>(replies).len(),
        issued::<Q6At>(replies)[i] == Action::Print(Text::SecondChildFinished),
    ensures
        i == 3,
        replies[2] matches Reply::InParent { child } && issued::<Q6At>(replies)[2]
            == (Action::WaitFor { child }),
        replies[3] is Reaped,
{
    let stage = stage_at_action::<Q6At>(replies, i);
}

/// The only wait of a run is the parent's wait for the child that its second
/// fork reported: no process waits for any child whatever, and none waits
/// for the first child, which is left unreaped.
pub proof fn the_first_child_is_left_unreaped(replies: Seq<Reply>, i: int)
    requires
        0 <= i < issued::<Q6At>(replies).len(),
    ensures
        issued::<Q6At>(replies)[i] !is WaitAny,
        issued::<Q6At>(replies)[i] matches Action::WaitFor { child } ==> i == 2 && replies[2] == (
        Reply::InParent { child }),
{
    let stage = stage_at_action::<Q6At>(replies, i);
}

/// The second child sleeps for longer than the first.
pub proof fn the_second_child_sleeps_longer(replies: Seq<Reply>, i: int)
    requires
        0 <= i < issued::<Q6At>(replies).len(),
    ensures
        issued::<Q6At>(replies)[i] matches Action::Sleep { seconds } ==> if replies[1]
            == Reply::InChild {
            seconds == FIRST_NAP
        } else {
            seconds == SECOND_NAP && FIRST_NAP < SECOND_NAP
        },
{
    let stage = stage_at_action::<Q6At>(replies, i);
}

} // verus!
