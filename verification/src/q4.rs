//! A child that becomes another program, and a parent that waits for it.
//!
//! The child announces what it is about to do and then replaces its image by
//! the directory lister. If that succeeds nothing of the drill runs in the
//! child any more; if the drill is still there afterwards the replacement has
//! failed, and the child aborts.

use vstd::prelude::*;
use crate::call::{Action, Program, Reply, Text};
use crate::run::{issued, nothing_follows_a_closing_action, stage_at_action, Course, Stage};

verus! {

/// The positions of the exec drill. Each is named after the action that is
/// pending there.
#[derive(Clone, Copy, Debug, PartialEq, Eq)]
pub enum Q4At {
    Start,
    Forking,
    ChildAnnounces,
    ChildBecomes,
    ParentWaits { child: i32 },
    ParentFinished { child: i32 },
    ForkFailed,
    ForkExit,
}

/// All that the child does: it announces the program and becomes it.
pub open spec fn child_script() -> Seq<Action> {
    seq![Action::Fork, Action::Print(Text::AboutToExec), Action::Exec(Program::ListAt)]
}

/// All that the parent does: it waits for the child.
pub open spec fn parent_script(child: i32) -> Seq<Action> {
    seq![Action::Fork, Action::WaitFor { child }, Action::Finish]
}

/// What the forking process does when the fork fails.
pub open spec fn fork_failed_script() -> Seq<Action> {
    seq![Action::Fork, Action::Warn(Text::ForkFailed), Action::Exit { code: 1 }]
}

impl Course for Q4At {
    open spec fn start() -> Self {
        Q4At::Start
    }

    open spec fn path(self) -> Seq<Action> {
        match self {
            Q4At::Start => Seq::empty(),
            Q4At::Forking => fork_failed_script().take(1),
            Q4At::ChildAnnounces => child_script().take(2),
            Q4At::ChildBecomes => child_script(),
            Q4At::ParentWaits { child } => parent_script(child).take(2),
            Q4At::ParentFinished { child } => parent_script(child),
            Q4At::ForkFailed => fork_failed_script().take(2),
            Q4At::ForkExit => fork_failed_script(),
        }
    }

    open spec fn next(self, reply: Reply) -> Result<Self, Text> {
        match self {
            Q4At::Start => Ok(Q4At::Forking),
            Q4At::Forking => match reply {
                Reply::InChild => Ok(Q4At::ChildAnnounces),
                Reply::InParent { child } => Ok(Q4At::ParentWaits { child }),
                _ => Ok(Q4At::ForkFailed),
            },
            Q4At::ChildAnnounces => Ok(Q4At::ChildBecomes),
            Q4At::ChildBecomes => Err(Text::ExecFailed),
            Q4At::ParentWaits { child } => match reply {
                Reply::Reaped(_) => Ok(Q4At::ParentFinished { child }),
                _ => Err(Text::WaitFailed),
            },
            Q4At::ParentFinished { .. } => Ok(self),
            Q4At::ForkFailed => Ok(Q4At::ForkExit),
            Q4At::ForkExit => Ok(self),
        }
    }

    open spec fn told(self, replies: Seq<Reply>) -> bool {
        match self {
            Q4At::Start => true,
            Q4At::Forking => true,
            Q4At::ChildAnnounces | Q4At::ChildBecomes => replies[1] == Reply::InChild,
            Q4At::ParentWaits { child } => replies[1] == (Reply::InParent { child }),
            Q4At::ParentFinished { child } => {
                &&& replies[1] == (Reply::InParent { child })
                &&& replies[2] is Reaped
            },
            Q4At::ForkFailed | Q4At::ForkExit => {
                &&& replies[1] !is InChild
                &&& replies[1] !is InParent
            },
        }
    }

    proof fn path_from_start() {
    }

    proof fn path_grows(self, reply: Reply) {
    }

    proof fn told_reads_the_path(self, one: Seq<Reply>, other: Seq<Reply>) {
    }

    proof fn told_grows(self, replies: Seq<Reply>, reply: Reply) {
    }
}

/// One turn of the exec drill.
///
/// An exec that succeeds has no reply: whatever is reported of it says that
/// it failed, and aborts the child. A wait that does not report a status
/// aborts the parent. A fork that reports anything but a side has failed:
/// the process warns and exits with status 1.
pub fn q4(stage: Stage<Q4At>, reply: Reply) -> (turn: (Stage<Q4At>, Action))
    ensures
        turn == stage.turn(reply),
{
    if let Some(text) = stage.aborted {
        return (stage, Action::Abort(text));
    }
    let step: Result<(Q4At, Action), Text> = match stage.at {
        Q4At::Start => Ok((Q4At::Forking, Action::Fork)),
        Q4At::Forking => match reply {
            Reply::InChild => Ok((Q4At::ChildAnnounces, Action::Print(Text::AboutToExec))),
            Reply::InParent { child } => Ok(
                (Q4At::ParentWaits { child }, Action::WaitFor { child }),
            ),
            _ => Ok((Q4At::ForkFailed, Action::Warn(Text::ForkFailed))),
        },
        Q4At::ChildAnnounces => Ok((Q4At::ChildBecomes, Action::Exec(Program::ListAt))),
        Q4At::ChildBecomes => Err(Text::ExecFailed),
        Q4At::ParentWaits { child } => match reply {
            Reply::Reaped(_) => Ok((Q4At::ParentFinished { child }, Action::Finish)),
            _ => Err(Text::WaitFailed),
        },
        Q4At::ParentFinished { .. } => Ok((stage.at, Action::Finish)),
        Q4At::ForkFailed => Ok((Q4At::ForkExit, Action::Exit { code: 1 })),
        Q4At::ForkExit => Ok((stage.at, Action::Exit { code: 1 })),
    };
    stage.settle(Ghost(reply), step)
}

/// After it has asked to become the program a child shows nothing more: the
/// one thing that can follow the exec is the abort that reports its failure,
/// and that closes the run.
pub proof fn nothing_is_shown_after_exec(replies: Seq<Reply>, i: int, j: int)
    requires
        0 <= i < j < issued::<Q4At>(replies).len(),
        issued::<Q4At>(replies)[i] is Exec,
    ensures
        issued::<Q4At>(replies)[j] == Action::Abort(Text::ExecFailed),
        j == i + 1,
        j == issued::<Q4At>(replies).len() - 1,
{
    let run = issued::<Q4At>(replies);
    let later = stage_at_action::<Q4At>(replies, j);
    assert(later.script()[i] == run[i]);
    assert(later.at.path()[i] is Exec);
    assert(later.at == Q4At::ChildBecomes && i == 2);
    nothing_follows_a_closing_action::<Q4At>(replies, j);
}

/// The parent finishes only when the wait for its child, the one the fork
/// reported, has returned a status.
pub proof fn the_parent_finishes_after_its_child(replies: Seq<Reply>, i: int)
    requires
        0 <= i < issued::<Q4At>(replies).len(),
        issued::<Q4At>(replies)[i] == Action::Finish,
    ensures
        i == 2,
        replies[1] matches Reply::InParent { child } && issued::<Q4At>(replies)[1]
            == (Action::WaitFor { child }),
        replies[2] is Reaped,
{
    let stage = stage_at_action::<Q4At>(replies, i);
}

} // verus!
