//! A variable on both sides of a fork.
//!
//! The process holds a value, says it, and forks. Each side then gives the
//! variable a value of its own and says it twice: once inside its branch and
//! once at the end. A fork copies the address space, so what one side
//! assigns the other never sees.

use vstd::prelude::*;
use crate::call::{on_side, side_of, Action, Reply, Role, Text};
use crate::run::{issued, stage_at_action, Course, Stage};

verus! {

/// The value of the variable before the fork.
pub const BEFORE: u32 = 100;

/// The value the parent gives the variable.
pub const IN_PARENT: u32 = 50;

/// The value the child gives the variable.
pub const IN_CHILD: u32 = 25;

/// The positions of the fork drill. Each is named after the action that is
/// pending there.
#[derive(Clone, Copy, Debug, PartialEq, Eq)]
pub enum Q1At {
    Start,
    Announcing,
    Forking,
    Inside { role: Role },
    Ending { role: Role },
    Finished { role: Role },
    ForkFailed,
    ForkExit,
}

/// The value of the variable on a side of the fork, once that side has
/// assigned to it.
pub open spec fn value_on(role: Role) -> u32 {
    match role {
        Role::Parent => IN_PARENT,
        Role::Child => IN_CHILD,
    }
}

/// The line a side says inside its branch.
pub open spec fn inside(role: Role) -> Text {
    match role {
        Role::Parent => Text::InsideParent { x: IN_PARENT },
        Role::Child => Text::InsideChild { x: IN_CHILD },
    }
}

/// All that a side does: the value before the fork, and after it the side's
/// own value, inside the branch and at the end.
pub open spec fn side_script(role: Role) -> Seq<Action> {
    seq![
        Action::Print(Text::BeforeFork { x: BEFORE }),
        Action::Fork,
        Action::Print(inside(role)),
        Action::Print(Text::End { x: value_on(role) }),
        Action::Finish,
    ]
}

/// What the forking process does when the fork fails.
pub open spec fn fork_failed_script() -> Seq<Action> {
    seq![
        Action::Print(Text::BeforeFork { x: BEFORE }),
        Action::Fork,
        Action::Warn(Text::ForkFailed),
        Action::Exit { code: 1 },
    ]
}

impl Course for Q1At {
    open spec fn start() -> Self {
        Q1At::Start
    }

    open spec fn path(self) -> Seq<Action> {
        match self {
            Q1At::Start => Seq::empty(),
            Q1At::Announcing => fork_failed_script().take(1),
            Q1At::Forking => fork_failed_script().take(2),
            Q1At::Inside { role } => side_script(role).take(3),
            Q1At::Ending { role } => side_script(role).take(4),
            Q1At::Finished { role } => side_script(role),
            Q1At::ForkFailed => fork_failed_script().take(3),
            Q1At::ForkExit => fork_failed_script(),
        }
    }

    open spec fn next(self, reply: Reply) -> Result<Self, Text> {
        match self {
            Q1At::Start => Ok(Q1At::Announcing),
            Q1At::Announcing => Ok(Q1At::Forking),
            Q1At::Forking => match reply {
                Reply::InChild => Ok(Q1At::Inside { role: Role::Child }),
                Reply::InParent { .. } => Ok(Q1At::Inside { role: Role::Parent }),
                _ => Ok(Q1At::ForkFailed),
            },
            Q1At::Inside { role } => Ok(Q1At::Ending { role }),
            Q1At::Ending { role } => Ok(Q1At::Finished { role }),
            Q1At::Finished { .. } => Ok(self),
            Q1At::ForkFailed => Ok(Q1At::ForkExit),
            Q1At::ForkExit => Ok(self),
        }
    }

    open spec fn told(self, replies: Seq<Reply>) -> bool {
        match self {
            Q1At::Start => true,
            Q1At::Announcing => true,
            Q1At::Forking => true,
            Q1At::Inside { role } | Q1At::Ending { role } | Q1At::Finished { role } => on_side(
                replies[2],
                role,
            ),
            Q1At::ForkFailed | Q1At::ForkExit => {
                &&& replies[2] !is InChild
                &&& replies[2] !is InParent
            },
        }
    }

    proof fn path_from_start() {
    }

    proof fn path_grows(self, reply: Reply) {
    }

    proof fn told_reads_the_path(self, one: Seq<Reply>, other: Seq<Reply>) {
    }

    proof fn told_grows(self, replies: Seq<Reply>, reply: Reply) {
    }
}

/// The value of the variable on a side of the fork.
pub fn own_value(role: Role) -> (x: u32)
    ensures
        x == value_on(role),
{
    match role {
        Role::Parent => IN_PARENT,
        Role::Child => IN_CHILD,
    }
}

/// One turn of the fork drill.
///
/// A fork that reports anything but a side has failed: the process warns and
/// exits with status 1, and says no value after the one before the fork.
pub fn q1(stage: Stage<Q1At>, reply: Reply) -> (turn: (Stage<Q1At>, Action))
    ensures
        turn == stage.turn(reply),
{
    if let Some(text) = stage.aborted {
        return (stage, Action::Abort(text));
    }
    let step: Result<(Q1At, Action), Text> = match stage.at {
        Q1At::Start => Ok((Q1At::Announcing, Action::Print(Text::BeforeFork { x: BEFORE }))),
        Q1At::Announcing => Ok((Q1At::Forking, Action::Fork)),
        Q1At::Forking => match reply {
            Reply::InChild => Ok(
                (
                    Q1At::Inside { role: Role::Child },
                    Action::Print(Text::InsideChild { x: own_value(Role::Child) }),
                ),
            ),
            Reply::InParent { .. } => Ok(
                (
                    Q1At::Inside { role: Role::Parent },
                    Action::Print(Text::InsideParent { x: own_value(Role::Parent) }),
                ),
            ),
            _ => Ok((Q1At::ForkFailed, Action::Warn(Text::ForkFailed))),
        },
        Q1At::Inside { role } => Ok(
            (Q1At::Ending { role }, Action::Print(Text::End { x: own_value(role) })),
        ),
        Q1At::Ending { role } => Ok((Q1At::Finished { role }, Action::Finish)),
        Q1At::Finished { .. } => Ok((stage.at, Action::Finish)),
        Q1At::ForkFailed => Ok((Q1At::ForkExit, Action::Exit { code: 1 })),
        Q1At::ForkExit => Ok((stage.at, Action::Exit { code: 1 })),
    };
    stage.settle(Ghost(reply), step)
}

/// The value a process shows is its own. Before the fork it is the one value
/// there is. After it each side shows the value that side has assigned,
/// inside its branch and again at the end, and the two sides' values differ:
/// no process ever shows what the other side assigned.
pub proof fn each_side_shows_its_own_value(replies: Seq<Reply>, i: int)
    requires
        0 <= i < issued::<Q1At>(replies).len(),
    ensures
        value_on(Role::Parent) != value_on(Role::Child),
        match issued::<Q1At>(replies)[i] {
            Action::Print(Text::BeforeFork { x }) => i == 0 && x == BEFORE,
            Action::Print(Text::InsideParent { x }) => i == 2 && replies[2] is InParent && x
                == value_on(Role::Parent),
            Action::Print(Text::InsideChild { x }) => i == 2 && replies[2] is InChild && x
                == value_on(Role::Child),
            Action::Print(Text::End { x }) => i == 3 && (replies[2] is InParent || replies[2]
                is InChild) && x == value_on(side_of(replies[2])) && issued::<Q1At>(replies)[2]
                == Action::Print(inside(side_of(replies[2]))),
            Action::Print(_) => false,
            _ => true,
        },
{
    let stage = stage_at_action::<Q1At>(replies, i);
}

/// A fork that fails is reported and not tried again: a process forks once,
/// and one that exits does so with status 1, right after it has warned that
/// the fork failed, and only when the fork reported no side.
pub proof fn a_failed_fork_is_reported_and_not_retried(replies: Seq<Reply>, i: int)
    requires
        0 <= i < issued::<Q1At>(replies).len(),
    ensures
        issued::<Q1At>(replies)[i] is Fork ==> i == 1,
        issued::<Q1At>(replies)[i] matches Action::Exit { code } ==> {
            &&& code == 1
            &&& i == 3
            &&& issued::<Q1At>(replies)[2] == Action::Warn(Text::ForkFailed)
            &&& replies[2] !is InParent
            &&& replies[2] !is InChild
        },
        issued::<Q1At>(replies)[i] !is Abort,
{
    let stage = stage_at_action::<Q1At>(replies, i);
}

} // verus!
