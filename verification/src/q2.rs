//! A parent and a child that write to one file through a descriptor opened
//! before the fork.
//!
//! Both processes inherit the descriptor and with it one file offset. Each
//! writes a thousand numbered records of its own, and keeps the processor
//! busy after each of them so that the two take turns. Neither closes the
//! descriptor: it stays open until the process ends.

use vstd::prelude::*;
use crate::call::{on_side, side_of, Action, Reply, Role, Text};
use crate::descriptors::{keeps_table, standard_streams, table_at, table_stays, Target};
use crate::run::{issued, nothing_follows_a_closing_action, stage_at_action, Course, Stage};

verus! {

/// How many records each process writes.
pub const RECORDS: u32 = 1000;

/// How many empty rounds a process spins for after each record.
pub const ROUNDS: u32 = 1000000;

/// The positions of the shared-descriptor drill. Each is named after the
/// action that is pending there.
#[derive(Clone, Copy, Debug, PartialEq, Eq)]
pub enum Q2At {
    Start,
    Creating,
    Forking { fd: i32 },
    Announcing { role: Role, fd: i32 },
    Writing { role: Role, fd: i32, index: u32 },
    Spinning { role: Role, fd: i32, index: u32 },
    /// The process has written its records, the last of them numbered `last`.
    Finished { role: Role, fd: i32, last: u32 },
    ForkFailed { fd: i32 },
    ForkExit { fd: i32 },
}

/// The write of one record.
pub open spec fn record(role: Role, fd: i32, index: int) -> Action {
    Action::Write { fd, text: Text::Record { role, index: index as u32 } }
}

/// What both sides do first: the file is created, the process forks, and
/// each side says under which descriptor it holds the file.
pub open spec fn opening(role: Role, fd: i32) -> Seq<Action> {
    seq![
        Action::Create(Text::OutputPath),
        Action::Fork,
        Action::Print(Text::HasDescriptor { role, fd }),
    ]
}

/// The first `n` rounds of a side: record `0`, a spin, record `1`, a spin,
/// and so on.
pub open spec fn rounds(role: Role, fd: i32, n: int) -> Seq<Action> {
    Seq::new(
        (2 * n) as nat,
        |k: int|
            if k % 2 == 0 {
                record(role, fd, k / 2)
            } else {
                Action::Spin { rounds: ROUNDS }
            },
    )
}

/// All that a side does when nothing fails.
pub open spec fn side_script(role: Role, fd: i32) -> Seq<Action> {
    opening(role, fd) + rounds(role, fd, RECORDS as int) + seq![Action::Finish]
}

/// What the forking process does when the fork fails.
pub open spec fn fork_failed_script() -> Seq<Action> {
    seq![
        Action::Create(Text::OutputPath),
        Action::Fork,
        Action::Warn(Text::ForkFailed),
        Action::Exit { code: 1 },
    ]
}

impl Course for Q2At {
    open spec fn start() -> Self {
        Q2At::Start
    }

    open spec fn path(self) -> Seq<Action> {
        match self {
            Q2At::Start => Seq::empty(),
            Q2At::Creating => fork_failed_script().take(1),
            Q2At::Forking { fd } => fork_failed_script().take(2),
            Q2At::Announcing { role, fd } => opening(role, fd),
            Q2At::Writing { role, fd, index } => opening(role, fd) + rounds(
                role,
                fd,
                index as int,
            ).push(record(role, fd, index as int)),
            Q2At::Spinning { role, fd, index } => opening(role, fd) + rounds(role, fd, index + 1),
            Q2At::Finished { role, fd, last } => opening(role, fd) + rounds(role, fd, last + 1)
                + seq![Action::Finish],
            Q2At::ForkFailed { fd } => fork_failed_script().take(3),
            Q2At::ForkExit { fd } => fork_failed_script(),
        }
    }

    open spec fn next(self, reply: Reply) -> Result<Self, Text> {
        match self {
            Q2At::Start => Ok(Q2At::Creating),
            Q2At::Creating => match reply {
                Reply::Opened { fd } => Ok(Q2At::Forking { fd }),
                _ => Err(Text::CreateFailed),
            },
            Q2At::Forking { fd } => match reply {
                Reply::InChild => Ok(Q2At::Announcing { role: Role::Child, fd }),
                Reply::InParent { .. } => Ok(Q2At::Announcing { role: Role::Parent, fd }),
                _ => Ok(Q2At::ForkFailed { fd }),
            },
            Q2At::Announcing { role, fd } => Ok(Q2At::Writing { role, fd, index: 0 }),
            Q2At::Writing { role, fd, index } => match reply {
                Reply::Done => Ok(Q2At::Spinning { role, fd, index }),
                _ => Err(Text::WriteFailed),
            },
            Q2At::Spinning { role, fd, index } => if index < RECORDS - 1 {
                Ok(Q2At::Writing { role, fd, index: (index + 1) as u32 })
            } else {
                Ok(Q2At::Finished { role, fd, last: index })
            },
            Q2At::Finished { .. } => Ok(self),
            Q2At::ForkFailed { fd } => Ok(Q2At::ForkExit { fd }),
            Q2At::ForkExit { .. } => Ok(self),
        }
    }

    open spec fn told(self, replies: Seq<Reply>) -> bool {
        match self {
            Q2At::Start => true,
            Q2At::Creating => true,
            Q2At::Forking { fd } => replies[1] == (Reply::Opened { fd }),
            Q2At::Announcing { role, fd } => {
                &&& replies[1] == (Reply::Opened { fd })
                &&& on_side(replies[2], role)
            },
            Q2At::Writing { role, fd, index } => {
                &&& replies[1] == (Reply::Opened { fd })
                &&& on_side(replies[2], role)
                &&& index < RECORDS
                &&& forall|j: int| 0 <= j < index ==> #[trigger] replies[4 + 2 * j] == Reply::Done
            },
            Q2At::Spinning { role, fd, index } => {
                &&& replies[1] == (Reply::Opened { fd })
                &&& on_side(replies[2], role)
                &&& index < RECORDS
                &&& forall|j: int| 0 <= j <= index ==> #[trigger] replies[4 + 2 * j] == Reply::Done
            },
            Q2At::Finished { role, fd, last } => {
                &&& replies[1] == (Reply::Opened { fd })
                &&& on_side(replies[2], role)
                &&& last == RECORDS - 1
                &&& forall|j: int| 0 <= j <= last ==> #[trigger] replies[4 + 2 * j] == Reply::Done
            },
            Q2At::ForkFailed { fd } | Q2At::ForkExit { fd } => {
                &&& replies[1] == (Reply::Opened { fd })
                &&& replies[2] !is InChild
                &&& replies[2] !is InParent
            },
        }
    }

    proof fn path_from_start() {
    }

    proof fn path_grows(self, reply: Reply) {
        match self {
            Q2At::Announcing { role, fd } => {
                let after = Q2At::Writing { role, fd, index: 0 };
                assert(after.path().drop_last() =~= self.path());
            },
            Q2At::Writing { role, fd, index } => {
                let after = Q2At::Spinning { role, fd, index };
                assert(after.path().drop_last() =~= self.path());
            },
            Q2At::Spinning { role, fd, index } => {
                if index < RECORDS - 1 {
                    let after = Q2At::Writing { role, fd, index: (index + 1) as u32 };
                    assert(after.path().drop_last() =~= self.path());
                } else {
                    let after = Q2At::Finished { role, fd, last: index };
                    assert(after.path().drop_last() =~= self.path());
                }
            },
            _ => {},
        }
    }

    proof fn told_reads_the_path(self, one: Seq<Reply>, other: Seq<Reply>) {
        match self {
            Q2At::Writing { role, fd, index } => {
                assert(self.path().len() == 4 + 2 * index);
            },
            Q2At::Spinning { role, fd, index } => {
                assert(self.path().len() == 5 + 2 * index);
            },
            Q2At::Finished { role, fd, last } => {
                assert(self.path().len() == 6 + 2 * last);
            },
            _ => {},
        }
    }

    proof fn told_grows(self, replies: Seq<Reply>, reply: Reply) {
        match self {
            Q2At::Writing { role, fd, index } => {
                assert(self.path().len() == 4 + 2 * index);
            },
            _ => {},
        }
    }
}

/// One turn of the shared-descriptor drill.
///
/// A process writes record `index`, spins, and goes on to the next record
/// until it has written all of them. A write that does not report `Done`
/// aborts the process, and so does a file that could not be created. A fork
/// that reports anything but a side has failed: the process warns and exits
/// with status 1.
pub fn q2(stage: Stage<Q2At>, reply: Reply) -> (turn: (Stage<Q2At>, Action))
    ensures
        turn == stage.turn(reply),
{
    if let Some(text) = stage.aborted {
        return (stage, Action::Abort(text));
    }
    let step: Result<(Q2At, Action), Text> = match stage.at {
        Q2At::Start => Ok((Q2At::Creating, Action::Create(Text::OutputPath))),
        Q2At::Creating => match reply {
            Reply::Opened { fd } => Ok((Q2At::Forking { fd }, Action::Fork)),
            _ => Err(Text::CreateFailed),
        },
        Q2At::Forking { fd } => match reply {
            Reply::InChild => Ok(
                (
                    Q2At::Announcing { role: Role::Child, fd },
                    Action::Print(Text::HasDescriptor { role: Role::Child, fd }),
                ),
            ),
            Reply::InParent { .. } => Ok(
                (
                    Q2At::Announcing { role: Role::Parent, fd },
                    Action::Print(Text::HasDescriptor { role: Role::Parent, fd }),
                ),
            ),
            _ => Ok((Q2At::ForkFailed { fd }, Action::Warn(Text::ForkFailed))),
        },
        Q2At::Announcing { role, fd } => Ok(
            (
                Q2At::Writing { role, fd, index: 0 },
                Action::Write { fd, text: Text::Record { role, index: 0 } },
            ),
        ),
        Q2At::Writing { role, fd, index } => match reply {
            Reply::Done => Ok((Q2At::Spinning { role, fd, index }, Action::Spin { rounds: ROUNDS })),
            _ => Err(Text::WriteFailed),
        },
        Q2At::Spinning { role, fd, index } => if index < RECORDS - 1 {
            Ok(
                (
                    Q2At::Writing { role, fd, index: index + 1 },
                    Action::Write { fd, text: Text::Record { role, index: index + 1 } },
                ),
            )
        } else {
            Ok((Q2At::Finished { role, fd, last: index }, Action::Finish))
        },
        Q2At::Finished { .. } => Ok((stage.at, Action::Finish)),
        Q2At::ForkFailed { fd } => Ok((Q2At::ForkExit { fd }, Action::Exit { code: 1 })),
        Q2At::ForkExit { .. } => Ok((stage.at, Action::Exit { code: 1 })),
    };
    stage.settle(Ghost(reply), step)
}

/// Whatever the operating system replies, a process writes nothing but its
/// own records, in order, each to the descriptor under which the file was
/// opened before the fork: the write at index `3 + 2 * j` of its run is that
/// of record `j`, and there is no write anywhere else.
pub proof fn a_process_writes_its_own_records_in_order(replies: Seq<Reply>, i: int)
    requires
        0 <= i < issued::<Q2At>(replies).len(),
        issued::<Q2At>(replies)[i] is Write,
    ensures
        i >= 3,
        (i - 3) % 2 == 0,
        (i - 3) / 2 < RECORDS,
        replies[2] is InChild || replies[2] is InParent,
        replies[1] matches Reply::Opened { fd } && issued::<Q2At>(replies)[i] == record(
            side_of(replies[2]),
            fd,
            (i - 3) / 2,
        ),
{
    let stage = stage_at_action::<Q2At>(replies, i);
}

/// A process that finishes has issued the whole script of its side: it has
/// written all of its records, each write was reported done, and it finishes
/// right after the last round.
pub proof fn a_finished_process_has_written_every_record(replies: Seq<Reply>, i: int)
    requires
        0 <= i < issued::<Q2At>(replies).len(),
        issued::<Q2At>(replies)[i] == Action::Finish,
    ensures
        replies[2] is InChild || replies[2] is InParent,
        replies[1] matches Reply::Opened { fd } && issued::<Q2At>(replies) == side_script(
            side_of(replies[2]),
            fd,
        ),
        forall|j: int| 0 <= j < RECORDS ==> #[trigger] replies[4 + 2 * j] == Reply::Done,
{
    let stage = stage_at_action::<Q2At>(replies, i);
    nothing_follows_a_closing_action::<Q2At>(replies, i);
    let run = issued::<Q2At>(replies);
    assert(run.take(i + 1) == run);
    match stage.at {
        Q2At::Finished { role, fd, last } => {
            assert(stage.script() =~= side_script(role, fd));
        },
        _ => {},
    }
}

/// Every write of a process goes to the shared file: the descriptor it
/// writes to is the one under which the file was created before the fork,
/// and the process still holds it, for neither side ever closes it.
pub proof fn every_write_goes_to_the_shared_file(replies: Seq<Reply>, i: int)
    requires
        0 <= i < issued::<Q2At>(replies).len(),
        issued::<Q2At>(replies)[i] is Write,
    ensures
        replies[1] matches Reply::Opened { fd } && issued::<Q2At>(replies)[i] matches Action::Write {
            fd: used,
            ..
        } && used == fd && ({
            let table = table_at(standard_streams(), issued::<Q2At>(replies), replies, i as nat);
            table.dom().contains(fd as int) && table[fd as int] == Target::Output
        }),
{
    let stage = stage_at_action::<Q2At>(replies, i);
    let run = issued::<Q2At>(replies);
    let start = standard_streams();
    match stage.at {
        Q2At::Writing { role, fd, index } => {
            assert(stage.aborted is None);
            assert(i == 3 + 2 * index);
            assert(run[0] == stage.script()[0]);
            assert(run[0] == Action::Create(Text::OutputPath));
            assert(table_at(start, run, replies, 1) == start.insert(fd as int, Target::Output))
                by {
                reveal_with_fuel(table_at, 2);
            }
            assert forall|k: int| 1 <= k < i implies keeps_table(#[trigger] run[k]) by {
                assert(run[k] == stage.script()[k]);
                a_side_opens_nothing_more(role, fd, index, k);
            }
            table_stays(start, run, replies, 1, i as nat);
        },
        _ => {},
    }
}

proof fn a_side_opens_nothing_more(role: Role, fd: i32, index: u32, k: int)
    requires
        1 <= k < 3 + 2 * index,
    ensures
        keeps_table((Q2At::Writing { role, fd, index }).path()[k]),
{
    if k >= 3 {
        assert((Q2At::Writing { role, fd, index }).path()[k] == rounds(role, fd, index as int)[k
            - 3]);
    }
}

} // verus!
