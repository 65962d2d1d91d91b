//! A child that says hello and a parent that says goodbye after it, made to
//! keep that order by a pipe and not by a wait.
//!
//! The pipe is opened before the fork. The child says hello and then writes
//! a marker of four bytes into the pipe. The parent closes its own copy of
//! the write end, blocks until it has read four bytes from the pipe and says
//! goodbye only then. With the parent's copy closed the child holds the only
//! write end, so that a child that goes away without writing ends the
//! parent's read short, which is an error, and does not leave it blocked.
//! Each side closes the end it has used. The child's read end stays open
//! until the child ends.

use vstd::prelude::*;
use crate::call::{Action, Pipe, Reply, Text};
use crate::descriptors::{holders, standard_streams, table_at, Target};
use crate::run::{issued, stage_at_action, Course, Stage};
use crate::text::lead;

verus! {

/// How many bytes the parent reads before it goes on: the length of the
/// marker.
pub const MARKER_LEN: usize = 4;

/// The positions of the handshake drill. Each is named after the action that
/// is pending there.
#[derive(Clone, Copy, Debug, PartialEq, Eq)]
pub enum Q3At {
    Start,
    Piping,
    Forking { pipe: Pipe },
    ChildGreets { pipe: Pipe },
    ChildSignals { pipe: Pipe },
    ChildCloses { pipe: Pipe },
    ChildFinished { pipe: Pipe },
    ParentDrops { pipe: Pipe },
    ParentAwaits { pipe: Pipe },
    ParentCloses { pipe: Pipe },
    ParentParts { pipe: Pipe },
    ParentFinished { pipe: Pipe },
    ForkFailed { pipe: Pipe },
    ForkExit { pipe: Pipe },
}

/// All that the child does: it says hello, writes the marker into the pipe
/// and closes the end it wrote to.
pub open spec fn child_script(pipe: Pipe) -> Seq<Action> {
    seq![
        Action::OpenPipe,
        Action::Fork,
        Action::Print(Text::Hello),
        Action::Write { fd: pipe.write, text: Text::Marker },
        Action::Close { fd: pipe.write },
        Action::Finish,
    ]
}

/// All that the parent does: it closes its copy of the write end, reads the
/// marker from the pipe, closes the end it read from and says goodbye.
pub open spec fn parent_script(pipe: Pipe) -> Seq<Action> {
    seq![
        Action::OpenPipe,
        Action::Fork,
        Action::Close { fd: pipe.write },
        Action::Read { fd: pipe.read, len: MARKER_LEN },
        Action::Close { fd: pipe.read },
        Action::Print(Text::Goodbye),
        Action::Finish,
    ]
}

/// What the forking process does when the fork fails.
pub open spec fn fork_failed_script() -> Seq<Action> {
    seq![Action::OpenPipe, Action::Fork, Action::Warn(Text::ForkFailed), Action::Exit { code: 1 }]
}

impl Course for Q3At {
    open spec fn start() -> Self {
        Q3At::Start
    }

    open spec fn path(self) -> Seq<Action> {
        match self {
            Q3At::Start => Seq::empty(),
            Q3At::Piping => fork_failed_script().take(1),
            Q3At::Forking { pipe } => fork_failed_script().take(2),
            Q3At::ChildGreets { pipe } => child_script(pipe).take(3),
            Q3At::ChildSignals { pipe } => child_script(pipe).take(4),
            Q3At::ChildCloses { pipe } => child_script(pipe).take(5),
            Q3At::ChildFinished { pipe } => child_script(pipe),
            Q3At::ParentDrops { pipe } => parent_script(pipe).take(3),
            Q3At::ParentAwaits { pipe } => parent_script(pipe).take(4),
            Q3At::ParentCloses { pipe } => parent_script(pipe).take(5),
            Q3At::ParentParts { pipe } => parent_script(pipe).take(6),
            Q3At::ParentFinished { pipe } => parent_script(pipe),
            Q3At::ForkFailed { pipe } => fork_failed_script().take(3),
            Q3At::ForkExit { pipe } => fork_failed_script(),
        }
    }

    open spec fn next(self, reply: Reply) -> Result<Self, Text> {
        match self {
            Q3At::Start => Ok(Q3At::Piping),
            Q3At::Piping => match reply {
                Reply::Piped(pipe) => Ok(Q3At::Forking { pipe }),
                _ => Err(Text::PipeFailed),
            },
            Q3At::Forking { pipe } => match reply {
                Reply::InChild => Ok(Q3At::ChildGreets { pipe }),
                Reply::InParent { .. } => Ok(Q3At::ParentDrops { pipe }),
                _ => Ok(Q3At::ForkFailed { pipe }),
            },
            Q3At::ChildGreets { pipe } => Ok(Q3At::ChildSignals { pipe }),
            Q3At::ChildSignals { pipe } => match reply {
                Reply::Done => Ok(Q3At::ChildCloses { pipe }),
                _ => Err(Text::WriteFailed),
            },
            Q3At::ChildCloses { pipe } => Ok(Q3At::ChildFinished { pipe }),
            Q3At::ChildFinished { .. } => Ok(self),
            Q3At::ParentDrops { pipe } => match reply {
                Reply::Done => Ok(Q3At::ParentAwaits { pipe }),
                _ => Err(Text::CloseFailed),
            },
            Q3At::ParentAwaits { pipe } => match reply {
                Reply::Done => Ok(Q3At::ParentCloses { pipe }),
                _ => Err(Text::ReadFailed),
            },
            Q3At::ParentCloses { pipe } => Ok(Q3At::ParentParts { pipe }),
            Q3At::ParentParts { pipe } => Ok(Q3At::ParentFinished { pipe }),
            Q3At::ParentFinished { .. } => Ok(self),
            Q3At::ForkFailed { pipe } => Ok(Q3At::ForkExit { pipe }),
            Q3At::ForkExit { .. } => Ok(self),
        }
    }

    open spec fn told(self, replies: Seq<Reply>) -> bool {
        match self {
            Q3At::Start => true,
            Q3At::Piping => true,
            Q3At::Forking { pipe } => replies[1] == Reply::Piped(pipe),
            Q3At::ChildGreets { pipe } | Q3At::ChildSignals { pipe } => {
                &&& replies[1] == Reply::Piped(pipe)
                &&& replies[2] == Reply::InChild
            },
            Q3At::ChildCloses { pipe } | Q3At::ChildFinished { pipe } => {
                &&& replies[1] == Reply::Piped(pipe)
                &&& replies[2] == Reply::InChild
                &&& replies[4] == Reply::Done
            },
            Q3At::ParentDrops { pipe } => {
                &&& replies[1] == Reply::Piped(pipe)
                &&& replies[2] is InParent
            },
            Q3At::ParentAwaits { pipe } => {
                &&& replies[1] == Reply::Piped(pipe)
                &&& replies[2] is InParent
                &&& replies[3] == Reply::Done
            },
            Q3At::ParentCloses { pipe }
            | Q3At::ParentParts { pipe }
            | Q3At::ParentFinished { pipe } => {
                &&& replies[1] == Reply::Piped(pipe)
                &&& replies[2] is InParent
                &&& replies[3] == Reply::Done
                &&& replies[4] == Reply::Done
            },
            Q3At::ForkFailed { pipe } | Q3At::ForkExit { pipe } => {
                &&& replies[1] == Reply::Piped(pipe)
                &&& replies[2] !is InChild
                &&& replies[2] !is InParent
            },
        }
    }

    proof fn path_from_start() {
    }

    proof fn path_grows(self, reply: Reply) {
    }

    proof fn told_reads_the_path(self, one: Seq<Reply>, other: Seq<Reply>) {
    }

    proof fn told_grows(self, replies: Seq<Reply>, reply: Reply) {
    }
}

/// One turn of the handshake drill.
///
/// The parent goes on from its read only when the read reports `Done`, which
/// is to say that all four bytes have come; anything else aborts it, and so
/// does a write end that it could not close before the read. A write that
/// does not report `Done` aborts the child, and a pipe that could not be
/// opened aborts the process. What closing an end after its use reports is
/// not looked at.
/// A fork that reports anything but a side has failed: the process warns and
/// exits with status 1.
pub fn q3(stage: Stage<Q3At>, reply: Reply) -> (turn: (Stage<Q3At>, Action))
    ensures
        turn == stage.turn(reply),
{
    if let Some(text) = stage.aborted {
        return (stage, Action::Abort(text));
    }
    let step: Result<(Q3At, Action), Text> = match stage.at {
        Q3At::Start => Ok((Q3At::Piping, Action::OpenPipe)),
        Q3At::Piping => match reply {
            Reply::Piped(pipe) => Ok((Q3At::Forking { pipe }, Action::Fork)),
            _ => Err(Text::PipeFailed),
        },
        Q3At::Forking { pipe } => match reply {
            Reply::InChild => Ok((Q3At::ChildGreets { pipe }, Action::Print(Text::Hello))),
            Reply::InParent { .. } => Ok(
                (Q3At::ParentDrops { pipe }, Action::Close { fd: pipe.write }),
            ),
            _ => Ok((Q3At::ForkFailed { pipe }, Action::Warn(Text::ForkFailed))),
        },
        Q3At::ChildGreets { pipe } => Ok(
            (Q3At::ChildSignals { pipe }, Action::Write { fd: pipe.write, text: Text::Marker }),
        ),
        Q3At::ChildSignals { pipe } => match reply {
            Reply::Done => Ok((Q3At::ChildCloses { pipe }, Action::Close { fd: pipe.write })),
            _ => Err(Text::WriteFailed),
        },
        Q3At::ChildCloses { pipe } => Ok((Q3At::ChildFinished { pipe }, Action::Finish)),
        Q3At::ChildFinished { .. } => Ok((stage.at, Action::Finish)),
        Q3At::ParentDrops { pipe } => match reply {
            Reply::Done => Ok(
                (Q3At::ParentAwaits { pipe }, Action::Read { fd: pipe.read, len: MARKER_LEN }),
            ),
            _ => Err(Text::CloseFailed),
        },
        Q3At::ParentAwaits { pipe } => match reply {
            Reply::Done => Ok((Q3At::ParentCloses { pipe }, Action::Close { fd: pipe.read })),
            _ => Err(Text::ReadFailed),
        },
        Q3At::ParentCloses { pipe } => Ok(
            (Q3At::ParentParts { pipe }, Action::Print(Text::Goodbye)),
        ),
        Q3At::ParentParts { pipe } => Ok((Q3At::ParentFinished { pipe }, Action::Finish)),
        Q3At::ParentFinished { .. } => Ok((stage.at, Action::Finish)),
        Q3At::ForkFailed { pipe } => Ok((Q3At::ForkExit { pipe }, Action::Exit { code: 1 })),
        Q3At::ForkExit { .. } => Ok((stage.at, Action::Exit { code: 1 })),
    };
    stage.settle(Ghost(reply), step)
}

/// Goodbye is said only by a process that has read the whole marker: it has
/// asked for as many bytes as the marker has, from the read end of the pipe
/// that was opened before the fork, and the read was reported done.
pub proof fn goodbye_follows_the_marker(replies: Seq<Reply>, i: int)
    requires
        0 <= i < issued::<Q3At>(replies).len(),
        issued::<Q3At>(replies)[i] == Action::Print(Text::Goodbye),
    ensures
        i == 5,
        replies[1] matches Reply::Piped(pipe) && issued::<Q3At>(replies)[3] == (Action::Read {
            fd: pipe.read,
            len: MARKER_LEN,
        }),
        replies[4] == Reply::Done,
        lead(Text::Marker).len() == MARKER_LEN,
{
    let stage = stage_at_action::<Q3At>(replies, i);
    reveal_strlit("done");
}

/// The only write of a run is the child's write of the marker into the write
/// end of the pipe that was opened before the fork, and the child has said
/// hello before it.
pub proof fn the_marker_follows_hello(replies: Seq<Reply>, i: int)
    requires
        0 <= i < issued::<Q3At>(replies).len(),
        issued::<Q3At>(replies)[i] is Write,
    ensures
        i == 3,
        issued::<Q3At>(replies)[2] == Action::Print(Text::Hello),
        replies[1] matches Reply::Piped(pipe) && issued::<Q3At>(replies)[3] == (Action::Write {
            fd: pipe.write,
            text: Text::Marker,
        }),
{
    let stage = stage_at_action::<Q3At>(replies, i);
}

/// No process of the handshake waits for a child, and each says one thing
/// only: the process that says goodbye is not the one that says hello.
pub proof fn the_order_is_kept_without_a_wait(replies: Seq<Reply>, i: int, j: int)
    requires
        0 <= i < issued::<Q3At>(replies).len(),
        0 <= j < issued::<Q3At>(replies).len(),
    ensures
        issued::<Q3At>(replies)[i] !is WaitAny,
        issued::<Q3At>(replies)[i] !is WaitFor,
        !(issued::<Q3At>(replies)[i] == Action::Print(Text::Hello) && issued::<Q3At>(replies)[j]
            == Action::Print(Text::Goodbye)),
{
    let one = stage_at_action::<Q3At>(replies, i);
    let other = stage_at_action::<Q3At>(replies, j);
}

/// A process that reads from the pipe holds no write end of it: the parent
/// has closed its copy before the read, so that the only write end left is
/// the child's, and the read ends short when the child goes away without
/// writing. The descriptor it reads from is the read end, where the two ends
/// came under two descriptors.
pub proof fn the_reader_holds_no_write_end(replies: Seq<Reply>, i: int)
    requires
        0 <= i < issued::<Q3At>(replies).len(),
        issued::<Q3At>(replies)[i] is Read,
    ensures
        ({
            let table = table_at(standard_streams(), issued::<Q3At>(replies), replies, i as nat);
            &&& i == 3
            &&& holders(table, Target::PipeWrite) == Set::<int>::empty()
            &&& replies[1] matches Reply::Piped(pipe) && issued::<Q3At>(replies)[i] == (
            Action::Read { fd: pipe.read, len: MARKER_LEN }) && (pipe.read != pipe.write
                ==> table.dom().contains(pipe.read as int) && table[pipe.read as int]
                == Target::PipeRead)
        }),
{
    let stage = stage_at_action::<Q3At>(replies, i);
    let run = issued::<Q3At>(replies);
    let start = standard_streams();
    match stage.at {
        Q3At::ParentAwaits { pipe } => {
            let opened = start.insert(pipe.read as int, Target::PipeRead).insert(
                pipe.write as int,
                Target::PipeWrite,
            );
            assert(run[0] == Action::OpenPipe && run[1] == Action::Fork);
            assert(run[2] == (Action::Close { fd: pipe.write }));
            assert(table_at(start, run, replies, 1) == opened) by {
                reveal_with_fuel(table_at, 2);
            }
            assert(table_at(start, run, replies, 2) == opened) by {
                reveal_with_fuel(table_at, 1);
            }
            assert(table_at(start, run, replies, 3) == opened.remove(pipe.write as int)) by {
                reveal_with_fuel(table_at, 1);
            }
            assert(holders(opened.remove(pipe.write as int), Target::PipeWrite) =~= Set::<
                int,
            >::empty());
        },
        _ => {},
    }
}

} // verus!
