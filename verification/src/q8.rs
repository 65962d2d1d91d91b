//! A pipeline of two children: the first becomes a program that lists the
//! directory, the second a program that counts the lines it is fed, and a
//! pipe carries the output of the one to the input of the other.
//!
//! Each child closes the end of the pipe it has no use for, puts the other
//! end in the place of a standard stream, closes the descriptor it came
//! under, and only then becomes its program. The parent closes
//! both ends and waits for both children. A write end left open anywhere
//! would keep the counter waiting for an end of input that never comes.

use vstd::prelude::*;
use crate::call::{Action, Pipe, Program, Reply, Text};
use crate::descriptors::{holders, standard_streams, table_at, table_moves, Target};
use crate::run::{issued, stage_at_action, Course, Stage};

verus! {

/// The positions of the pipeline drill. Each is named after the action that
/// is pending there.
#[derive(Clone, Copy, Debug, PartialEq, Eq)]
pub enum Q8At {
    Start,
    Piping,
    ForkingFirst { pipe: Pipe },
    ProducerDrops { pipe: Pipe },
    ProducerRedirects { pipe: Pipe },
    ProducerTidies { pipe: Pipe },
    ProducerBecomes { pipe: Pipe },
    FirstForkFailed { pipe: Pipe },
    FirstForkExit { pipe: Pipe },
    ForkingSecond { pipe: Pipe, first: i32 },
    ConsumerDrops { pipe: Pipe, first: i32 },
    ConsumerRedirects { pipe: Pipe, first: i32 },
    ConsumerTidies { pipe: Pipe, first: i32 },
    ConsumerBecomes { pipe: Pipe, first: i32 },
    SecondForkFailed { pipe: Pipe, first: i32 },
    SecondForkExit { pipe: Pipe, first: i32 },
    ParentDropsRead { pipe: Pipe, first: i32, second: i32 },
    ParentDropsWrite { pipe: Pipe, first: i32, second: i32 },
    ReapingFirst { pipe: Pipe, first: i32, second: i32 },
    ReapingSecond { pipe: Pipe, first: i32, second: i32 },
    Finished { pipe: Pipe, first: i32, second: i32 },
}

/// All that the first child does: it drops the read end, puts the write end
/// in the place of standard output, and becomes the lister.
pub open spec fn producer_script(pipe: Pipe) -> Seq<Action> {
    seq![
        Action::OpenPipe,
        Action::Fork,
        Action::Close { fd: pipe.read },
        Action::Duplicate { from: pipe.write, onto: 1 },
        Action::Close { fd: pipe.write },
        Action::Exec(Program::List),
    ]
}

/// All that the second child does: it drops the write end, puts the read end
/// in the place of standard input, and becomes the counter.
pub open spec fn consumer_script(pipe: Pipe) -> Seq<Action> {
    seq![
        Action::OpenPipe,
        Action::Fork,
        Action::Fork,
        Action::Close { fd: pipe.write },
        Action::Duplicate { from: pipe.read, onto: 0 },
        Action::Close { fd: pipe.read },
        Action::Exec(Program::CountLines),
    ]
}

/// All that the parent does: it opens the pipe, forks twice,
/// closes both ends and waits for the first child, then for the second.
pub open spec fn parent_script(pipe: Pipe, first: i32, second: i32) -> Seq<Action> {
    seq![
        Action::OpenPipe,
        Action::Fork,
        Action::Fork,
        Action::Close { fd: pipe.read },
        Action::Close { fd: pipe.write },
        Action::WaitFor { child: first },
        Action::WaitFor { child: second },
        Action::Finish,
    ]
}

/// What the forking process does when its first fork fails.
pub open spec fn first_fork_failed_script() -> Seq<Action> {
    seq![Action::OpenPipe, Action::Fork, Action::Warn(Text::ForkFailed), Action::Exit { code: 1 }]
}

/// What the forking process does when its second fork fails.
pub open spec fn second_fork_failed_script() -> Seq<Action> {
    seq![
        Action::OpenPipe,
        Action::Fork,
        Action::Fork,
        Action::Warn(Text::ForkFailed),
        Action::Exit { code: 1 },
    ]
}

impl Course for Q8At {
    open spec fn start() -> Self {
        Q8At::Start
    }

    open spec fn path(self) -> Seq<Action> {
        match self {
            Q8At::Start => Seq::empty(),
            Q8At::Piping => first_fork_failed_script().take(1),
            Q8At::ForkingFirst { pipe } => first_fork_failed_script().take(2),
            Q8At::ProducerDrops { pipe } => producer_script(pipe).take(3),
            Q8At::ProducerRedirects { pipe } => producer_script(pipe).take(4),
            Q8At::ProducerTidies { pipe } => producer_script(pipe).take(5),
            Q8At::ProducerBecomes { pipe } => producer_script(pipe),
            Q8At::FirstForkFailed { pipe } => first_fork_failed_script().take(3),
            Q8At::FirstForkExit { pipe } => first_fork_failed_script(),
            Q8At::ForkingSecond { pipe, first } => second_fork_failed_script().take(3),
            Q8At::ConsumerDrops { pipe, first } => consumer_script(pipe).take(4),
            Q8At::ConsumerRedirects { pipe, first } => consumer_script(pipe).take(5),
            Q8At::ConsumerTidies { pipe, first } => consumer_script(pipe).take(6),
            Q8At::ConsumerBecomes { pipe, first } => consumer_script(pipe),
            Q8At::SecondForkFailed { pipe, first } => second_fork_failed_script().take(4),
            Q8At::SecondForkExit { pipe, first } => second_fork_failed_script(),
            Q8At::ParentDropsRead { pipe, first, second } => parent_script(
                pipe,
                first,
                second,
            ).take(4),
            Q8At::ParentDropsWrite { pipe, first, second } => parent_script(
                pipe,
                first,
                second,
            ).take(5),
            Q8At::ReapingFirst { pipe, first, second } => parent_script(pipe, first, second).take(
                6,
            ),
            Q8At::ReapingSecond { pipe, first, second } => parent_script(
                pipe,
                first,
                second,
            ).take(7),
            Q8At::Finished { pipe, first, second } => parent_script(pipe, first, second),
        }
    }

    open spec fn next(self, reply: Reply) -> Result<Self, Text> {
        match self {
            Q8At::Start => Ok(Q8At::Piping),
            Q8At::Piping => match reply {
                Reply::Piped(pipe) => Ok(Q8At::ForkingFirst { pipe }),
                _ => Err(Text::PipeFailed),
            },
            Q8At::ForkingFirst { pipe } => match reply {
                Reply::InChild => Ok(Q8At::ProducerDrops { pipe }),
                Reply::InParent { child } => Ok(Q8At::ForkingSecond { pipe, first: child }),
                _ => Ok(Q8At::FirstForkFailed { pipe }),
            },
            Q8At::ProducerDrops { pipe } => match reply {
                Reply::Done => Ok(Q8At::ProducerRedirects { pipe }),
                _ => Err(Text::CloseFailed),
            },
            Q8At::ProducerRedirects { pipe } => match reply {
                Reply::Done => Ok(Q8At::ProducerTidies { pipe }),
                _ => Err(Text::Dup2Failed),
            },
            Q8At::ProducerTidies { pipe } => match reply {
                Reply::Done => Ok(Q8At::ProducerBecomes { pipe }),
                _ => Err(Text::CloseFailed),
            },
            Q8At::ProducerBecomes { pipe } => Err(Text::ListFailed),
            Q8At::FirstForkFailed { pipe } => Ok(Q8At::FirstForkExit { pipe }),
            Q8At::FirstForkExit { pipe } => Ok(self),
            Q8At::ForkingSecond { pipe, first } => match reply {
                Reply::InChild => Ok(Q8At::ConsumerDrops { pipe, first }),
                Reply::InParent { child } => Ok(
                    Q8At::ParentDropsRead { pipe, first, second: child },
                ),
                _ => Ok(Q8At::SecondForkFailed { pipe, first }),
            },
            Q8At::ConsumerDrops { pipe, first } => match reply {
                Reply::Done => Ok(Q8At::ConsumerRedirects { pipe, first }),
                _ => Err(Text::CloseFailed),
            },
            Q8At::ConsumerRedirects { pipe, first } => match reply {
                Reply::Done => Ok(Q8At::ConsumerTidies { pipe, first }),
                _ => Err(Text::Dup2Failed),
            },
            Q8At::ConsumerTidies { pipe, first } => match reply {
                Reply::Done => Ok(Q8At::ConsumerBecomes { pipe, first }),
                _ => Err(Text::CloseFailed),
            },
            Q8At::ConsumerBecomes { pipe, first } => Err(Text::CountFailed),
            Q8At::SecondForkFailed { pipe, first } => Ok(Q8At::SecondForkExit { pipe, first }),
            Q8At::SecondForkExit { pipe, first } => Ok(self),
            Q8At::ParentDropsRead { pipe, first, second } => match reply {
                Reply::Done => Ok(Q8At::ParentDropsWrite { pipe, first, second }),
                _ => Err(Text::CloseFailed),
            },
            Q8At::ParentDropsWrite { pipe, first, second } => match reply {
                Reply::Done => Ok(Q8At::ReapingFirst { pipe, first, second }),
                _ => Err(Text::CloseFailed),
            },
            Q8At::ReapingFirst { pipe, first, second } => match reply {
                Reply::Reaped(_) => Ok(Q8At::ReapingSecond { pipe, first, second }),
                _ => Err(Text::WaitpidFailed),
            },
            Q8At::ReapingSecond { pipe, first, second } => match reply {
                Reply::Reaped(_) => Ok(Q8At::Finished { pipe, first, second }),
                _ => Err(Text::WaitpidFailed),
            },
            Q8At::Finished { pipe, first, second } => Ok(self),
        }
    }

    open spec fn told(self, replies: Seq<Reply>) -> bool {
        match self {
            Q8At::Start => true,
            Q8At::Piping => true,
            Q8At::ForkingFirst { pipe } => replies[1] == Reply::Piped(pipe),
            Q8At::ProducerDrops { pipe }
            | Q8At::ProducerRedirects { pipe }
            | Q8At::ProducerTidies { pipe }
            | Q8At::ProducerBecomes { pipe } => {
                &&& replies[1] == Reply::Piped(pipe)
                &&& replies[2] == Reply::InChild
                &&& forall|k: int| 3 <= k < self.path().len() ==> replies[k] == Reply::Done
            },
            Q8At::FirstForkFailed { pipe } | Q8At::FirstForkExit { pipe } => {
                &&& replies[1] == Reply::Piped(pipe)
                &&& replies[2] !is InChild
                &&& replies[2] !is InParent
            },
            Q8At::ForkingSecond { pipe, first } => {
                &&& replies[1] == Reply::Piped(pipe)
                &&& replies[2] == Reply::InParent { child: first }
            },
            Q8At::ConsumerDrops { pipe, first }
            | Q8At::ConsumerRedirects { pipe, first }
            | Q8At::ConsumerTidies { pipe, first }
            | Q8At::ConsumerBecomes { pipe, first } => {
                &&& replies[1] == Reply::Piped(pipe)
                &&& replies[2] == Reply::InParent { child: first }
                &&& replies[3] == Reply::InChild
                &&& forall|k: int| 4 <= k < self.path().len() ==> replies[k] == Reply::Done
            },
            Q8At::SecondForkFailed { pipe, first } | Q8At::SecondForkExit { pipe, first } => {
                &&& replies[1] == Reply::Piped(pipe)
                &&& replies[2] == Reply::InParent { child: first }
                &&& replies[3] !is InChild
                &&& replies[3] !is InParent
            },
            Q8At::ParentDropsRead { pipe, first, second }
            | Q8At::ParentDropsWrite { pipe, first, second }
            | Q8At::ReapingFirst { pipe, first, second }
            | Q8At::ReapingSecond { pipe, first, second }
            | Q8At::Finished { pipe, first, second } => {
                &&& replies[1] == Reply::Piped(pipe)
                &&& replies[2] == Reply::InParent { child: first }
                &&& replies[3] == Reply::InParent { child: second }
                &&& forall|k: int| 4 <= k < self.path().len() && k < 6 ==> replies[k] == Reply::Done
                &&& forall|k: int| 6 <= k < self.path().len() ==> replies[k] is Reaped
            },
        }
    }

    proof fn path_from_start() {
    }

    proof fn path_grows(self, reply: Reply) {
    }

    proof fn told_reads_the_path(self, one: Seq<Reply>, other: Seq<Reply>) {
    }

    proof fn told_grows(self, replies: Seq<Reply>, reply: Reply) {
    }
}

/// One turn of the pipeline drill.
///
/// The first child is the process for which the first fork reports
/// `InChild`, the second child the one for which the second fork does. A
/// fork that reports anything but a side has failed: the process warns and
/// exits with status 1. Any other action that does not report what it was
/// asked for aborts the process, and so does a reply to an exec, which on
/// success has none.
pub fn q8(stage: Stage<Q8At>, reply: Reply) -> (turn: (Stage<Q8At>, Action))
    ensures
        turn == stage.turn(reply),
{
    if let Some(text) = stage.aborted {
        return (stage, Action::Abort(text));
    }
    let step: Result<(Q8At, Action), Text> = match stage.at {
        Q8At::Start => Ok((Q8At::Piping, Action::OpenPipe)),
        Q8At::Piping => match reply {
            Reply::Piped(pipe) => Ok((Q8At::ForkingFirst { pipe }, Action::Fork)),
            _ => Err(Text::PipeFailed),
        },
        Q8At::ForkingFirst { pipe } => match reply {
            Reply::InChild => Ok((Q8At::ProducerDrops { pipe }, Action::Close { fd: pipe.read })),
            Reply::InParent { child } => Ok(
                (Q8At::ForkingSecond { pipe, first: child }, Action::Fork),
            ),
            _ => Ok((Q8At::FirstForkFailed { pipe }, Action::Warn(Text::ForkFailed))),
        },
        Q8At::ProducerDrops { pipe } => match reply {
            Reply::Done => Ok(
                (
                    Q8At::ProducerRedirects { pipe },
                    Action::Duplicate { from: pipe.write, onto: 1 },
                ),
            ),
            _ => Err(Text::CloseFailed),
        },
        Q8At::ProducerRedirects { pipe } => match reply {
            Reply::Done => Ok((Q8At::ProducerTidies { pipe }, Action::Close { fd: pipe.write })),
            _ => Err(Text::Dup2Failed),
        },
        Q8At::ProducerTidies { pipe } => match reply {
            Reply::Done => Ok((Q8At::ProducerBecomes { pipe }, Action::Exec(Program::List))),
            _ => Err(Text::CloseFailed),
        },
        Q8At::ProducerBecomes { .. } => Err(Text::ListFailed),
        Q8At::FirstForkFailed { pipe } => Ok((Q8At::FirstForkExit { pipe }, Action::Exit { code: 1 })),
        Q8At::FirstForkExit { .. } => Ok((stage.at, Action::Exit { code: 1 })),
        Q8At::ForkingSecond { pipe, first } => match reply {
            Reply::InChild => Ok(
                (Q8At::ConsumerDrops { pipe, first }, Action::Close { fd: pipe.write }),
            ),
            Reply::InParent { child } => Ok(
                (
                    Q8At::ParentDropsRead { pipe, first, second: child },
                    Action::Close { fd: pipe.read },
                ),
            ),
            _ => Ok((Q8At::SecondForkFailed { pipe, first }, Action::Warn(Text::ForkFailed))),
        },
        Q8At::ConsumerDrops { pipe, first } => match reply {
            Reply::Done => Ok(
                (
                    Q8At::ConsumerRedirects { pipe, first },
                    Action::Duplicate { from: pipe.read, onto: 0 },
                ),
            ),
            _ => Err(Text::CloseFailed),
        },
        Q8At::ConsumerRedirects { pipe, first } => match reply {
            Reply::Done => Ok(
                (Q8At::ConsumerTidies { pipe, first }, Action::Close { fd: pipe.read }),
            ),
            _ => Err(Text::Dup2Failed),
        },
        Q8At::ConsumerTidies { pipe, first } => match reply {
            Reply::Done => Ok(
                (Q8At::ConsumerBecomes { pipe, first }, Action::Exec(Program::CountLines)),
            ),
            _ => Err(Text::CloseFailed),
        },
        Q8At::ConsumerBecomes { .. } => Err(Text::CountFailed),
        Q8At::SecondForkFailed { pipe, first } => Ok(
            (Q8At::SecondForkExit { pipe, first }, Action::Exit { code: 1 }),
        ),
        Q8At::SecondForkExit { .. } => Ok((stage.at, Action::Exit { code: 1 })),
        Q8At::ParentDropsRead { pipe, first, second } => match reply {
            Reply::Done => Ok(
                (
                    Q8At::ParentDropsWrite { pipe, first, second },
                    Action::Close { fd: pipe.write },
                ),
            ),
            _ => Err(Text::CloseFailed),
        },
        Q8At::ParentDropsWrite { pipe, first, second } => match reply {
            Reply::Done => Ok(
                (Q8At::ReapingFirst { pipe, first, second }, Action::WaitFor { child: first }),
            ),
            _ => Err(Text::CloseFailed),
        },
        Q8At::ReapingFirst { pipe, first, second } => match reply {
            Reply::Reaped(_) => Ok(
                (Q8At::ReapingSecond { pipe, first, second }, Action::WaitFor { child: second }),
            ),
            _ => Err(Text::WaitpidFailed),
        },
        Q8At::ReapingSecond { pipe, first, second } => match reply {
            Reply::Reaped(_) => Ok((Q8At::Finished { pipe, first, second }, Action::Finish)),
            _ => Err(Text::WaitpidFailed),
        },
        Q8At::Finished { .. } => Ok((stage.at, Action::Finish)),
    };
    stage.settle(Ghost(reply), step)
}

/// A pipe whose two ends came under two different descriptors, neither of
/// them the descriptor of a standard stream.
pub open spec fn fresh(pipe: Pipe) -> bool {
    pipe.read != pipe.write && pipe.read > 2 && pipe.write > 2
}

/// The table of a process right after the pipe was opened.
pub open spec fn piped(pipe: Pipe) -> Map<int, Target> {
    standard_streams().insert(pipe.read as int, Target::PipeRead).insert(
        pipe.write as int,
        Target::PipeWrite,
    )
}

/// The table of every process of a run when it has opened the pipe and
/// forked: the standard streams and the two ends.
proof fn table_after_the_fork(run: Seq<Action>, replies: Seq<Reply>, pipe: Pipe)
    requires
        run[0] == Action::OpenPipe,
        run[1] == Action::Fork,
        replies[1] == Reply::Piped(pipe),
    ensures
        table_at(standard_streams(), run, replies, 2) == piped(pipe),
{
    let start = standard_streams();
    table_moves(start, run, replies, 0);
    table_moves(start, run, replies, 1);
}

/// The table of the first child when it asks to become the lister.
proof fn table_of_the_lister(run: Seq<Action>, replies: Seq<Reply>, pipe: Pipe)
    requires
        fresh(pipe),
        run.len() >= 6,
        run.take(6) == producer_script(pipe),
        replies[1] == Reply::Piped(pipe),
        replies[3] == Reply::Done,
        replies[4] == Reply::Done,
        replies[5] == Reply::Done,
    ensures
        table_at(standard_streams(), run, replies, 5) == piped(pipe).remove(
            pipe.read as int,
        ).insert(1, Target::PipeWrite).remove(pipe.write as int),
{
    let start = standard_streams();
    assert(forall|k: int| 0 <= k < 6 ==> run[k] == #[trigger] run.take(6)[k]);
    assert(run[0] == producer_script(pipe)[0] && run[1] == producer_script(pipe)[1]);
    assert(run[2] == producer_script(pipe)[2] && run[3] == producer_script(pipe)[3]);
    assert(run[4] == producer_script(pipe)[4]);
    table_after_the_fork(run, replies, pipe);
    table_moves(start, run, replies, 2);
    table_moves(start, run, replies, 3);
    table_moves(start, run, replies, 4);
}

/// The table of the second child when it asks to become the counter.
proof fn table_of_the_counter(run: Seq<Action>, replies: Seq<Reply>, pipe: Pipe)
    requires
        fresh(pipe),
        run.len() >= 7,
        run.take(7) == consumer_script(pipe),
        replies[1] == Reply::Piped(pipe),
        replies[4] == Reply::Done,
        replies[5] == Reply::Done,
        replies[6] == Reply::Done,
    ensures
        table_at(standard_streams(), run, replies, 6) == piped(pipe).remove(
            pipe.write as int,
        ).insert(0, Target::PipeRead).remove(pipe.read as int),
{
    let start = standard_streams();
    assert(forall|k: int| 0 <= k < 7 ==> run[k] == #[trigger] run.take(7)[k]);
    assert(run[0] == consumer_script(pipe)[0] && run[1] == consumer_script(pipe)[1]);
    assert(run[2] == consumer_script(pipe)[2] && run[3] == consumer_script(pipe)[3]);
    assert(run[4] == consumer_script(pipe)[4] && run[5] == consumer_script(pipe)[5]);
    table_after_the_fork(run, replies, pipe);
    table_moves(start, run, replies, 2);
    table_moves(start, run, replies, 3);
    table_moves(start, run, replies, 4);
    table_moves(start, run, replies, 5);
}

/// The table of the parent when it has closed both ends, and while it waits.
proof fn table_of_the_parent(
    run: Seq<Action>,
    replies: Seq<Reply>,
    pipe: Pipe,
    first: i32,
    second: i32,
)
    requires
        run.len() >= 6,
        run.take(6) == parent_script(pipe, first, second).take(6),
        replies[1] == Reply::Piped(pipe),
        replies[4] == Reply::Done,
        replies[5] == Reply::Done,
    ensures
        table_at(standard_streams(), run, replies, 5) == piped(pipe).remove(
            pipe.read as int,
        ).remove(pipe.write as int),
        table_at(standard_streams(), run, replies, 6) == table_at(
            standard_streams(),
            run,
            replies,
            5,
        ),
{
    let start = standard_streams();
    let script = parent_script(pipe, first, second);
    assert(forall|k: int| 0 <= k < 6 ==> run[k] == #[trigger] run.take(6)[k]);
    assert(run[0] == script.take(6)[0] && run[1] == script.take(6)[1]);
    assert(run[2] == script.take(6)[2] && run[3] == script.take(6)[3]);
    assert(run[4] == script.take(6)[4] && run[5] == script.take(6)[5]);
    table_after_the_fork(run, replies, pipe);
    table_moves(start, run, replies, 2);
    table_moves(start, run, replies, 3);
    table_moves(start, run, replies, 4);
    table_moves(start, run, replies, 5);
}

/// When a child asks to become its program, the end of the pipe that the
/// program is to use stands in the place of the standard stream and under no
/// other descriptor, and the child holds no descriptor of the other end: the
/// lister has the write end as descriptor 1 and the counter the read end as
/// descriptor 0. This holds of a pipe that came under fresh descriptors.
pub proof fn a_child_is_wired_when_it_becomes_its_program(replies: Seq<Reply>, i: int)
    requires
        0 <= i < issued::<Q8At>(replies).len(),
        issued::<Q8At>(replies)[i] is Exec,
        replies[1] matches Reply::Piped(pipe) ==> fresh(pipe),
    ensures
        ({
            let table = table_at(standard_streams(), issued::<Q8At>(replies), replies, i as nat);
            match issued::<Q8At>(replies)[i] {
                Action::Exec(Program::List) => {
                    &&& holders(table, Target::PipeWrite) == set![1int]
                    &&& holders(table, Target::PipeRead) == Set::<int>::empty()
                },
                Action::Exec(Program::CountLines) => {
                    &&& holders(table, Target::PipeRead) == set![0int]
                    &&& holders(table, Target::PipeWrite) == Set::<int>::empty()
                },
                _ => false,
            }
        }),
{
    let stage = stage_at_action::<Q8At>(replies, i);
    let run = issued::<Q8At>(replies);
    let table = table_at(standard_streams(), run, replies, i as nat);
    match stage.at {
        Q8At::ProducerBecomes { pipe } => {
            assert(stage.aborted is None && i == 5);
            table_of_the_lister(run, replies, pipe);
            assert(holders(table, Target::PipeWrite) =~= set![1int]);
            assert(holders(table, Target::PipeRead) =~= Set::<int>::empty());
        },
        Q8At::ConsumerBecomes { pipe, first } => {
            assert(stage.aborted is None && i == 6);
            table_of_the_counter(run, replies, pipe);
            assert(holders(table, Target::PipeRead) =~= set![0int]);
            assert(holders(table, Target::PipeWrite) =~= Set::<int>::empty());
        },
        _ => {},
    }
}

/// While the parent waits for a child it holds neither end of the
/// pipe, so that the counter sees the end of its input as soon as the lister
/// is gone. This holds of a pipe that came under fresh descriptors.
pub proof fn the_parent_holds_no_end_while_it_waits(replies: Seq<Reply>, i: int)
    requires
        0 <= i < issued::<Q8At>(replies).len(),
        issued::<Q8At>(replies)[i] is WaitFor,
        replies[1] matches Reply::Piped(pipe) ==> fresh(pipe),
    ensures
        ({
            let table = table_at(standard_streams(), issued::<Q8At>(replies), replies, i as nat);
            &&& holders(table, Target::PipeRead) == Set::<int>::empty()
            &&& holders(table, Target::PipeWrite) == Set::<int>::empty()
        }),
{
    let stage = stage_at_action::<Q8At>(replies, i);
    let run = issued::<Q8At>(replies);
    let table = table_at(standard_streams(), run, replies, i as nat);
    match stage.at {
        Q8At::ReapingFirst { pipe, first, second } | Q8At::ReapingSecond { pipe, first, second } => {
            assert(stage.aborted is None);
            assert(run.take(i + 1).take(6) == run.take(6));
            assert(run.take(6) == parent_script(pipe, first, second).take(6));
            table_of_the_parent(run, replies, pipe, first, second);
            assert(holders(table, Target::PipeRead) =~= Set::<int>::empty());
            assert(holders(table, Target::PipeWrite) =~= Set::<int>::empty());
        },
        _ => {},
    }
}

/// The parent finishes only when both children have been reaped:
/// it has waited for the child that its first fork reported and then for the
/// child that its second fork reported, and each wait returned a status.
pub proof fn the_parent_finishes_after_both_children(replies: Seq<Reply>, i: int)
    requires
        0 <= i < issued::<Q8At>(replies).len(),
        issued::<Q8At>(replies)[i] == Action::Finish,
    ensures
        i == 7,
        replies[2] matches Reply::InParent { child } && issued::<Q8At>(replies)[5]
            == (Action::WaitFor { child }),
        replies[3] matches Reply::InParent { child } && issued::<Q8At>(replies)[6]
            == (Action::WaitFor { child }),
        replies[6] is Reaped,
        replies[7] is Reaped,
{
    let stage = stage_at_action::<Q8At>(replies, i);
    let run = issued::<Q8At>(replies);
}

/// No process of the pipeline prints on standard output, writes to a
/// descriptor or reads from one: what flows through the pipe is the
/// programs' own.
pub proof fn the_pipeline_shows_nothing_of_its_own(replies: Seq<Reply>, i: int)
    requires
        0 <= i < issued::<Q8At>(replies).len(),
    ensures
        issued::<Q8At>(replies)[i] !is Print,
        issued::<Q8At>(replies)[i] !is Write,
        issued::<Q8At>(replies)[i] !is Read,
{
    let stage = stage_at_action::<Q8At>(replies, i);
}

} // verus!
