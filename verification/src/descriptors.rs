//! A model of the descriptor table of one process, to state what a drill's
//! closing and duplicating amounts to.
//!
//! A forked child starts with a copy of its parent's table, so the table of
//! a process follows from everything on its script, the part before the fork
//! included.

use vstd::prelude::*;
use crate::call::{Action, Reply};

verus! {

/// What an open descriptor refers to.
pub enum Target {
    /// One of the three standard streams the process was started with.
    Stream,
    /// The read end of the drill's pipe.
    PipeRead,
    /// The write end of the drill's pipe.
    PipeWrite,
    /// The file the drill created.
    Output,
}

/// The table of a process that has its three standard streams and nothing else.
pub open spec fn standard_streams() -> Map<int, Target> {
    map![0int => Target::Stream, 1int => Target::Stream, 2int => Target::Stream]
}

/// The table after an action that got this reply. An action that failed, and
/// one that acts on no descriptor, leave the table as it was.
pub open spec fn effect(table: Map<int, Target>, action: Action, reply: Reply) -> Map<
    int,
    Target,
> {
    match (action, reply) {
        (Action::OpenPipe, Reply::Piped(pipe)) => table.insert(
            pipe.read as int,
            Target::PipeRead,
        ).insert(pipe.write as int, Target::PipeWrite),
        (Action::Create(_), Reply::Opened { fd }) => table.insert(fd as int, Target::Output),
        (Action::Close { fd }, Reply::Done) => table.remove(fd as int),
        (Action::Duplicate { from, onto }, Reply::Done) => if table.dom().contains(from as int) {
            table.insert(onto as int, table[from as int])
        } else {
            table
        },
        _ => table,
    }
}

/// The table of a process at the moment it issues `actions[n]`: it began
/// with `table`, and `replies[k + 1]` is the reply to `actions[k]`.
pub open spec fn table_at(
    table: Map<int, Target>,
    actions: Seq<Action>,
    replies: Seq<Reply>,
    n: nat,
) -> Map<int, Target>
    decreases n,
{
    if n == 0 {
        table
    } else {
        effect(
            table_at(table, actions, replies, (n - 1) as nat),
            actions[n - 1],
            replies[n as int],
        )
    }
}

/// The descriptors of a table that refer to the target.
pub open spec fn holders(table: Map<int, Target>, target: Target) -> Set<int> {
    Set::new(|fd: int| table.dom().contains(fd) && table[fd] == target)
}

/// The table at the next action is the table at this one, changed by this
/// action and its reply.
pub proof fn table_moves(
    table: Map<int, Target>,
    actions: Seq<Action>,
    replies: Seq<Reply>,
    n: nat,
)
    ensures
        table_at(table, actions, replies, n + 1) == effect(
            table_at(table, actions, replies, n),
            actions[n as int],
            replies[n as int + 1],
        ),
{
}

/// Whether an action leaves every table as it is, whatever its reply.
pub open spec fn keeps_table(action: Action) -> bool {
    !(action is OpenPipe || action is Create || action is Close || action is Duplicate)
}

/// The table does not change while a process opens, closes and duplicates
/// nothing.
pub proof fn table_stays(
    table: Map<int, Target>,
    actions: Seq<Action>,
    replies: Seq<Reply>,
    from: nat,
    to: nat,
)
    requires
        from <= to,
        forall|k: int| from <= k < to ==> keeps_table(#[trigger] actions[k]),
    ensures
        table_at(table, actions, replies, to) == table_at(table, actions, replies, from),
    decreases to - from,
{
    if from < to {
        table_stays(table, actions, replies, from, (to - 1) as nat);
    }
}

} // verus!
