//! What two processes leave in a file that they write through one shared
//! offset.
//!
//! The descriptor was opened before the fork, so parent and child move one
//! offset: every write lands where the last one ended, whoever made it. The
//! file is then the writes laid end to end in the order in which they were
//! served, and the order in which the two processes take turns, the
//! schedule, is any at all.

use vstd::prelude::*;
use crate::call::{side_of, Action, Reply, Role, Text};
use crate::q2::{a_finished_process_has_written_every_record, Q2At, RECORDS};
use crate::run::issued;
use crate::text::{decimal_is_digits, lead};

verus! {

/// How many turns of a schedule are the given side's.
pub open spec fn turns(schedule: Seq<Role>, role: Role) -> nat
    decreases schedule.len(),
{
    if schedule.len() == 0 {
        0
    } else {
        turns(schedule.drop_last(), role) + if schedule.last() == role {
            1nat
        } else {
            0nat
        }
    }
}

/// The records in the order in which a schedule serves them: at each turn
/// the side whose turn it is writes the next of its records.
pub open spec fn served(schedule: Seq<Role>) -> Seq<Text>
    decreases schedule.len(),
{
    if schedule.len() == 0 {
        Seq::empty()
    } else {
        served(schedule.drop_last()).push(
            Text::Record {
                role: schedule.last(),
                index: turns(schedule.drop_last(), schedule.last()) as u32,
            },
        )
    }
}

/// What the file holds after these writes: each lands at the shared offset
/// and moves it to its own end.
pub open spec fn contents(writes: Seq<Text>) -> Seq<char>
    decreases writes.len(),
{
    if writes.len() == 0 {
        Seq::empty()
    } else {
        contents(writes.drop_last()) + lead(writes.last())
    }
}

/// A text that is one line: it ends with a newline and has no other.
pub open spec fn one_line(text: Seq<char>) -> bool {
    &&& text.len() > 0
    &&& text.last() == '\n'
    &&& forall|i: int| 0 <= i < text.len() - 1 ==> text[i] != '\n'
}

/// Where the last line of a text begins: after its last newline, or at its
/// beginning if it has none.
pub open spec fn last_break(text: Seq<char>) -> int
    decreases text.len(),
{
    if text.len() == 0 {
        0
    } else if text.last() == '\n' {
        text.len() as int
    } else {
        last_break(text.drop_last())
    }
}

/// The lines of a text, each with its newline. The last line of a text that
/// does not end with a newline is the rest after the last newline.
pub open spec fn lines(text: Seq<char>) -> Seq<Seq<char>>
    decreases text.len(),
    via lines_decreases
{
    if text.len() == 0 {
        Seq::empty()
    } else {
        let begin = last_break(text.drop_last());
        lines(text.take(begin)).push(text.skip(begin))
    }
}

proof fn last_break_is_within(text: Seq<char>)
    ensures
        0 <= last_break(text) <= text.len(),
    decreases text.len(),
{
    if text.len() > 0 && text.last() != '\n' {
        last_break_is_within(text.drop_last());
    }
}

#[via_fn]
proof fn lines_decreases(text: Seq<char>) {
    if text.len() > 0 {
        last_break_is_within(text.drop_last());
    }
}

/// The records among some writes that are the given side's, in order.
pub open spec fn records_of(writes: Seq<Text>, role: Role) -> Seq<Text>
    decreases writes.len(),
{
    if writes.len() == 0 {
        Seq::empty()
    } else if writes.last() matches Text::Record { role: side, .. } && side == role {
        records_of(writes.drop_last(), role).push(writes.last())
    } else {
        records_of(writes.drop_last(), role)
    }
}

/// The first `n` records of a side, in order.
pub open spec fn first_records(role: Role, n: nat) -> Seq<Text> {
    Seq::new(n, |j: int| Text::Record { role, index: j as u32 })
}

/// A record is one line.
pub proof fn a_record_is_one_line(role: Role, index: u32)
    ensures
        one_line(lead(Text::Record { role, index })),
{
    reveal_strlit("parent");
    reveal_strlit("child");
    reveal_strlit(" ");
    reveal_strlit("\n");
    decimal_is_digits(index as nat);
}

proof fn last_break_skips_a_line(before: Seq<char>, more: Seq<char>)
    requires
        before.len() == 0 || before.last() == '\n',
        forall|i: int| 0 <= i < more.len() ==> more[i] != '\n',
    ensures
        last_break(before + more) == before.len(),
    decreases more.len(),
{
    if more.len() == 0 {
        assert(before + more == before);
    } else {
        assert((before + more).drop_last() == before + more.drop_last());
        last_break_skips_a_line(before, more.drop_last());
    }
}

/// A file made of whole lines only ends with a newline or is empty, and its
/// lines are the lines it was made of.
proof fn whole_lines_stay_whole(writes: Seq<Text>)
    requires
        forall|k: int| 0 <= k < writes.len() ==> one_line(lead(#[trigger] writes[k])),
    ensures
        contents(writes).len() == 0 || contents(writes).last() == '\n',
        lines(contents(writes)) == writes.map_values(|text: Text| lead(text)),
    decreases writes.len(),
{
    if writes.len() == 0 {
        assert(lines(contents(writes)) =~= writes.map_values(|text: Text| lead(text)));
    } else {
        let rest = writes.drop_last();
        let line = lead(writes.last());
        let before = contents(rest);
        let all = contents(writes);
        whole_lines_stay_whole(rest);
        assert(one_line(lead(writes[writes.len() - 1])));
        assert(all.drop_last() == before + line.drop_last());
        last_break_skips_a_line(before, line.drop_last());
        assert(all.take(before.len() as int) == before);
        assert(all.skip(before.len() as int) == line);
        assert(lines(all) == lines(before).push(line));
        assert(lines(all) =~= writes.map_values(|text: Text| lead(text)));
    }
}

proof fn every_record_is_served(schedule: Seq<Role>, role: Role)
    ensures
        served(schedule).len() == schedule.len(),
        records_of(served(schedule), role) == first_records(role, turns(schedule, role)),
        forall|k: int| 0 <= k < schedule.len() ==> #[trigger] served(schedule)[k] is Record,
    decreases schedule.len(),
{
    if schedule.len() == 0 {
        assert(records_of(served(schedule), role) =~= first_records(role, 0));
    } else {
        let rest = schedule.drop_last();
        every_record_is_served(rest, role);
        assert(served(schedule).drop_last() == served(rest));
        assert(records_of(served(schedule), role) =~= first_records(role, turns(schedule, role)));
    }
}

proof fn every_turn_is_a_side_s(schedule: Seq<Role>)
    ensures
        schedule.len() == turns(schedule, Role::Parent) + turns(schedule, Role::Child),
    decreases schedule.len(),
{
    if schedule.len() > 0 {
        every_turn_is_a_side_s(schedule.drop_last());
    }
}

/// Whatever the order in which parent and child take turns, the file holds
/// what was written and nothing else: its lines are the records in the order
/// in which they were served, none cut short and none written over, and the
/// records of each side are all among them, once each and in that side's
/// order.
pub proof fn interleaving_keeps_every_record(schedule: Seq<Role>)
    ensures
        lines(contents(served(schedule))) == served(schedule).map_values(|text: Text| lead(text)),
        lines(contents(served(schedule))).len() == schedule.len(),
        records_of(served(schedule), Role::Parent) == first_records(
            Role::Parent,
            turns(schedule, Role::Parent),
        ),
        records_of(served(schedule), Role::Child) == first_records(
            Role::Child,
            turns(schedule, Role::Child),
        ),
{
    every_record_is_served(schedule, Role::Parent);
    every_record_is_served(schedule, Role::Child);
    assert forall|k: int| 0 <= k < served(schedule).len() implies one_line(
        lead(#[trigger] served(schedule)[k]),
    ) by {
        match served(schedule)[k] {
            Text::Record { role, index } => {
                a_record_is_one_line(role, index);
            },
            _ => {},
        }
    }
    whole_lines_stay_whole(served(schedule));
}

/// When parent and child have each written all of their records, the file
/// has twice as many lines as a side has records, whatever the order in
/// which the two took turns.
pub proof fn the_file_has_every_line(schedule: Seq<Role>)
    requires
        turns(schedule, Role::Parent) == RECORDS,
        turns(schedule, Role::Child) == RECORDS,
    ensures
        lines(contents(served(schedule))).len() == 2 * RECORDS,
        records_of(served(schedule), Role::Parent) == first_records(Role::Parent, RECORDS as nat),
        records_of(served(schedule), Role::Child) == first_records(Role::Child, RECORDS as nat),
{
    interleaving_keeps_every_record(schedule);
    every_turn_is_a_side_s(schedule);
}

/// The records that a schedule serves for a side are the records that a
/// process of the drill writes on that side: in a run that finishes, write
/// number `j` of the process, which is its action at index `3 + 2 * j`,
/// carries record `j` of its side, and goes to the descriptor under which the
/// file was opened.
pub proof fn a_process_writes_what_the_schedule_serves(replies: Seq<Reply>, i: int, j: int)
    requires
        0 <= i < issued::<Q2At>(replies).len(),
        issued::<Q2At>(replies)[i] == Action::Finish,
        0 <= j < RECORDS,
    ensures
        replies[1] matches Reply::Opened { fd } && issued::<Q2At>(replies)[3 + 2 * j] == (
        Action::Write { fd, text: first_records(side_of(replies[2]), RECORDS as nat)[j] }),
{
    a_finished_process_has_written_every_record(replies, i);
}

} // verus!
