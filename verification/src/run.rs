//! What all drills have in common: a run is a walk along a path of actions.
//!
//! Every drill is a tree. Each position in it is reached by exactly one
//! sequence of actions, its path, and the reply to the last of them decides
//! which position comes next. A process stands at a [`Stage`]: a position,
//! and whether it has aborted there.

use vstd::prelude::*;
use crate::call::{Action, Reply, Text};

verus! {

/// The positions of one drill.
pub trait Course: Sized {
    /// Where every process begins, before it has asked for anything.
    spec fn start() -> Self;

    /// The actions a process has issued, in order, when it stands here. The
    /// last of them is the one whose reply it waits for.
    spec fn path(self) -> Seq<Action>;

    /// Where the reply to the pending action leads: to a position, or to an
    /// abort with the text given.
    spec fn next(self, reply: Reply) -> Result<Self, Text>;

    /// What the operating system must have replied for a process to stand
    /// here. `replies[0]` is what the first turn was given, which no drill
    /// reads, and `replies[k]` is the reply to the action `path()[k - 1]`.
    spec fn told(self, replies: Seq<Reply>) -> bool;

    /// Nothing has been asked for at the start, and nothing replied.
    proof fn path_from_start()
        ensures
            Self::start().path() == Seq::<Action>::empty(),
            Self::start().told(Seq::empty()),
    ;

    /// A step adds one action to the path and changes none before it.
    proof fn path_grows(self, reply: Reply)
        requires
            !ended(self.path()),
        ensures
            self.next(reply) matches Ok(after) ==> after.path().len() > 0
                && after.path().drop_last() == self.path(),
    ;

    /// What a position was told is a matter of the replies to its path only.
    proof fn told_reads_the_path(self, one: Seq<Reply>, other: Seq<Reply>)
        requires
            self.told(one),
            forall|k: int| 0 <= k < self.path().len() ==> one[k] == other[k],
        ensures
            self.told(other),
    ;

    /// A step is taken on the reply that `told` names for it.
    proof fn told_grows(self, replies: Seq<Reply>, reply: Reply)
        requires
            !ended(self.path()),
            replies.len() == self.path().len(),
            self.told(replies),
        ensures
            self.next(reply) matches Ok(after) ==> after.told(replies.push(reply)),
    ;
}

/// Whether the last action of a script ends the process.
pub open spec fn ended(script: Seq<Action>) -> bool {
    script.len() > 0 && script.last().closes()
}

/// Where a process stands in a drill.
#[derive(Debug, PartialEq, Eq)]
pub struct Stage<P> {
    /// The position whose action was issued last.
    pub at: P,
    /// The text the process aborted with, if the action at `at` failed fatally.
    pub aborted: Option<Text>,
}

impl<P: Copy> Clone for Stage<P> {
    fn clone(&self) -> (copy: Self)
        ensures
            copy == *self,
    {
        *self
    }
}

impl<P: Copy> Copy for Stage<P> {

}

impl<P: Course> Stage<P> {
    /// The stage every run begins at.
    pub open spec fn first() -> Self {
        Stage { at: P::start(), aborted: None }
    }

    /// A stage at the given position, of a process that has not aborted.
    pub fn at(at: P) -> (stage: Self)
        ensures
            stage == (Stage { at, aborted: None }),
    {
        Stage { at, aborted: None }
    }

    /// Everything the process has issued so far.
    pub open spec fn script(self) -> Seq<Action> {
        match self.aborted {
            Some(text) => self.at.path().push(Action::Abort(text)),
            None => self.at.path(),
        }
    }

    /// Whether the process has issued its closing action.
    pub open spec fn over(self) -> bool {
        ended(self.script())
    }

    /// Where a reply leads.
    pub open spec fn follow(self, reply: Reply) -> Self {
        if self.over() {
            self
        } else {
            match self.at.next(reply) {
                Ok(at) => Stage { at, aborted: None },
                Err(text) => Stage { at: self.at, aborted: Some(text) },
            }
        }
    }

    /// One turn of the drill: the stage a reply leads to, and the action
    /// issued on arriving there. Once the process is over, every turn repeats
    /// its closing action.
    pub open spec fn turn(self, reply: Reply) -> (Self, Action) {
        (self.follow(reply), self.follow(reply).script().last())
    }

    /// Completes a turn from what the drill's table says of it: the position
    /// the reply leads to and the action pending there, or the text to abort
    /// with.
    pub(crate) fn settle(self, Ghost(reply): Ghost<Reply>, step: Result<(P, Action), Text>) -> (turn:
        (Self, Action))
        requires
            self.aborted is None,
            match step {
                Ok((at, action)) => at.path().len() > 0 && at.path().last() == action && (if ended(
                    self.at.path(),
                ) {
                    at == self.at
                } else {
                    self.at.next(reply) == Ok::<P, Text>(at)
                }),
                Err(text) => !ended(self.at.path()) && self.at.next(reply) == Err::<P, Text>(text),
            },
        ensures
            turn == self.turn(reply),
    {
        match step {
            Ok((at, action)) => (Stage { at, aborted: None }, action),
            Err(text) => (Stage { at: self.at, aborted: Some(text) }, Action::Abort(text)),
        }
    }
}

/// The stage a process stands at after its driver has handed it these
/// replies, one per turn. Replies that come after the closing action change
/// nothing.
pub open spec fn reached<P: Course>(replies: Seq<Reply>) -> Stage<P>
    decreases replies.len(),
{
    if replies.len() == 0 {
        Stage::first()
    } else {
        reached::<P>(replies.drop_last()).turn(replies.last()).0
    }
}

/// The actions a driver has performed when it has handed in these replies:
/// what each turn returned, up to the closing action.
pub open spec fn issued<P: Course>(replies: Seq<Reply>) -> Seq<Action>
    decreases replies.len(),
{
    if replies.len() == 0 {
        Seq::empty()
    } else {
        let before = reached::<P>(replies.drop_last());
        if before.over() {
            issued::<P>(replies.drop_last())
        } else {
            issued::<P>(replies.drop_last()).push(before.turn(replies.last()).1)
        }
    }
}

/// Whatever the operating system replies, what a process has issued is the
/// script of the stage it has reached.
pub proof fn run_follows_script<P: Course>(replies: Seq<Reply>)
    ensures
        issued::<P>(replies) == reached::<P>(replies).script(),
    decreases replies.len(),
{
    if replies.len() == 0 {
        P::path_from_start();
    } else {
        let before = reached::<P>(replies.drop_last());
        run_follows_script::<P>(replies.drop_last());
        if !before.over() {
            before.at.path_grows(replies.last());
            let after = before.follow(replies.last());
            assert(after.script().drop_last() == before.script());
            assert(after.script() == before.script().push(after.script().last()));
        }
    }
}

/// Until its closing action a process issues one action per reply.
pub proof fn one_action_per_reply<P: Course>(replies: Seq<Reply>)
    ensures
        issued::<P>(replies).len() <= replies.len(),
        !reached::<P>(replies).over() ==> issued::<P>(replies).len() == replies.len(),
    decreases replies.len(),
{
    if replies.len() > 0 {
        one_action_per_reply::<P>(replies.drop_last());
    }
}

/// Whatever the operating system replies, it has replied what the position
/// reached says it was told.
pub proof fn run_was_told<P: Course>(replies: Seq<Reply>)
    ensures
        reached::<P>(replies).at.path().len() <= replies.len(),
        reached::<P>(replies).at.told(replies.take(reached::<P>(replies).at.path().len() as int)),
        reached::<P>(replies).aborted matches Some(text) ==> {
            let at = reached::<P>(replies).at;
            at.path().len() < replies.len() && at.next(replies[at.path().len() as int]) == Err::<
                P,
                Text,
            >(text)
        },
    decreases replies.len(),
{
    if replies.len() == 0 {
        P::path_from_start();
        assert(replies.take(0) == Seq::<Reply>::empty());
    } else {
        let rest = replies.drop_last();
        let before = reached::<P>(rest);
        let n = before.at.path().len() as int;
        run_was_told::<P>(rest);
        assert(rest.take(n) == replies.take(n));
        if !before.over() {
            one_action_per_reply::<P>(rest);
            run_follows_script::<P>(rest);
            assert(rest.take(n) == rest);
            before.at.path_grows(replies.last());
            before.at.told_grows(rest, replies.last());
            assert(rest.push(replies.last()) == replies);
            assert(replies.take(n + 1) == replies);
        }
    }
}

/// The action at index `i` of a run is the one that turn `i` returned, and
/// up to it the run is the script of the stage that turn led to.
pub proof fn action_of_turn<P: Course>(replies: Seq<Reply>, i: int)
    requires
        0 <= i < issued::<P>(replies).len(),
    ensures
        i < replies.len(),
        !reached::<P>(replies.take(i)).over(),
        reached::<P>(replies.take(i + 1)) == reached::<P>(replies.take(i)).follow(replies[i]),
        reached::<P>(replies.take(i + 1)).script() == issued::<P>(replies).take(i + 1),
    decreases replies.len(),
{
    let rest = replies.drop_last();
    one_action_per_reply::<P>(rest);
    if i < issued::<P>(rest).len() {
        action_of_turn::<P>(rest, i);
        assert(rest.take(i) == replies.take(i));
        assert(rest.take(i + 1) == replies.take(i + 1));
        assert(issued::<P>(rest).take(i + 1) == issued::<P>(replies).take(i + 1));
    } else {
        assert(rest.take(i) == rest);
        assert(replies.take(i) == rest);
        assert(replies.take(i + 1) == replies);
        run_follows_script::<P>(replies);
        assert(issued::<P>(replies).take(i + 1) == issued::<P>(replies));
    }
}

/// Whatever the operating system replies, a closing action is the last thing
/// a process issues.
pub proof fn nothing_follows_a_closing_action<P: Course>(replies: Seq<Reply>, i: int)
    requires
        0 <= i < issued::<P>(replies).len(),
        issued::<P>(replies)[i].closes(),
    ensures
        i == issued::<P>(replies).len() - 1,
    decreases replies.len(),
{
    if replies.len() > 0 {
        let before = reached::<P>(replies.drop_last());
        run_follows_script::<P>(replies.drop_last());
        if before.over() || i < issued::<P>(replies.drop_last()).len() {
            nothing_follows_a_closing_action::<P>(replies.drop_last(), i);
        }
    }
}

/// The stage at which the action at index `i` of a run was issued: its
/// script is the run up to that action, and the replies are what its position
/// says it was told.
pub proof fn stage_at_action<P: Course>(replies: Seq<Reply>, i: int) -> (stage: Stage<P>)
    requires
        0 <= i < issued::<P>(replies).len(),
    ensures
        i < replies.len(),
        stage == reached::<P>(replies.take(i + 1)),
        stage.script() == issued::<P>(replies).take(i + 1),
        stage.script().len() == i + 1,
        stage.script().last() == issued::<P>(replies)[i],
        forall|k: int|
            0 <= k <= i ==> stage.script()[k] == #[trigger] issued::<P>(replies)[k],
        stage.at.told(replies),
        stage.aborted matches Some(text) ==> stage.at.next(replies[i]) == Err::<P, Text>(text),
{
    action_of_turn::<P>(replies, i);
    let stage = reached::<P>(replies.take(i + 1));
    let n = stage.at.path().len() as int;
    run_was_told::<P>(replies.take(i + 1));
    let seen = replies.take(i + 1).take(n);
    assert(forall|k: int| 0 <= k < n ==> seen[k] == replies[k]);
    stage.at.told_reads_the_path(seen, replies);
    stage
}

/// What a process has issued after some of the replies stays as it is when
/// more replies come.
pub proof fn run_extends<P: Course>(replies: Seq<Reply>, n: int)
    requires
        0 <= n <= replies.len(),
    ensures
        issued::<P>(replies.take(n)).len() <= issued::<P>(replies).len(),
        issued::<P>(replies).take(issued::<P>(replies.take(n)).len() as int) == issued::<P>(
            replies.take(n),
        ),
    decreases replies.len() - n,
{
    if n == replies.len() {
        assert(replies.take(n) == replies);
    } else {
        run_extends::<P>(replies.drop_last(), n);
        assert(replies.drop_last().take(n) == replies.take(n));
    }
}

/// A process that is not over answers the next reply with the action that
/// its turn returns.
pub proof fn turn_after<P: Course>(replies: Seq<Reply>, k: int)
    requires
        0 <= k < replies.len(),
        !reached::<P>(replies.take(k)).over(),
    ensures
        issued::<P>(replies).len() > k,
        issued::<P>(replies)[k] == reached::<P>(replies.take(k)).turn(replies[k]).1,
        reached::<P>(replies.take(k + 1)) == reached::<P>(replies.take(k)).follow(replies[k]),
{
    let more = replies.take(k + 1);
    let before = reached::<P>(replies.take(k));
    assert(more.drop_last() == replies.take(k));
    assert(more.last() == replies[k]);
    one_action_per_reply::<P>(replies.take(k));
    assert(issued::<P>(more) == issued::<P>(replies.take(k)).push(before.turn(replies[k]).1));
    run_extends::<P>(replies, k + 1);
    assert(issued::<P>(replies).take(k + 1)[k] == issued::<P>(more)[k]);
}

} // verus!
