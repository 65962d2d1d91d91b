use nix::errno::Errno;
use nix::sys::wait::WaitStatus;
use nix::unistd::Pid;
use process_drills::call::{Action, Program, Reply, Role, Text};
use process_drills::q1::{own_value, q1, Q1At, BEFORE, IN_CHILD, IN_PARENT};
use process_drills::q4::{q4, Q4At};
use process_drills::q5::{q5, report_of, Outcome, Q5At};
use process_drills::run::Stage;

fn run<P: Copy>(
    drill: fn(Stage<P>, Reply) -> (Stage<P>, Action),
    start: P,
    replies: &[Reply],
) -> (Stage<P>, Vec<Action>) {
    let mut stage = Stage { at: start, aborted: None };
    let mut actions = Vec::new();
    for reply in replies {
        let (next, action) = drill(stage, *reply);
        stage = next;
        actions.push(action);
        if action.is_closing() {
            break;
        }
    }
    (stage, actions)
}

fn exited(pid: i32) -> WaitStatus {
    WaitStatus::Exited(Pid::from_raw(pid), 0)
}

#[test]
fn the_values_of_the_fork_drill() {
    assert_eq!(BEFORE, 100);
    assert_eq!(IN_PARENT, 50);
    assert_eq!(IN_CHILD, 25);
    assert_eq!(own_value(Role::Parent), 50);
    assert_eq!(own_value(Role::Child), 25);
}

#[test]
fn the_parent_of_the_fork_drill_shows_fifty() {
    let replies = [Reply::Done, Reply::Done, Reply::InParent { child: 9 }, Reply::Done, Reply::Done];
    let (stage, actions) = run(q1, Q1At::Start, &replies);
    assert_eq!(
        actions,
        vec![
            Action::Print(Text::BeforeFork { x: 100 }),
            Action::Fork,
            Action::Print(Text::InsideParent { x: 50 }),
            Action::Print(Text::End { x: 50 }),
            Action::Finish,
        ]
    );
    assert_eq!(stage, Stage { at: Q1At::Finished { role: Role::Parent }, aborted: None });
}

#[test]
fn the_child_of_the_fork_drill_shows_twenty_five() {
    let replies = [Reply::Done, Reply::Done, Reply::InChild, Reply::Done, Reply::Done];
    let (stage, actions) = run(q1, Q1At::Start, &replies);
    assert_eq!(
        actions,
        vec![
            Action::Print(Text::BeforeFork { x: 100 }),
            Action::Fork,
            Action::Print(Text::InsideChild { x: 25 }),
            Action::Print(Text::End { x: 25 }),
            Action::Finish,
        ]
    );
    assert_eq!(stage.at, Q1At::Finished { role: Role::Child });
}

#[test]
fn the_two_sides_of_the_fork_drill_agree_before_and_differ_after() {
    let parent = run(q1, Q1At::Start, &[Reply::Done, Reply::Done, Reply::InParent { child: 2 },
        Reply::Done, Reply::Done]).1;
    let child = run(q1, Q1At::Start, &[Reply::Done, Reply::Done, Reply::InChild, Reply::Done,
        Reply::Done]).1;
    assert_eq!(parent[0], child[0]);
    assert_ne!(parent[2], child[2]);
    assert_ne!(parent[3], child[3]);
    assert!(!parent.contains(&Action::Print(Text::End { x: 25 })));
    assert!(!child.contains(&Action::Print(Text::End { x: 50 })));
}

#[test]
fn a_failed_fork_ends_the_fork_drill_with_status_one() {
    let replies = [Reply::Done, Reply::Done, Reply::Failed, Reply::Done, Reply::Done];
    let (stage, actions) = run(q1, Q1At::Start, &replies);
    assert_eq!(
        actions,
        vec![
            Action::Print(Text::BeforeFork { x: 100 }),
            Action::Fork,
            Action::Warn(Text::ForkFailed),
            Action::Exit { code: 1 },
        ]
    );
    assert_eq!(stage.at, Q1At::ForkExit);
    assert_eq!(stage.aborted, None);
}

#[test]
fn a_finished_drill_repeats_its_closing_action() {
    let stage = Stage { at: Q1At::Finished { role: Role::Child }, aborted: None };
    assert_eq!(q1(stage, Reply::Done), (stage, Action::Finish));
    assert_eq!(q1(stage, Reply::InChild), (stage, Action::Finish));
    let stage = Stage { at: Q1At::ForkExit, aborted: None };
    assert_eq!(q1(stage, Reply::Done), (stage, Action::Exit { code: 1 }));
    let stage = Stage { at: Q4At::ChildBecomes, aborted: Some(Text::ExecFailed) };
    assert_eq!(q4(stage, Reply::Done), (stage, Action::Abort(Text::ExecFailed)));
}

#[test]
fn the_child_of_the_exec_drill_becomes_the_lister() {
    let replies = [Reply::Done, Reply::InChild, Reply::Done];
    let (stage, actions) = run(q4, Q4At::Start, &replies);
    assert_eq!(
        actions,
        vec![Action::Fork, Action::Print(Text::AboutToExec), Action::Exec(Program::ListAt)]
    );
    assert_eq!(stage.at, Q4At::ChildBecomes);
}

#[test]
fn an_exec_that_returns_has_failed() {
    for reply in [Reply::Done, Reply::Failed, Reply::InChild, Reply::Reaped(exited(1))] {
        let stage = Stage { at: Q4At::ChildBecomes, aborted: None };
        let (next, action) = q4(stage, reply);
        assert_eq!(action, Action::Abort(Text::ExecFailed));
        assert_eq!(next, Stage { at: Q4At::ChildBecomes, aborted: Some(Text::ExecFailed) });
    }
}

#[test]
fn the_parent_of_the_exec_drill_waits_for_its_child() {
    let replies = [Reply::Done, Reply::InParent { child: 77 }, Reply::Reaped(exited(77))];
    let (stage, actions) = run(q4, Q4At::Start, &replies);
    assert_eq!(actions, vec![Action::Fork, Action::WaitFor { child: 77 }, Action::Finish]);
    assert_eq!(stage.at, Q4At::ParentFinished { child: 77 });
}

#[test]
fn a_failed_wait_aborts_the_parent_of_the_exec_drill() {
    let replies = [Reply::Done, Reply::InParent { child: 77 }, Reply::NotReaped(Errno::ECHILD)];
    let (stage, actions) = run(q4, Q4At::Start, &replies);
    assert_eq!(
        actions,
        vec![Action::Fork, Action::WaitFor { child: 77 }, Action::Abort(Text::WaitFailed)]
    );
    assert_eq!(stage.aborted, Some(Text::WaitFailed));
}

#[test]
fn a_failed_fork_ends_the_exec_drill_with_status_one() {
    let (_, actions) = run(q4, Q4At::Start, &[Reply::Done, Reply::Failed, Reply::Done]);
    assert_eq!(
        actions,
        vec![Action::Fork, Action::Warn(Text::ForkFailed), Action::Exit { code: 1 }]
    );
}

#[test]
fn the_child_of_the_wait_drill_reports_that_it_has_no_children() {
    let replies = [
        Reply::Done,
        Reply::InChild,
        Reply::Pid { pid: 501 },
        Reply::Done,
        Reply::NotReaped(Errno::ECHILD),
        Reply::Done,
    ];
    let (stage, actions) = run(q5, Q5At::Start, &replies);
    assert_eq!(
        actions,
        vec![
            Action::Fork,
            Action::AskPid,
            Action::Print(Text::OwnPid { pid: 501 }),
            Action::WaitAny,
            Action::Print(Text::WaitError { role: Role::Child, errno: Errno::ECHILD }),
            Action::Finish,
        ]
    );
    assert_eq!(
        stage.at,
        Q5At::ChildFinished { pid: 501, outcome: Outcome::Error(Errno::ECHILD) }
    );
}

#[test]
fn the_parent_of_the_wait_drill_reports_the_status_of_its_child() {
    let replies = [
        Reply::Done,
        Reply::InParent { child: 501 },
        Reply::Reaped(exited(501)),
        Reply::Done,
    ];
    let (_, actions) = run(q5, Q5At::Start, &replies);
    assert_eq!(
        actions,
        vec![
            Action::Fork,
            Action::WaitAny,
            Action::Print(Text::Waited { role: Role::Parent, status: exited(501) }),
            Action::Finish,
        ]
    );
    assert!(!actions.contains(&Action::WaitFor { child: 501 }));
}

#[test]
fn both_sides_of_the_wait_drill_ask_for_the_same_wait() {
    let parent = q5(Stage::at(Q5At::Forking), Reply::InParent { child: 501 });
    assert_eq!(parent, (Stage::at(Q5At::ParentWaits { child: 501 }), Action::WaitAny));
    let child = q5(Stage::at(Q5At::ChildSays { pid: 501 }), Reply::Done);
    assert_eq!(child, (Stage::at(Q5At::ChildWaits { pid: 501 }), Action::WaitAny));
    assert_eq!(parent.1, child.1);
}

#[test]
fn each_side_of_the_wait_drill_reports_either_outcome() {
    let at = Stage { at: Q5At::ParentWaits { child: 5 }, aborted: None };
    assert_eq!(
        q5(at, Reply::NotReaped(Errno::EINTR)).1,
        Action::Print(Text::WaitError { role: Role::Parent, errno: Errno::EINTR })
    );
    let at = Stage { at: Q5At::ChildWaits { pid: 5 }, aborted: None };
    assert_eq!(
        q5(at, Reply::Reaped(exited(9))).1,
        Action::Print(Text::Waited { role: Role::Child, status: exited(9) })
    );
    assert_eq!(q5(at, Reply::Done).1, Action::Abort(Text::WaitFailed));
    assert_eq!(
        report_of(Role::Child, Outcome::Error(Errno::ECHILD)),
        Text::WaitError { role: Role::Child, errno: Errno::ECHILD }
    );
    assert_eq!(
        report_of(Role::Parent, Outcome::Status(exited(3))),
        Text::Waited { role: Role::Parent, status: exited(3) }
    );
}

#[test]
fn a_child_that_is_not_told_its_identifier_aborts() {
    let replies = [Reply::Done, Reply::InChild, Reply::Failed];
    let (stage, actions) = run(q5, Q5At::Start, &replies);
    assert_eq!(actions, vec![Action::Fork, Action::AskPid, Action::Abort(Text::PidFailed)]);
    assert_eq!(stage, Stage { at: Q5At::ChildAsks, aborted: Some(Text::PidFailed) });
}

#[test]
fn a_failed_fork_ends_the_wait_drill_with_status_one() {
    let (_, actions) = run(q5, Q5At::Start, &[Reply::Done, Reply::Failed, Reply::Done]);
    assert_eq!(
        actions,
        vec![Action::Fork, Action::Warn(Text::ForkFailed), Action::Exit { code: 1 }]
    );
}

#[test]
fn a_stage_begins_where_it_is_put_and_not_aborted() {
    let stage = Stage::at(Q1At::Start);
    assert_eq!(stage, Stage { at: Q1At::Start, aborted: None });
    assert_eq!(stage.clone(), stage);
    let (next, action) = q1(stage, Reply::Done);
    assert_eq!(action, Action::Print(Text::BeforeFork { x: 100 }));
    assert_eq!(next, Stage::at(Q1At::Announcing));
}
