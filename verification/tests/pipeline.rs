use nix::errno::Errno;
use nix::sys::wait::WaitStatus;
use nix::unistd::Pid;
use process_drills::call::{Action, Pipe, Program, Reply, Text};
use process_drills::q6::{q6, Q6At, FIRST_NAP, SECOND_NAP};
use process_drills::q8::{q8, Q8At};
use process_drills::run::Stage;

fn run<P: Copy>(
    drill: fn(Stage<P>, Reply) -> (Stage<P>, Action),
    start: P,
    replies: &[Reply],
) -> (Stage<P>, Vec<Action>) {
    let mut stage = Stage { at: start, aborted: None };
    let mut actions = Vec::new();
    for reply in replies {
        let (next, action) = drill(stage, *reply);
        stage = next;
        actions.push(action);
        if action.is_closing() {
            break;
        }
    }
    (stage, actions)
}

fn exited(pid: i32) -> WaitStatus {
    WaitStatus::Exited(Pid::from_raw(pid), 0)
}

#[test]
fn the_lister_is_wired_to_the_write_end() {
    let pipe = Pipe { read: 3, write: 4 };
    let replies = [
        Reply::Done,
        Reply::Piped(pipe),
        Reply::InChild,
        Reply::Done,
        Reply::Done,
        Reply::Done,
    ];
    let (stage, actions) = run(q8, Q8At::Start, &replies);
    assert_eq!(
        actions,
        vec![
            Action::OpenPipe,
            Action::Fork,
            Action::Close { fd: 3 },
            Action::Duplicate { from: 4, onto: 1 },
            Action::Close { fd: 4 },
            Action::Exec(Program::List),
        ]
    );
    let (stage, action) = q8(stage, Reply::Failed);
    assert_eq!(action, Action::Abort(Text::ListFailed));
    assert_eq!(stage.aborted, Some(Text::ListFailed));
}

#[test]
fn the_counter_is_wired_to_the_read_end() {
    let pipe = Pipe { read: 5, write: 6 };
    let replies = [
        Reply::Done,
        Reply::Piped(pipe),
        Reply::InParent { child: 100 },
        Reply::InChild,
        Reply::Done,
        Reply::Done,
        Reply::Done,
    ];
    let (stage, actions) = run(q8, Q8At::Start, &replies);
    assert_eq!(
        actions,
        vec![
            Action::OpenPipe,
            Action::Fork,
            Action::Fork,
            Action::Close { fd: 6 },
            Action::Duplicate { from: 5, onto: 0 },
            Action::Close { fd: 5 },
            Action::Exec(Program::CountLines),
        ]
    );
    assert_eq!(q8(stage, Reply::Done).1, Action::Abort(Text::CountFailed));
}

#[test]
fn the_parent_closes_both_ends_and_reaps_both_children() {
    let pipe = Pipe { read: 3, write: 4 };
    let replies = [
        Reply::Done,
        Reply::Piped(pipe),
        Reply::InParent { child: 100 },
        Reply::InParent { child: 101 },
        Reply::Done,
        Reply::Done,
        Reply::Reaped(exited(100)),
        Reply::Reaped(exited(101)),
    ];
    let (stage, actions) = run(q8, Q8At::Start, &replies);
    assert_eq!(
        actions,
        vec![
            Action::OpenPipe,
            Action::Fork,
            Action::Fork,
            Action::Close { fd: 3 },
            Action::Close { fd: 4 },
            Action::WaitFor { child: 100 },
            Action::WaitFor { child: 101 },
            Action::Finish,
        ]
    );
    assert_eq!(stage.at, Q8At::Finished { pipe, first: 100, second: 101 });
}

#[test]
fn the_pipeline_aborts_on_what_fails() {
    let pipe = Pipe { read: 3, write: 4 };
    let (_, actions) = run(q8, Q8At::Start, &[Reply::Done, Reply::Failed]);
    assert_eq!(actions, vec![Action::OpenPipe, Action::Abort(Text::PipeFailed)]);

    let at = |at: Q8At| Stage { at, aborted: None };
    assert_eq!(
        q8(at(Q8At::ProducerDrops { pipe }), Reply::Failed).1,
        Action::Abort(Text::CloseFailed)
    );
    assert_eq!(
        q8(at(Q8At::ProducerRedirects { pipe }), Reply::Failed).1,
        Action::Abort(Text::Dup2Failed)
    );
    assert_eq!(
        q8(at(Q8At::ProducerTidies { pipe }), Reply::Failed).1,
        Action::Abort(Text::CloseFailed)
    );
    assert_eq!(
        q8(at(Q8At::ConsumerDrops { pipe, first: 1 }), Reply::Failed).1,
        Action::Abort(Text::CloseFailed)
    );
    assert_eq!(
        q8(at(Q8At::ConsumerRedirects { pipe, first: 1 }), Reply::Failed).1,
        Action::Abort(Text::Dup2Failed)
    );
    assert_eq!(
        q8(at(Q8At::ParentDropsWrite { pipe, first: 1, second: 2 }), Reply::Failed).1,
        Action::Abort(Text::CloseFailed)
    );
    assert_eq!(
        q8(at(Q8At::ReapingFirst { pipe, first: 1, second: 2 }), Reply::NotReaped(Errno::ECHILD)).1,
        Action::Abort(Text::WaitpidFailed)
    );
    assert_eq!(
        q8(at(Q8At::ReapingSecond { pipe, first: 1, second: 2 }), Reply::Done).1,
        Action::Abort(Text::WaitpidFailed)
    );
}

#[test]
fn a_failed_fork_ends_the_pipeline_with_status_one() {
    let pipe = Pipe { read: 3, write: 4 };
    let replies = [Reply::Done, Reply::Piped(pipe), Reply::Failed, Reply::Done];
    let (_, actions) = run(q8, Q8At::Start, &replies);
    assert_eq!(
        actions,
        vec![
            Action::OpenPipe,
            Action::Fork,
            Action::Warn(Text::ForkFailed),
            Action::Exit { code: 1 },
        ]
    );
    let replies =
        [Reply::Done, Reply::Piped(pipe), Reply::InParent { child: 9 }, Reply::Failed, Reply::Done];
    let (_, actions) = run(q8, Q8At::Start, &replies);
    assert_eq!(
        actions,
        vec![
            Action::OpenPipe,
            Action::Fork,
            Action::Fork,
            Action::Warn(Text::ForkFailed),
            Action::Exit { code: 1 },
        ]
    );
}

#[test]
fn the_first_child_sleeps_for_one_second() {
    assert_eq!(FIRST_NAP, 1);
    let replies = [Reply::Done, Reply::InChild, Reply::Pid { pid: 200 }, Reply::Done, Reply::Done];
    let (_, actions) = run(q6, Q6At::Start, &replies);
    assert_eq!(
        actions,
        vec![
            Action::Fork,
            Action::AskPid,
            Action::Print(Text::NumberedPid { child: 1, pid: 200 }),
            Action::Sleep { seconds: 1 },
            Action::Exit { code: 0 },
        ]
    );
}

#[test]
fn the_second_child_sleeps_for_two_seconds() {
    assert_eq!(SECOND_NAP, 2);
    let replies = [
        Reply::Done,
        Reply::InParent { child: 200 },
        Reply::InChild,
        Reply::Pid { pid: 201 },
        Reply::Done,
        Reply::Done,
    ];
    let (_, actions) = run(q6, Q6At::Start, &replies);
    assert_eq!(
        actions,
        vec![
            Action::Fork,
            Action::Fork,
            Action::AskPid,
            Action::Print(Text::NumberedPid { child: 2, pid: 201 }),
            Action::Sleep { seconds: 2 },
            Action::Exit { code: 0 },
        ]
    );
}

#[test]
fn the_parent_waits_for_the_second_child_only() {
    let replies = [
        Reply::Done,
        Reply::InParent { child: 200 },
        Reply::InParent { child: 201 },
        Reply::Reaped(exited(201)),
        Reply::Done,
    ];
    let (stage, actions) = run(q6, Q6At::Start, &replies);
    assert_eq!(
        actions,
        vec![
            Action::Fork,
            Action::Fork,
            Action::WaitFor { child: 201 },
            Action::Print(Text::SecondChildFinished),
            Action::Finish,
        ]
    );
    assert!(!actions.contains(&Action::WaitFor { child: 200 }));
    assert!(!actions.contains(&Action::WaitAny));
    assert_eq!(stage.at, Q6At::Finished { first: 200, second: 201 });
}

#[test]
fn the_reaping_drill_aborts_on_what_fails() {
    let replies =
        [Reply::Done, Reply::InParent { child: 200 }, Reply::InParent { child: 201 }, Reply::Failed];
    let (stage, actions) = run(q6, Q6At::Start, &replies);
    assert_eq!(actions[3], Action::Abort(Text::WaitpidFailed));
    assert!(!actions.contains(&Action::Print(Text::SecondChildFinished)));
    assert_eq!(stage.aborted, Some(Text::WaitpidFailed));
    let (_, actions) = run(q6, Q6At::Start, &[Reply::Done, Reply::InChild, Reply::Done]);
    assert_eq!(actions[2], Action::Abort(Text::PidFailed));
    let (_, actions) = run(q6, Q6At::Start, &[Reply::Done, Reply::Failed, Reply::Done]);
    assert_eq!(
        actions,
        vec![Action::Fork, Action::Warn(Text::ForkFailed), Action::Exit { code: 1 }]
    );
    let replies = [Reply::Done, Reply::InParent { child: 200 }, Reply::Failed, Reply::Done];
    let (_, actions) = run(q6, Q6At::Start, &replies);
    assert_eq!(
        actions,
        vec![
            Action::Fork,
            Action::Fork,
            Action::Warn(Text::ForkFailed),
            Action::Exit { code: 1 },
        ]
    );
}
