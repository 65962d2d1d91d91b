use nix::sys::wait::WaitStatus;
use nix::unistd::Pid;
use process_drills::call::{Action, Pipe, Reply, Role, Text};
use process_drills::q2::{q2, Q2At, RECORDS, ROUNDS};
use process_drills::q3::{q3, Q3At, MARKER_LEN};
use process_drills::q7::{q7, Q7At, STDERR, STDOUT};
use process_drills::run::Stage;
use process_drills::text::render;

fn run<P: Copy>(
    drill: fn(Stage<P>, Reply) -> (Stage<P>, Action),
    start: P,
    replies: &[Reply],
) -> (Stage<P>, Vec<Action>) {
    let mut stage = Stage { at: start, aborted: None };
    let mut actions = Vec::new();
    for reply in replies {
        let (next, action) = drill(stage, *reply);
        stage = next;
        actions.push(action);
        if action.is_closing() {
            break;
        }
    }
    (stage, actions)
}

fn whole_side(side: Reply) -> Vec<Action> {
    let mut replies = vec![Reply::Done, Reply::Opened { fd: 3 }, side];
    replies.resize(3 + 2 * 1000 + 1, Reply::Done);
    run(q2, Q2At::Start, &replies).1
}

fn writes_of(actions: &[Action]) -> Vec<String> {
    let mut writes = Vec::new();
    for action in actions {
        if let Action::Write { text, .. } = action {
            writes.push(render(*text));
        }
    }
    writes
}

#[test]
fn the_numbers_of_the_shared_descriptor_drill() {
    assert_eq!(RECORDS, 1000);
    assert_eq!(ROUNDS, 1000000);
}

#[test]
fn a_side_writes_a_thousand_records_and_finishes() {
    let actions = whole_side(Reply::InChild);
    assert_eq!(actions.len(), 2004);
    assert_eq!(actions[0], Action::Create(Text::OutputPath));
    assert_eq!(actions[1], Action::Fork);
    assert_eq!(actions[2], Action::Print(Text::HasDescriptor { role: Role::Child, fd: 3 }));
    for j in 0..1000 {
        assert_eq!(
            actions[3 + 2 * j],
            Action::Write { fd: 3, text: Text::Record { role: Role::Child, index: j as u32 } }
        );
        assert_eq!(actions[4 + 2 * j], Action::Spin { rounds: 1000000 });
    }
    assert_eq!(actions[2003], Action::Finish);
}

#[test]
fn the_parent_writes_its_own_records() {
    let actions = whole_side(Reply::InParent { child: 40 });
    assert_eq!(actions.len(), 2004);
    assert_eq!(actions[2], Action::Print(Text::HasDescriptor { role: Role::Parent, fd: 3 }));
    assert_eq!(
        actions[3],
        Action::Write { fd: 3, text: Text::Record { role: Role::Parent, index: 0 } }
    );
    assert_eq!(
        actions[2001],
        Action::Write { fd: 3, text: Text::Record { role: Role::Parent, index: 999 } }
    );
    assert_eq!(actions[2002], Action::Spin { rounds: 1000000 });
    assert_eq!(actions[2003], Action::Finish);
}

#[test]
fn the_last_record_is_followed_by_the_end() {
    let at = Q2At::Spinning { role: Role::Child, fd: 3, index: 998 };
    assert_eq!(
        q2(Stage { at, aborted: None }, Reply::Done),
        (
            Stage { at: Q2At::Writing { role: Role::Child, fd: 3, index: 999 }, aborted: None },
            Action::Write { fd: 3, text: Text::Record { role: Role::Child, index: 999 } },
        )
    );
    let at = Q2At::Spinning { role: Role::Child, fd: 3, index: 999 };
    assert_eq!(
        q2(Stage { at, aborted: None }, Reply::Done),
        (
            Stage { at: Q2At::Finished { role: Role::Child, fd: 3, last: 999 }, aborted: None },
            Action::Finish,
        )
    );
}

#[test]
fn every_interleaving_leaves_two_thousand_whole_lines() {
    let parent = writes_of(&whole_side(Reply::InParent { child: 40 }));
    let child = writes_of(&whole_side(Reply::InChild));
    assert_eq!(parent.len(), 1000);
    assert_eq!(child.len(), 1000);
    for stride in [1usize, 2, 3, 7, 1000] {
        let mut file = String::new();
        let (mut p, mut c) = (0usize, 0usize);
        let mut turn = 0usize;
        while p < 1000 || c < 1000 {
            let parents_turn = (turn / stride) % 2 == 0;
            if (parents_turn && p < 1000) || c == 1000 {
                file.push_str(&parent[p]);
                p += 1;
            } else {
                file.push_str(&child[c]);
                c += 1;
            }
            turn += 1;
        }
        let lines: Vec<&str> = file.lines().collect();
        assert_eq!(lines.len(), 2000);
        assert!(file.ends_with('\n'));
        let of_parent: Vec<&str> =
            lines.iter().copied().filter(|line| line.starts_with("parent ")).collect();
        let of_child: Vec<&str> =
            lines.iter().copied().filter(|line| line.starts_with("child ")).collect();
        assert_eq!(of_parent.len(), 1000);
        assert_eq!(of_child.len(), 1000);
        for j in 0..1000 {
            assert_eq!(of_parent[j], format!("parent {}", j));
            assert_eq!(of_child[j], format!("child {}", j));
        }
    }
}

#[test]
fn a_failed_write_aborts_the_side() {
    let replies = [
        Reply::Done,
        Reply::Opened { fd: 5 },
        Reply::InChild,
        Reply::Done,
        Reply::Done,
        Reply::Done,
        Reply::Failed,
        Reply::Done,
    ];
    let (stage, actions) = run(q2, Q2At::Start, &replies);
    assert_eq!(actions.len(), 7);
    assert_eq!(
        actions[5],
        Action::Write { fd: 5, text: Text::Record { role: Role::Child, index: 1 } }
    );
    assert_eq!(actions[6], Action::Abort(Text::WriteFailed));
    assert_eq!(
        stage,
        Stage {
            at: Q2At::Writing { role: Role::Child, fd: 5, index: 1 },
            aborted: Some(Text::WriteFailed),
        }
    );
}

#[test]
fn a_file_that_cannot_be_created_aborts_the_drill() {
    let (stage, actions) = run(q2, Q2At::Start, &[Reply::Done, Reply::Failed, Reply::Done]);
    assert_eq!(
        actions,
        vec![Action::Create(Text::OutputPath), Action::Abort(Text::CreateFailed)]
    );
    assert_eq!(stage.aborted, Some(Text::CreateFailed));
}

#[test]
fn a_failed_fork_ends_the_shared_descriptor_drill_with_status_one() {
    let replies = [Reply::Done, Reply::Opened { fd: 3 }, Reply::Failed, Reply::Done];
    let (_, actions) = run(q2, Q2At::Start, &replies);
    assert_eq!(
        actions,
        vec![
            Action::Create(Text::OutputPath),
            Action::Fork,
            Action::Warn(Text::ForkFailed),
            Action::Exit { code: 1 },
        ]
    );
}

#[test]
fn the_child_of_the_handshake_says_hello_and_then_signals() {
    let pipe = Pipe { read: 3, write: 4 };
    let replies = [
        Reply::Done,
        Reply::Piped(pipe),
        Reply::InChild,
        Reply::Done,
        Reply::Done,
        Reply::Done,
    ];
    let (stage, actions) = run(q3, Q3At::Start, &replies);
    assert_eq!(
        actions,
        vec![
            Action::OpenPipe,
            Action::Fork,
            Action::Print(Text::Hello),
            Action::Write { fd: 4, text: Text::Marker },
            Action::Close { fd: 4 },
            Action::Finish,
        ]
    );
    assert_eq!(stage.at, Q3At::ChildFinished { pipe });
}

#[test]
fn the_parent_of_the_handshake_reads_and_then_says_goodbye() {
    let pipe = Pipe { read: 3, write: 4 };
    let replies = [
        Reply::Done,
        Reply::Piped(pipe),
        Reply::InParent { child: 8 },
        Reply::Done,
        Reply::Done,
        Reply::Done,
        Reply::Done,
    ];
    let (_, actions) = run(q3, Q3At::Start, &replies);
    assert_eq!(MARKER_LEN, 4);
    assert_eq!(
        actions,
        vec![
            Action::OpenPipe,
            Action::Fork,
            Action::Close { fd: 4 },
            Action::Read { fd: 3, len: 4 },
            Action::Close { fd: 3 },
            Action::Print(Text::Goodbye),
            Action::Finish,
        ]
    );
}

#[test]
fn a_short_read_is_a_hard_error() {
    let pipe = Pipe { read: 3, write: 4 };
    let replies = [
        Reply::Done,
        Reply::Piped(pipe),
        Reply::InParent { child: 8 },
        Reply::Done,
        Reply::Failed,
    ];
    let (stage, actions) = run(q3, Q3At::Start, &replies);
    assert_eq!(
        actions,
        vec![
            Action::OpenPipe,
            Action::Fork,
            Action::Close { fd: 4 },
            Action::Read { fd: 3, len: 4 },
            Action::Abort(Text::ReadFailed),
        ]
    );
    assert!(!actions.contains(&Action::Print(Text::Goodbye)));
    assert_eq!(stage.aborted, Some(Text::ReadFailed));
}

#[test]
fn a_parent_that_cannot_close_the_write_end_does_not_read() {
    let pipe = Pipe { read: 3, write: 4 };
    let replies = [Reply::Done, Reply::Piped(pipe), Reply::InParent { child: 8 }, Reply::Failed];
    let (stage, actions) = run(q3, Q3At::Start, &replies);
    assert_eq!(
        actions,
        vec![
            Action::OpenPipe,
            Action::Fork,
            Action::Close { fd: 4 },
            Action::Abort(Text::CloseFailed),
        ]
    );
    assert_eq!(stage, Stage { at: Q3At::ParentDrops { pipe }, aborted: Some(Text::CloseFailed) });
}

#[test]
fn the_handshake_fails_with_its_pipe_its_write_and_its_fork() {
    let (_, actions) = run(q3, Q3At::Start, &[Reply::Done, Reply::Failed]);
    assert_eq!(actions, vec![Action::OpenPipe, Action::Abort(Text::PipeFailed)]);
    let pipe = Pipe { read: 3, write: 4 };
    let replies = [Reply::Done, Reply::Piped(pipe), Reply::InChild, Reply::Done, Reply::Failed];
    let (_, actions) = run(q3, Q3At::Start, &replies);
    assert_eq!(actions[4], Action::Abort(Text::WriteFailed));
    let replies = [Reply::Done, Reply::Piped(pipe), Reply::Failed, Reply::Done];
    let (_, actions) = run(q3, Q3At::Start, &replies);
    assert_eq!(
        actions,
        vec![
            Action::OpenPipe,
            Action::Fork,
            Action::Warn(Text::ForkFailed),
            Action::Exit { code: 1 },
        ]
    );
}

#[test]
fn the_child_of_the_closed_stream_drill_goes_on_after_the_write_fails() {
    assert_eq!(STDOUT, 1);
    assert_eq!(STDERR, 2);
    for outcome in [Reply::Failed, Reply::Done] {
        let replies = [
            Reply::Done,
            Reply::InChild,
            Reply::Done,
            Reply::Done,
            Reply::Done,
            outcome,
            Reply::Done,
        ];
        let (stage, actions) = run(q7, Q7At::Start, &replies);
        assert_eq!(
            actions,
            vec![
                Action::Fork,
                Action::Print(Text::BeforeClosing),
                Action::Close { fd: 1 },
                Action::Print(Text::AfterClosing),
                Action::Write { fd: 1, text: Text::DirectWrite },
                Action::Warn(Text::StderrStillOpen),
                Action::Finish,
            ]
        );
        assert_eq!(stage.at, Q7At::ChildFinished);
    }
}

#[test]
fn a_failed_close_aborts_the_child() {
    let replies = [Reply::Done, Reply::InChild, Reply::Done, Reply::Failed];
    let (stage, actions) = run(q7, Q7At::Start, &replies);
    assert_eq!(
        actions,
        vec![
            Action::Fork,
            Action::Print(Text::BeforeClosing),
            Action::Close { fd: 1 },
            Action::Abort(Text::CloseFailed),
        ]
    );
    assert_eq!(stage, Stage { at: Q7At::ChildCloses, aborted: Some(Text::CloseFailed) });
}

#[test]
fn the_parent_of_the_closed_stream_drill_still_prints() {
    let status = WaitStatus::Exited(Pid::from_raw(31), 0);
    let replies = [Reply::Done, Reply::InParent { child: 31 }, Reply::Reaped(status), Reply::Done];
    let (_, actions) = run(q7, Q7At::Start, &replies);
    assert_eq!(
        actions,
        vec![
            Action::Fork,
            Action::WaitFor { child: 31 },
            Action::Print(Text::ParentStillPrints),
            Action::Finish,
        ]
    );
    let replies = [Reply::Done, Reply::InParent { child: 31 }, Reply::Failed];
    let (_, actions) = run(q7, Q7At::Start, &replies);
    assert_eq!(actions[2], Action::Abort(Text::WaitFailed));
    let (_, actions) = run(q7, Q7At::Start, &[Reply::Done, Reply::Failed, Reply::Done]);
    assert_eq!(
        actions,
        vec![Action::Fork, Action::Warn(Text::ForkFailed), Action::Exit { code: 1 }]
    );
}
