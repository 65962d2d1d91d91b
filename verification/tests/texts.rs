use nix::errno::Errno;
use nix::sys::wait::WaitStatus;
use nix::unistd::Pid;
use process_drills::call::{Action, Program, Role, Text};
use process_drills::text::{
    command, lead_text, render, report_text, signed_text, unsigned_text,
};

#[test]
fn unsigned_numbers_are_written_in_decimal() {
    assert_eq!(unsigned_text(0), "0");
    assert_eq!(unsigned_text(7), "7");
    assert_eq!(unsigned_text(9), "9");
    assert_eq!(unsigned_text(10), "10");
    assert_eq!(unsigned_text(100), "100");
    assert_eq!(unsigned_text(999), "999");
    assert_eq!(unsigned_text(1000000), "1000000");
    assert_eq!(unsigned_text(4294967295), "4294967295");
    assert_eq!(unsigned_text(u64::MAX), "18446744073709551615");
}

#[test]
fn unsigned_numbers_agree_with_the_standard_library() {
    let mut n: u64 = 0;
    while n < 3000 {
        assert_eq!(unsigned_text(n), format!("{}", n));
        n += 1;
    }
    let mut n: u64 = 1;
    while n < u64::MAX / 7 {
        assert_eq!(unsigned_text(n), format!("{}", n));
        assert_eq!(unsigned_text(n - 1), format!("{}", n - 1));
        n *= 7;
    }
}

#[test]
fn signed_numbers_carry_their_sign() {
    assert_eq!(signed_text(0), "0");
    assert_eq!(signed_text(3), "3");
    assert_eq!(signed_text(-1), "-1");
    assert_eq!(signed_text(-10), "-10");
    assert_eq!(signed_text(4242), "4242");
    assert_eq!(signed_text(i32::MAX), "2147483647");
    assert_eq!(signed_text(i32::MIN), "-2147483648");
}

#[test]
fn the_fork_drill_words_its_lines() {
    assert_eq!(render(Text::BeforeFork { x: 100 }), "before fork: 100");
    assert_eq!(render(Text::InsideParent { x: 50 }), "inside parent: 50");
    assert_eq!(render(Text::InsideChild { x: 25 }), "inside child: 25");
    assert_eq!(render(Text::End { x: 50 }), "end: 50");
    assert_eq!(render(Text::End { x: 25 }), "end: 25");
    assert_eq!(render(Text::ForkFailed), "fork failed");
}

#[test]
fn the_shared_descriptor_drill_words_its_lines() {
    assert_eq!(render(Text::OutputPath), "./q2.output");
    assert_eq!(render(Text::HasDescriptor { role: Role::Child, fd: 3 }), "Child has fd: 3");
    assert_eq!(render(Text::HasDescriptor { role: Role::Parent, fd: 12 }), "Parent has fd: 12");
    assert_eq!(render(Text::Record { role: Role::Child, index: 0 }), "child 0\n");
    assert_eq!(render(Text::Record { role: Role::Child, index: 999 }), "child 999\n");
    assert_eq!(render(Text::Record { role: Role::Parent, index: 17 }), "parent 17\n");
    assert_eq!(render(Text::CreateFailed), "failed to create file");
    assert_eq!(render(Text::WriteFailed), "write failed");
}

#[test]
fn a_record_is_worded_as_one_line() {
    let mut index: u32 = 0;
    while index < 1000 {
        let child = render(Text::Record { role: Role::Child, index });
        let parent = render(Text::Record { role: Role::Parent, index });
        assert_eq!(child, format!("child {}\n", index));
        assert_eq!(parent, format!("parent {}\n", index));
        assert_eq!(child.matches('\n').count(), 1);
        assert!(parent.ends_with('\n'));
        index += 1;
    }
}

#[test]
fn the_handshake_drill_words_its_lines() {
    assert_eq!(render(Text::Hello), "hello");
    assert_eq!(render(Text::Goodbye), "goodbye");
    assert_eq!(render(Text::Marker), "done");
    assert_eq!(render(Text::Marker).len(), 4);
    assert_eq!(render(Text::PipeFailed), "pipe failed");
    assert_eq!(render(Text::ReadFailed), "read failed");
}

#[test]
fn the_exec_drill_words_its_lines() {
    assert_eq!(render(Text::AboutToExec), "child: about to exec ls");
    assert_eq!(render(Text::ExecFailed), "exec failed");
    assert_eq!(render(Text::WaitFailed), "wait failed");
}

#[test]
fn the_reaping_drill_words_its_lines() {
    assert_eq!(render(Text::OwnPid { pid: 4711 }), "child: pid 4711");
    assert_eq!(render(Text::NumberedPid { child: 1, pid: 300 }), "child 1: pid 300");
    assert_eq!(render(Text::NumberedPid { child: 2, pid: 301 }), "child 2: pid 301");
    assert_eq!(render(Text::SecondChildFinished), "parent: child 2 finished");
    assert_eq!(render(Text::WaitpidFailed), "waitpid failed");
    assert_eq!(render(Text::PidFailed), "getpid failed");
}

#[test]
fn the_closed_stream_drill_words_its_lines() {
    assert_eq!(
        render(Text::BeforeClosing),
        "child before closing stdout: this should print"
    );
    assert_eq!(
        render(Text::AfterClosing),
        "child after closing stdout: this shouldn't show"
    );
    assert_eq!(render(Text::DirectWrite), "try direct write\n");
    assert_eq!(render(Text::StderrStillOpen), "child stderr: this should print");
    assert_eq!(render(Text::ParentStillPrints), "parent: still can print");
    assert_eq!(render(Text::CloseFailed), "close failed");
}

#[test]
fn the_pipeline_drill_words_its_faults() {
    assert_eq!(render(Text::Dup2Failed), "dup2 failed");
    assert_eq!(render(Text::ListFailed), "ls failed");
    assert_eq!(render(Text::CountFailed), "wc failed");
}

#[test]
fn a_status_is_shown_as_nix_writes_it() {
    let status = WaitStatus::Exited(Pid::from_raw(4242), 0);
    assert_eq!(
        render(Text::Waited { role: Role::Parent, status }),
        "parent wait returned: Exited(Pid(4242), 0)"
    );
    assert_eq!(
        render(Text::Waited { role: Role::Child, status }),
        format!("child wait returned: {:?}", status)
    );
    let other = WaitStatus::Exited(Pid::from_raw(7), 3);
    assert_eq!(
        render(Text::Waited { role: Role::Parent, status: other }),
        "parent wait returned: Exited(Pid(7), 3)"
    );
    assert_eq!(
        render(Text::Waited { role: Role::Parent, status: WaitStatus::StillAlive }),
        "parent wait returned: StillAlive"
    );
}

#[test]
fn an_error_is_shown_as_nix_writes_it() {
    assert_eq!(
        render(Text::WaitError { role: Role::Child, errno: Errno::ECHILD }),
        "child wait returned error: ECHILD: No child processes"
    );
    assert_eq!(
        render(Text::WaitError { role: Role::Parent, errno: Errno::EINTR }),
        format!("parent wait returned error: {}", Errno::EINTR)
    );
    assert_ne!(
        render(Text::WaitError { role: Role::Parent, errno: Errno::EINTR }),
        render(Text::WaitError { role: Role::Parent, errno: Errno::ECHILD })
    );
}

#[test]
fn the_lead_of_a_report_stops_before_the_words_of_nix() {
    let status = WaitStatus::Exited(Pid::from_raw(1), 0);
    assert_eq!(lead_text(Text::Waited { role: Role::Parent, status }), "parent wait returned: ");
    assert_eq!(lead_text(Text::Waited { role: Role::Child, status }), "child wait returned: ");
    assert_eq!(
        lead_text(Text::WaitError { role: Role::Child, errno: Errno::ECHILD }),
        "child wait returned error: "
    );
    assert_eq!(
        lead_text(Text::WaitError { role: Role::Parent, errno: Errno::ECHILD }),
        "parent wait returned error: "
    );
    assert_eq!(lead_text(Text::Hello), "hello");
}

#[test]
fn a_report_is_its_lead_and_what_was_returned() {
    let text = Text::WaitError { role: Role::Child, errno: Errno::ECHILD };
    assert_eq!(report_text(text, "no children"), "child wait returned error: no children");
    assert_eq!(report_text(text, ""), "child wait returned error: ");
    let status = WaitStatus::Exited(Pid::from_raw(1), 0);
    assert_eq!(
        report_text(Text::Waited { role: Role::Parent, status }, "status"),
        "parent wait returned: status"
    );
}

#[test]
fn command_lines_name_the_program_first() {
    assert_eq!(command(Program::ListAt), vec!["/bin/ls".to_string()]);
    assert_eq!(command(Program::List), vec!["ls".to_string()]);
    assert_eq!(command(Program::CountLines), vec!["wc".to_string(), "-l".to_string()]);
}

#[test]
fn closing_actions_are_exit_abort_and_finish() {
    assert!(Action::Finish.is_closing());
    assert!(Action::Exit { code: 0 }.is_closing());
    assert!(Action::Exit { code: 1 }.is_closing());
    assert!(Action::Abort(Text::PipeFailed).is_closing());
    assert!(!Action::Fork.is_closing());
    assert!(!Action::OpenPipe.is_closing());
    assert!(!Action::Exec(Program::List).is_closing());
    assert!(!Action::Print(Text::Hello).is_closing());
    assert!(!Action::Warn(Text::ForkFailed).is_closing());
    assert!(!Action::WaitAny.is_closing());
    assert!(!Action::WaitFor { child: 1 }.is_closing());
    assert!(!Action::Close { fd: 1 }.is_closing());
    assert!(!Action::Sleep { seconds: 1 }.is_closing());
}
