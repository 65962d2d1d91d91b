//! The wording of every text a drill prints or writes, and of the command
//! lines it becomes.

use vstd::prelude::*;
use vstd::string::*;
use crate::call::{Program, Role, Text};

verus! {

/// The character of a decimal digit.
pub open spec fn digit(d: int) -> char {
    if d == 0 {
        '0'
    } else if d == 1 {
        '1'
    } else if d == 2 {
        '2'
    } else if d == 3 {
        '3'
    } else if d == 4 {
        '4'
    } else if d == 5 {
        '5'
    } else if d == 6 {
        '6'
    } else if d == 7 {
        '7'
    } else if d == 8 {
        '8'
    } else {
        '9'
    }
}

/// A natural number in decimal, without sign or leading zeros.
pub open spec fn decimal(n: nat) -> Seq<char>
    decreases n,
{
    if n < 10 {
        seq![digit(n as int)]
    } else {
        decimal(n / 10).push(digit((n % 10) as int))
    }
}

/// An integer in decimal, with a minus sign before a negative one.
pub open spec fn signed_decimal(n: int) -> Seq<char> {
    if n < 0 {
        seq!['-'] + decimal((-n) as nat)
    } else {
        decimal(n as nat)
    }
}

/// How a side of a fork is named at the head of a line.
pub open spec fn role_name(role: Role) -> Seq<char> {
    match role {
        Role::Parent => "parent"@,
        Role::Child => "child"@,
    }
}

/// How a side of a fork is named at the head of a sentence.
pub open spec fn role_title(role: Role) -> Seq<char> {
    match role {
        Role::Parent => "Parent"@,
        Role::Child => "Child"@,
    }
}

/// The wording of a text. Of a text that reports what a wait returned this
/// is the part before the status or error, which `nix` words.
pub open spec fn lead(text: Text) -> Seq<char> {
    match text {
        Text::BeforeFork { x } => "before fork: "@ + decimal(x as nat),
        Text::InsideParent { x } => "inside parent: "@ + decimal(x as nat),
        Text::InsideChild { x } => "inside child: "@ + decimal(x as nat),
        Text::End { x } => "end: "@ + decimal(x as nat),
        Text::ForkFailed => "fork failed"@,
        Text::OutputPath => "./q2.output"@,
        Text::HasDescriptor { role, fd } => role_title(role) + " has fd: "@ + signed_decimal(
            fd as int,
        ),
        Text::Record { role, index } => role_name(role) + " "@ + decimal(index as nat) + "\n"@,
        Text::CreateFailed => "failed to create file"@,
        Text::WriteFailed => "write failed"@,
        Text::Hello => "hello"@,
        Text::Goodbye => "goodbye"@,
        Text::Marker => "done"@,
        Text::PipeFailed => "pipe failed"@,
        Text::ReadFailed => "read failed"@,
        Text::AboutToExec => "child: about to exec ls"@,
        Text::ExecFailed => "exec failed"@,
        Text::WaitFailed => "wait failed"@,
        Text::OwnPid { pid } => "child: pid "@ + signed_decimal(pid as int),
        Text::Waited { role, status } => role_name(role) + " wait returned: "@,
        Text::WaitError { role, errno } => role_name(role) + " wait returned error: "@,
        Text::PidFailed => "getpid failed"@,
        Text::NumberedPid { child, pid } => "child "@ + decimal(child as nat) + ": pid "@
            + signed_decimal(pid as int),
        Text::SecondChildFinished => "parent: child 2 finished"@,
        Text::WaitpidFailed => "waitpid failed"@,
        Text::BeforeClosing => "child before closing stdout: this should print"@,
        Text::AfterClosing => "child after closing stdout: this shouldn't show"@,
        Text::DirectWrite => "try direct write\n"@,
        Text::StderrStillOpen => "child stderr: this should print"@,
        Text::ParentStillPrints => "parent: still can print"@,
        Text::CloseFailed => "close failed"@,
        Text::Dup2Failed => "dup2 failed"@,
        Text::ListFailed => "ls failed"@,
        Text::CountFailed => "wc failed"@,
    }
}

/// What `nix` writes for the status that a wait returned: the text that
/// `Debug` of `nix::sys::wait::WaitStatus` gives for it.
pub uninterp spec fn status_shown(status: nix::sys::wait::WaitStatus) -> Seq<char>;

/// What `nix` writes for the error that a wait returned: the text that
/// `Display` of `nix::errno::Errno` gives for it.
pub uninterp spec fn errno_shown(errno: nix::errno::Errno) -> Seq<char>;

/// The wording of a text in full. A text that reports what a wait returned
/// is its lead and then the status or the error as `nix` writes it; every
/// other text is its lead.
pub open spec fn shown(text: Text) -> Seq<char> {
    match text {
        Text::Waited { status, .. } => lead(text) + status_shown(status),
        Text::WaitError { errno, .. } => lead(text) + errno_shown(errno),
        _ => lead(text),
    }
}

/// The words of a command line, the program's name first.
pub open spec fn command_words(program: Program) -> Seq<Seq<char>> {
    match program {
        Program::ListAt => seq!["/bin/ls"@],
        Program::List => seq!["ls"@],
        Program::CountLines => seq!["wc"@, "-l"@],
    }
}

/// A number in decimal has at least one character, and each is a digit.
pub proof fn decimal_is_digits(n: nat)
    ensures
        decimal(n).len() > 0,
        forall|i: int| 0 <= i < decimal(n).len() ==> '0' <= #[trigger] decimal(n)[i] <= '9',
    decreases n,
{
    if n >= 10 {
        decimal_is_digits(n / 10);
    }
}

fn digit_str(d: u64) -> (s: &'static str)
    requires
        d < 10,
    ensures
        s@ == seq![digit(d as int)],
{
    proof {
        reveal_strlit("0");
        reveal_strlit("1");
        reveal_strlit("2");
        reveal_strlit("3");
        reveal_strlit("4");
        reveal_strlit("5");
        reveal_strlit("6");
        reveal_strlit("7");
        reveal_strlit("8");
        reveal_strlit("9");
    }
    let s = if d == 0 {
        "0"
    } else if d == 1 {
        "1"
    } else if d == 2 {
        "2"
    } else if d == 3 {
        "3"
    } else if d == 4 {
        "4"
    } else if d == 5 {
        "5"
    } else if d == 6 {
        "6"
    } else if d == 7 {
        "7"
    } else if d == 8 {
        "8"
    } else {
        "9"
    };
    assert(s@ =~= seq![digit(d as int)]);
    s
}

/// Writes a number in decimal.
pub fn unsigned_text(n: u64) -> (text: String)
    ensures
        text@ == decimal(n as nat),
    decreases n,
{
    if n < 10 {
        String::from_str(digit_str(n))
    } else {
        let head = unsigned_text(n / 10);
        let text = head.concat(digit_str(n % 10));
        assert(text@ =~= decimal(n as nat));
        text
    }
}

/// Writes a number in decimal, with a minus sign before a negative one.
pub fn signed_text(n: i32) -> (text: String)
    ensures
        text@ == signed_decimal(n as int),
{
    if n < 0 {
        proof {
            reveal_strlit("-");
        }
        let digits = unsigned_text((-(n as i64)) as u64);
        let text = String::from_str("-").concat(digits.as_str());
        assert(text@ =~= signed_decimal(n as int));
        text
    } else {
        unsigned_text(n as u64)
    }
}

fn role_name_str(role: Role) -> (s: &'static str)
    ensures
        s@ == role_name(role),
{
    match role {
        Role::Parent => "parent",
        Role::Child => "child",
    }
}

fn role_title_str(role: Role) -> (s: &'static str)
    ensures
        s@ == role_title(role),
{
    match role {
        Role::Parent => "Parent",
        Role::Child => "Child",
    }
}

/// Words a text as far as this library words it: all of it, but for the
/// status or the error at the end of a text that reports a wait.
pub fn lead_text(text: Text) -> (words: String)
    ensures
        words@ == lead(text),
{
    match text {
        Text::BeforeFork { x } => String::from_str("before fork: ").concat(
            unsigned_text(x as u64).as_str(),
        ),
        Text::InsideParent { x } => String::from_str("inside parent: ").concat(
            unsigned_text(x as u64).as_str(),
        ),
        Text::InsideChild { x } => String::from_str("inside child: ").concat(
            unsigned_text(x as u64).as_str(),
        ),
        Text::End { x } => String::from_str("end: ").concat(unsigned_text(x as u64).as_str()),
        Text::ForkFailed => String::from_str("fork failed"),
        Text::OutputPath => String::from_str("./q2.output"),
        Text::HasDescriptor { role, fd } => String::from_str(role_title_str(role)).concat(
            " has fd: ",
        ).concat(signed_text(fd).as_str()),
        Text::Record { role, index } => String::from_str(role_name_str(role)).concat(" ").concat(
            unsigned_text(index as u64).as_str(),
        ).concat("\n"),
        Text::CreateFailed => String::from_str("failed to create file"),
        Text::WriteFailed => String::from_str("write failed"),
        Text::Hello => String::from_str("hello"),
        Text::Goodbye => String::from_str("goodbye"),
        Text::Marker => String::from_str("done"),
        Text::PipeFailed => String::from_str("pipe failed"),
        Text::ReadFailed => String::from_str("read failed"),
        Text::AboutToExec => String::from_str("child: about to exec ls"),
        Text::ExecFailed => String::from_str("exec failed"),
        Text::WaitFailed => String::from_str("wait failed"),
        Text::OwnPid { pid } => String::from_str("child: pid ").concat(signed_text(pid).as_str()),
        Text::Waited { role, .. } => String::from_str(role_name_str(role)).concat(
            " wait returned: ",
        ),
        Text::WaitError { role, .. } => String::from_str(role_name_str(role)).concat(
            " wait returned error: ",
        ),
        Text::PidFailed => String::from_str("getpid failed"),
        Text::NumberedPid { child, pid } => String::from_str("child ").concat(
            unsigned_text(child as u64).as_str(),
        ).concat(": pid ").concat(signed_text(pid).as_str()),
        Text::SecondChildFinished => String::from_str("parent: child 2 finished"),
        Text::WaitpidFailed => String::from_str("waitpid failed"),
        Text::BeforeClosing => String::from_str("child before closing stdout: this should print"),
        Text::AfterClosing => String::from_str("child after closing stdout: this shouldn't show"),
        Text::DirectWrite => String::from_str("try direct write\n"),
        Text::StderrStillOpen => String::from_str("child stderr: this should print"),
        Text::ParentStillPrints => String::from_str("parent: still can print"),
        Text::CloseFailed => String::from_str("close failed"),
        Text::Dup2Failed => String::from_str("dup2 failed"),
        Text::ListFailed => String::from_str("ls failed"),
        Text::CountFailed => String::from_str("wc failed"),
    }
}

/// Words a text that reports a wait, given how `nix` words what the wait
/// returned.
pub fn report_text(text: Text, returned: &str) -> (words: String)
    ensures
        words@ == lead(text) + returned@,
{
    lead_text(text).concat(returned)
}

/// `Debug` of `nix::sys::wait::WaitStatus`, through `format!`: the status as
/// `nix` writes it. The text depends on the status alone, and the contract
/// gives it its name; what the text is, is not claimed.
#[verifier::external_body]
fn status_words(status: &nix::sys::wait::WaitStatus) -> (words: String)
    ensures
        words@ == status_shown(*status),
{
    format!("{:?}", status)
}

/// `Display` of `nix::errno::Errno`, through `format!`: the name of the
/// error and its description as `nix` writes them. The text depends on the
/// error alone, and the contract gives it its name; what the text is, is not
/// claimed.
#[verifier::external_body]
fn errno_words(errno: &nix::errno::Errno) -> (words: String)
    ensures
        words@ == errno_shown(*errno),
{
    format!("{}", errno)
}

/// Words a text in full.
///
/// A text that reports a wait is its lead and then the status or the error
/// in the words of `nix`; every other text is its lead.
pub fn render(text: Text) -> (words: String)
    ensures
        words@ == shown(text),
{
    match text {
        Text::Waited { status, .. } => {
            let returned = status_words(&status);
            report_text(text, returned.as_str())
        },
        Text::WaitError { errno, .. } => {
            let returned = errno_words(&errno);
            report_text(text, returned.as_str())
        },
        _ => lead_text(text),
    }
}

/// The command line of a program, its name first.
pub fn command(program: Program) -> (words: Vec<String>)
    ensures
        words@.len() == command_words(program).len(),
        forall|i: int| 0 <= i < words@.len() ==> (#[trigger] words@[i])@ == command_words(program)[i],
{
    let mut words: Vec<String> = Vec::new();
    match program {
        Program::ListAt => {
            words.push(String::from_str("/bin/ls"));
        },
        Program::List => {
            words.push(String::from_str("ls"));
        },
        Program::CountLines => {
            words.push(String::from_str("wc"));
            words.push(String::from_str("-l"));
        },
    }
    words
}

} // verus!
