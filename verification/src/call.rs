//! The vocabulary shared by every drill: what a drill asks the operating
//! system to do, what it is told in return, and the texts it prints or writes.
//!
//! A drill never touches the operating system itself. It hands an [`Action`]
//! to its driver, the driver performs it, and the outcome comes back as a
//! [`Reply`].

use vstd::prelude::*;

verus! {

/// `nix::sys::wait::WaitStatus`: what a wait reported of a child. A drill
/// carries it from the reply to the line that shows it and reads nothing in it.
#[verifier::external_type_specification]
#[verifier::external_body]
pub struct ExWaitStatus(nix::sys::wait::WaitStatus);

/// `nix::errno::Errno`: why a wait failed. A drill carries it from the reply
/// to the line that shows it and reads nothing in it.
#[verifier::external_type_specification]
#[verifier::external_body]
pub struct ExErrno(nix::errno::Errno);

/// The two ends of an anonymous pipe, as descriptors.
#[derive(Clone, Copy, Debug, PartialEq, Eq)]
pub struct Pipe {
    pub read: i32,
    pub write: i32,
}

/// The side of a fork a process is on.
#[derive(Clone, Copy, Debug, PartialEq, Eq)]
pub enum Role {
    Parent,
    Child,
}

/// An external program that takes the place of a process.
#[derive(Clone, Copy, Debug, PartialEq, Eq)]
pub enum Program {
    /// The directory lister, named by its absolute path.
    ListAt,
    /// The directory lister, looked up on the search path.
    List,
    /// The line counter, looked up on the search path.
    CountLines,
}

/// Every text a drill prints, writes to a descriptor, names a file by, or
/// aborts with.
#[derive(Clone, Copy, Debug, PartialEq, Eq)]
pub enum Text {
    BeforeFork { x: u32 },
    InsideParent { x: u32 },
    InsideChild { x: u32 },
    End { x: u32 },
    ForkFailed,
    /// The path of the file that parent and child both write to.
    OutputPath,
    HasDescriptor { role: Role, fd: i32 },
    /// One line of the shared file, newline included.
    Record { role: Role, index: u32 },
    CreateFailed,
    WriteFailed,
    Hello,
    Goodbye,
    /// The four bytes that tell the parent the child is done.
    Marker,
    PipeFailed,
    ReadFailed,
    AboutToExec,
    ExecFailed,
    WaitFailed,
    OwnPid { pid: i32 },
    /// A wait returned a status. The text ends with the status as `nix` shows it.
    Waited { role: Role, status: nix::sys::wait::WaitStatus },
    /// A wait returned an error. The text ends with the error as `nix` shows it.
    WaitError { role: Role, errno: nix::errno::Errno },
    PidFailed,
    NumberedPid { child: u8, pid: i32 },
    SecondChildFinished,
    WaitpidFailed,
    BeforeClosing,
    AfterClosing,
    /// The bytes written straight to the closed descriptor, newline included.
    DirectWrite,
    StderrStillOpen,
    ParentStillPrints,
    CloseFailed,
    Dup2Failed,
    ListFailed,
    CountFailed,
}

/// One request to the operating system, or one way for a process to end.
#[derive(Clone, Copy, Debug, PartialEq, Eq)]
pub enum Action {
    /// Print the text and a newline on standard output.
    Print(Text),
    /// Print the text and a newline on standard error.
    Warn(Text),
    /// Duplicate the process.
    Fork,
    /// Create an anonymous pipe.
    OpenPipe,
    /// Create the file of that path, truncating it, and keep it open.
    Create(Text),
    /// Close the descriptor.
    Close { fd: i32 },
    /// Make `onto` refer to what `from` refers to.
    Duplicate { from: i32, onto: i32 },
    /// Write all of the text to the descriptor, which stays open.
    Write { fd: i32, text: Text },
    /// Block until exactly `len` bytes have been read from the descriptor.
    Read { fd: i32, len: usize },
    /// Keep the processor busy for that many empty rounds.
    Spin { rounds: u32 },
    /// Sleep.
    Sleep { seconds: u64 },
    /// Ask for the identifier of the calling process.
    AskPid,
    /// Replace the process image by the program. On success nothing follows.
    Exec(Program),
    /// Block until any child has terminated.
    WaitAny,
    /// Block until that child has terminated.
    WaitFor { child: i32 },
    /// Terminate the process with that status.
    Exit { code: i32 },
    /// Report the text on standard error and terminate the process abnormally.
    Abort(Text),
    /// The drill is over: return to the caller.
    Finish,
}

/// What the driver reports after it has performed an [`Action`].
#[derive(Clone, Copy, Debug, PartialEq, Eq)]
pub enum Reply {
    /// The action succeeded and there is nothing else to tell.
    Done,
    /// The action failed.
    Failed,
    /// A fork succeeded and this is the process that forked.
    InParent { child: i32 },
    /// A fork succeeded and this is the new process.
    InChild,
    /// A pipe was created, with these two ends.
    Piped(Pipe),
    /// A file was created and is open under this descriptor.
    Opened { fd: i32 },
    /// The identifier of the calling process.
    Pid { pid: i32 },
    /// A wait returned with the status of a child.
    Reaped(nix::sys::wait::WaitStatus),
    /// A wait returned with an error.
    NotReaped(nix::errno::Errno),
}

/// Whether the reply to a fork puts the process on that side.
pub open spec fn on_side(reply: Reply, role: Role) -> bool {
    match role {
        Role::Parent => reply is InParent,
        Role::Child => reply is InChild,
    }
}

/// The side that the reply to a fork puts a process on. A reply that is no
/// side counts as the parent's, where a failed fork is seen.
pub open spec fn side_of(reply: Reply) -> Role {
    if reply is InChild {
        Role::Child
    } else {
        Role::Parent
    }
}

impl Action {
    /// An action after which the process does not go on with the drill.
    pub open spec fn closes(self) -> bool {
        self is Exit || self is Abort || self is Finish
    }

    /// Whether the driver stops after this action.
    pub fn is_closing(&self) -> (closing: bool)
        ensures
            closing == self.closes(),
    {
        match self {
            Action::Exit { .. } => true,
            Action::Abort(_) => true,
            Action::Finish => true,
            _ => false,
        }
    }
}

} // verus!
