//! Talking to the television's remote shell through `adb`.
//!
//! A shell command is two runs of `adb`, one after the other and under one
//! deadline: `adb connect`, which makes sure that there is a connection, then
//! `adb -s <television> shell <command>`. [`Shell`] decides what the caller is
//! to do at each moment of the two runs; [`shell`], [`send_keycode`] and
//! [`send_keycodes`] prepare it for a command.

use vstd::prelude::*;
use vstd::string::*;
use crate::cli::SockAddr;
use crate::subprocess::{
    completed, within_deadline, ExecAction, ExecError, ExecEvent, ExecState, Executor, Failure,
    ProcessExit,
};
use crate::text::{decimal, push_decimal, texts};

verus! {

/// A program and the arguments to start it with.
#[derive(Debug, Clone, PartialEq, Eq)]
pub struct CommandLine {
    pub program: String,
    pub args: Vec<String>,
    /// Whether what the program prints is to be discarded.
    pub quiet: bool,
}

/// Which of the two runs a shell command is in.
#[derive(Debug, Clone, Copy, PartialEq, Eq)]
pub enum Stage {
    /// `adb connect`.
    Connect,
    /// `adb shell`.
    Command,
}

/// Why a shell command did not succeed: the run that failed, and how.
#[derive(Debug, Clone, Copy, PartialEq, Eq)]
pub struct ShellError {
    pub stage: Stage,
    pub error: ExecError,
}

impl ShellError {
    /// What went wrong, without its cause. `serial` is the name by which
    /// `adb` knows the television.
    pub open spec fn headline(self, serial: Seq<char>) -> Seq<char> {
        match self.error {
            ExecError::Spawn => "Failed to invoke adb"@,
            ExecError::Poll => "Failed to wait for child"@,
            ExecError::Kill => "Failed to kill child"@,
            ExecError::Reap => "Failed to wait for child after killing it"@,
            ExecError::Failed(_) => match self.stage {
                Stage::Connect => "Connecting to "@ + serial + " over adb failed"@,
                Stage::Command => "adb shell command failed"@,
            },
            ExecError::TimedOut(_) => match self.stage {
                Stage::Connect => "Connecting to TV timed out"@,
                Stage::Command => "adb shell command timed out"@,
            },
        }
    }

    /// How `adb` ended, where the error is about that.
    pub open spec fn spec_cause(self) -> Option<Failure> {
        match self.error {
            ExecError::Failed(failure) => Some(failure),
            ExecError::TimedOut(failure) => Some(failure),
            _ => None,
        }
    }

    /// What `to_string` returns: the headline, then, where the error is
    /// about how `adb` ended, a colon and the description of that.
    pub open spec fn text(self, serial: Seq<char>) -> Seq<char> {
        match self.spec_cause() {
            None => self.headline(serial),
            Some(failure) => self.headline(serial) + ": "@ + failure.spec_to_string("adb"@),
        }
    }

    /// How `adb` ended, where the error is about that.
    pub fn cause(&self) -> (cause: Option<Failure>)
        ensures
            cause == self.spec_cause(),
    {
        match self.error {
            ExecError::Failed(failure) => Some(failure),
            ExecError::TimedOut(failure) => Some(failure),
            _ => None,
        }
    }

    /// What to tell the user to do about this error, if anything.
    pub fn suggestion(&self) -> (hint: Option<&'static str>)
        ensures
            match hint {
                Some(text) => self.error is Spawn && text@ == "Make sure that adb is installed"@,
                None => !(self.error is Spawn),
            },
    {
        match self.error {
            ExecError::Spawn => Some("Make sure that adb is installed"),
            _ => None,
        }
    }

    /// Describes this error in one line.
    pub fn to_string(&self, serial: &str) -> (s: String)
        ensures
            s@ == self.text(serial@),
    {
        let mut s = String::new();
        match self.error {
            ExecError::Spawn => {
                s.append("Failed to invoke adb");
            },
            ExecError::Poll => {
                s.append("Failed to wait for child");
            },
            ExecError::Kill => {
                s.append("Failed to kill child");
            },
            ExecError::Reap => {
                s.append("Failed to wait for child after killing it");
            },
            ExecError::Failed(_) => match self.stage {
                Stage::Connect => {
                    s.append("Connecting to ");
                    s.append(serial);
                    s.append(" over adb failed");
                },
                Stage::Command => {
                    s.append("adb shell command failed");
                },
            },
            ExecError::TimedOut(_) => match self.stage {
                Stage::Connect => {
                    s.append("Connecting to TV timed out");
                },
                Stage::Command => {
                    s.append("adb shell command timed out");
                },
            },
        }
        match self.cause() {
            Some(failure) => {
                let cause = failure.to_string("adb");
                s.append(": ");
                s.append(cause.as_str());
            },
            None => {},
        }
        s
    }
}

/// What the caller is to do next for a shell command. The answers are those
/// of [`ExecAction`].
#[derive(Debug, Clone, Copy, PartialEq, Eq)]
pub enum ShellAction {
    /// Start the command line that [`Shell::command_line`] gives.
    Spawn,
    /// Read the clock, which runs from the moment the shell command began.
    ReadClock,
    /// Ask, without blocking, whether the child has exited.
    Poll,
    /// Sleep this many milliseconds.
    Sleep(u64),
    /// Kill the child.
    Kill,
    /// Wait until the child has exited.
    Reap,
    /// Stop: this is the result of the shell command.
    Finish(Result<(), ShellError>),
}

/// The arguments of `adb connect` for the television called `serial`.
pub open spec fn connect_args(serial: Seq<char>) -> Seq<Seq<char>> {
    seq!["connect"@, serial]
}

/// The arguments of `adb shell` for `command` on the television called
/// `serial`.
pub open spec fn shell_args(serial: Seq<char>, command: Seq<Seq<char>>) -> Seq<Seq<char>> {
    seq!["-s"@, serial, "shell"@] + command
}

/// A shell command on the television, at some moment of its two runs.
#[derive(Debug, Clone, PartialEq, Eq)]
pub struct Shell {
    /// The name by which `adb` knows the television: its address and port.
    pub serial: String,
    /// The command and its arguments.
    pub command: Vec<String>,
    pub stage: Stage,
    /// The run of the present stage.
    pub executor: Executor,
}

impl Shell {
    /// The shell command after `event`. The event goes to the present run.
    /// When that ends the connect stage in success, the command stage begins
    /// with a run of its own, under the same deadline.
    pub open spec fn spec_step(self, event: ExecEvent) -> Shell {
        let executor = self.executor.spec_step(event);
        if self.stage == Stage::Connect && executor.succeeded() {
            Shell {
                serial: self.serial,
                command: self.command,
                stage: Stage::Command,
                executor: Executor { timeout: executor.timeout, state: ExecState::Spawning },
            }
        } else {
            Shell { serial: self.serial, command: self.command, stage: self.stage, executor }
        }
    }

    /// What the shell command asks for at present.
    pub open spec fn spec_action(self) -> ShellAction {
        match self.executor.spec_action() {
            ExecAction::Spawn => ShellAction::Spawn,
            ExecAction::ReadClock => ShellAction::ReadClock,
            ExecAction::Poll => ShellAction::Poll,
            ExecAction::Sleep(ms) => ShellAction::Sleep(ms),
            ExecAction::Kill => ShellAction::Kill,
            ExecAction::Reap => ShellAction::Reap,
            ExecAction::Finish(Ok(())) => ShellAction::Finish(Ok(())),
            ExecAction::Finish(Err(error)) => ShellAction::Finish(
                Err(ShellError { stage: self.stage, error }),
            ),
        }
    }

    /// The shell command after all of `events`, in order.
    pub open spec fn run(self, events: Seq<ExecEvent>) -> Shell
        decreases events.len(),
    {
        if events.len() == 0 {
            self
        } else {
            self.run(events.drop_last()).spec_step(events.last())
        }
    }

    /// The arguments that `adb` is started with in the present stage.
    pub open spec fn spec_args(self) -> Seq<Seq<char>> {
        match self.stage {
            Stage::Connect => connect_args(self.serial@),
            Stage::Command => shell_args(self.serial@, texts(self.command@)),
        }
    }

    /// Takes in what happened and moves on.
    pub fn step(self, event: ExecEvent) -> (next: Shell)
        ensures
            next == self.spec_step(event),
    {
        let executor = self.executor.step(event);
        let connected = match self.stage {
            Stage::Connect => match executor.state {
                ExecState::Finished(Ok(())) => true,
                _ => false,
            },
            Stage::Command => false,
        };
        if connected {
            Shell {
                serial: self.serial,
                command: self.command,
                stage: Stage::Command,
                executor: Executor::new(executor.timeout),
            }
        } else {
            Shell { serial: self.serial, command: self.command, stage: self.stage, executor }
        }
    }

    /// What to do next.
    pub fn action(&self) -> (action: ShellAction)
        ensures
            action == self.spec_action(),
    {
        match self.executor.action() {
            ExecAction::Spawn => ShellAction::Spawn,
            ExecAction::ReadClock => ShellAction::ReadClock,
            ExecAction::Poll => ShellAction::Poll,
            ExecAction::Sleep(ms) => ShellAction::Sleep(ms),
            ExecAction::Kill => ShellAction::Kill,
            ExecAction::Reap => ShellAction::Reap,
            ExecAction::Finish(Ok(())) => ShellAction::Finish(Ok(())),
            ExecAction::Finish(Err(error)) => ShellAction::Finish(
                Err(ShellError { stage: self.stage, error }),
            ),
        }
    }

    /// The command line to start in the present stage: `adb connect`, with
    /// its output discarded, or `adb shell`.
    pub fn command_line(&self) -> (line: CommandLine)
        ensures
            line.program@ == "adb"@,
            texts(line.args@) == self.spec_args(),
            line.quiet == (self.stage == Stage::Connect),
    {
        match self.stage {
            Stage::Connect => {
                let mut args: Vec<String> = Vec::new();
                args.push(String::from_str("connect"));
                args.push(self.serial.clone());
                CommandLine { program: String::from_str("adb"), args, quiet: true }
            },
            Stage::Command => {
                let mut args: Vec<String> = Vec::new();
                args.push(String::from_str("-s"));
                args.push(self.serial.clone());
                args.push(String::from_str("shell"));
                let n: usize = self.command.len();
                let mut i: usize = 0;
                while i < n
                    invariant
                        n == self.command@.len(),
                        i <= n,
                        args@.len() == 3 + i,
                        args@[0]@ == "-s"@,
                        args@[1]@ == self.serial@,
                        args@[2]@ == "shell"@,
                        forall|j: int| 0 <= j < i ==> args@[3 + j]@ == self.command@[j]@,
                    decreases n - i,
                {
                    args.push(self.command[i].clone());
                    i += 1;
                }
                CommandLine { program: String::from_str("adb"), args, quiet: false }
            },
        }
    }
}

/// The one argument that sends all of `keycodes`, one after the other: for
/// each an `input keyevent` command, joined by `&&`.
pub open spec fn keyevents(keycodes: Seq<i32>) -> Seq<char>
    decreases keycodes.len(),
{
    if keycodes.len() == 0 {
        Seq::empty()
    } else if keycodes.len() == 1 {
        "input keyevent "@ + decimal(keycodes[0] as int)
    } else {
        keyevents(keycodes.drop_last()) + " && "@ + "input keyevent "@ + decimal(
            keycodes.last() as int,
        )
    }
}

/// Prepares the command `command` for the television at `addr`. Connecting
/// and running the command together get `timeout` milliseconds, or as long as
/// they take where there is no timeout.
pub fn shell(addr: &SockAddr, command: Vec<String>, timeout: Option<u64>) -> (session: Shell)
    ensures
        session.serial@ == addr.text(),
        session.command == command,
        session.stage == Stage::Connect,
        session.executor == (Executor { timeout, state: ExecState::Spawning }),
{
    Shell {
        serial: addr.to_string(),
        command,
        stage: Stage::Connect,
        executor: Executor::new(timeout),
    }
}

/// Prepares the press of the key `keycode` on the television.
pub fn send_keycode(addr: &SockAddr, keycode: i32, timeout: Option<u64>) -> (session: Shell)
    ensures
        session.serial@ == addr.text(),
        texts(session.command@) == seq!["input"@, "keyevent"@, decimal(keycode as int)],
        session.stage == Stage::Connect,
        session.executor == (Executor { timeout, state: ExecState::Spawning }),
{
    let mut number = String::new();
    push_decimal(&mut number, keycode as i64);
    let mut command: Vec<String> = Vec::new();
    command.push(String::from_str("input"));
    command.push(String::from_str("keyevent"));
    command.push(number);
    shell(addr, command, timeout)
}

/// Prepares the presses of all of `keycodes`, in order, as one command that
/// stops at the first key that fails.
pub fn send_keycodes(addr: &SockAddr, keycodes: &Vec<i32>, timeout: Option<u64>) -> (session:
    Shell)
    ensures
        session.serial@ == addr.text(),
        texts(session.command@) == seq![keyevents(keycodes@)],
        session.stage == Stage::Connect,
        session.executor == (Executor { timeout, state: ExecState::Spawning }),
{
    let mut joined = String::new();
    let n: usize = keycodes.len();
    let mut i: usize = 0;
    while i < n
        invariant
            n == keycodes@.len(),
            i <= n,
            joined@ == keyevents(keycodes@.take(i as int)),
        decreases n - i,
    {
        if i > 0 {
            joined.append(" && ");
        }
        joined.append("input keyevent ");
        push_decimal(&mut joined, keycodes[i] as i64);
        proof {
            let upto = keycodes@.take(i + 1);
            assert(upto.drop_last() =~= keycodes@.take(i as int));
        }
        i += 1;
    }
    assert(keycodes@.take(n as int) =~= keycodes@);
    let mut command: Vec<String> = Vec::new();
    command.push(joined);
    shell(addr, command, timeout)
}

/// The command is started only on a television that `adb connect` has just
/// connected to: the command stage begins exactly when the run of the
/// connect stage ends in success, which takes that `adb connect` is found
/// exited with code 0, by a poll or when it is reaped. It begins by starting
/// the command, and once begun, it is not left.
pub proof fn lemma_command_follows_connection(session: Shell, event: ExecEvent)
    ensures
        session.stage is Connect ==> (session.spec_step(event).stage is Command
            <==> session.executor.spec_step(event).succeeded()),
        session.stage is Connect && session.spec_step(event).stage is Command && !(
        session.executor.state is Finished) ==> {
            &&& session.executor.state is Polling || session.executor.state is Reaping
            &&& event is Exited && event->Exited_0.code == Some(0i32)
            &&& session.spec_step(event).spec_action() == ShellAction::Spawn
        },
        session.stage is Command ==> session.spec_step(event).stage is Command,
{
}

/// A shell command succeeds only where both of its runs do: it ends in
/// success only in the command stage, when the command is found exited with
/// code 0.
pub proof fn lemma_shell_success_needs_both(session: Shell, event: ExecEvent)
    requires
        !(session.spec_action() matches ShellAction::Finish(Ok(_))),
        session.spec_step(event).spec_action() matches ShellAction::Finish(Ok(_)),
    ensures
        session.stage is Command,
        session.executor.state is Polling || session.executor.state is Reaping,
        event is Exited && event->Exited_0.code == Some(0i32),
{
}

/// The result of a shell command whose command ended with `status` within
/// the deadline.
pub open spec fn command_result(status: ProcessExit) -> Result<(), ShellError> {
    match completed(status) {
        Ok(_) => Ok(()),
        Err(error) => Err(ShellError { stage: Stage::Command, error }),
    }
}

/// A shell command whose two runs both end at their first poll, within the
/// deadline: once `adb connect` has exited with code 0 the command is
/// started, and how the command exits is the result of the shell command.
pub proof fn lemma_shell_connects_then_runs(
    session: Shell,
    connect_elapsed: u64,
    command_elapsed: u64,
    status: ProcessExit,
)
    requires
        session.stage is Connect,
        session.executor.state is Spawning,
        within_deadline(connect_elapsed, session.executor.timeout),
        within_deadline(command_elapsed, session.executor.timeout),
    ensures
        ({
            let connecting = seq![
                ExecEvent::Spawned,
                ExecEvent::Elapsed(connect_elapsed),
                ExecEvent::Exited(ProcessExit { code: Some(0i32), signal: None }),
            ];
            let running = seq![
                ExecEvent::Spawned,
                ExecEvent::Elapsed(command_elapsed),
                ExecEvent::Exited(status),
            ];
            &&& session.run(connecting).stage is Command
            &&& session.run(connecting).spec_action() == ShellAction::Spawn
            &&& session.run(connecting).run(running).spec_action() == ShellAction::Finish(
                command_result(status),
            )
        }),
{
    reveal_with_fuel(Shell::run, 4);
}

} // verus!
