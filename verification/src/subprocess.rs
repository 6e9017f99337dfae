//! Running one external command under a deadline.
//!
//! The command itself is run by the caller. What is decided here is what to
//! do next: look at the clock, poll the child, sleep, kill it, reap it, or
//! stop with a result. [`Executor`] is that decision as a state machine, and
//! [`check_status`] is the classification of an exit status that it ends on.

use vstd::prelude::*;
use vstd::string::*;
use crate::text::{decimal, push_decimal};

verus! {

/// How long to sleep between two polls of a running child, in milliseconds.
pub const POLL_INTERVAL_MS: u64 = 50;

/// How a child process ended: the exit code it returned, if it returned one,
/// and the signal that terminated it, if one did.
#[derive(Debug, Clone, Copy, PartialEq, Eq)]
pub struct ProcessExit {
    pub code: Option<i32>,
    pub signal: Option<i32>,
}

/// Why an exit status does not count as success.
#[derive(Debug, Clone, Copy, PartialEq, Eq)]
pub enum Failure {
    /// The process neither returned an exit code nor was terminated by a signal.
    NoStatusCode,
    /// The process exited on its own with this nonzero code.
    Exited(i32),
    /// The process was terminated by this signal.
    Signal(i32),
}

/// What went wrong with a process that did not exit with code 0: it was
/// terminated by a signal, or else it exited with a code of its own, or else
/// nothing is known of its end.
pub open spec fn failure_of(status: ProcessExit) -> Failure {
    if let Some(signal) = status.signal {
        Failure::Signal(signal)
    } else if let Some(code) = status.code {
        Failure::Exited(code)
    } else {
        Failure::NoStatusCode
    }
}

/// The classification of an exit status: exit code 0 is success, and
/// anything else the failure that [`failure_of`] tells.
pub open spec fn spec_check_status(status: ProcessExit) -> Result<(), Failure> {
    if status.code == Some(0i32) {
        Ok(())
    } else {
        Err(failure_of(status))
    }
}

/// Tells what went wrong with a process that did not exit with code 0.
pub fn failure(status: ProcessExit) -> (failure: Failure)
    ensures
        failure == failure_of(status),
{
    match status.signal {
        Some(signal) => Failure::Signal(signal),
        None => match status.code {
            Some(code) => Failure::Exited(code),
            None => Failure::NoStatusCode,
        },
    }
}

/// Classifies an exit status.
pub fn check_status(status: ProcessExit) -> (checked: Result<(), Failure>)
    ensures
        checked == spec_check_status(status),
{
    match status.code {
        Some(0) => Ok(()),
        _ => Err(failure(status)),
    }
}

/// The name that signal number `signal` has in `nix`'s table of signals, as
/// the library was built; `None` for a number that the table does not hold.
pub uninterp spec fn signal_name_of(signal: i32) -> Option<Seq<char>>;

/// The name of signal number `signal`: what the `Display` of the `Signal`
/// writes that `nix::sys::signal::Signal::try_from` returns for the number,
/// and `None` where `try_from` fails. The lookup is a match on the number
/// alone, over a table that is fixed when the library is built, and that is
/// what [`signal_name_of`] names.
#[verifier::external_body]
fn signal_name(signal: i32) -> (name: Option<String>)
    ensures
        match name {
            Some(text) => signal_name_of(signal) == Some(text@),
            None => signal_name_of(signal) is None,
        },
{
    match nix::sys::signal::Signal::try_from(signal) {
        Ok(known) => Some(known.to_string()),
        Err(_) => None,
    }
}

impl Failure {
    /// The description of this failure of the program called `program`, where
    /// `signal_name` is the name of the signal, if the failure is a signal
    /// that has a name.
    pub open spec fn text(self, program: Seq<char>, signal_name: Option<Seq<char>>) -> Seq<char> {
        match self {
            Failure::NoStatusCode => program + " didn't return a status code?"@,
            Failure::Exited(code) => program + " exited with status "@ + decimal(code as int),
            Failure::Signal(signal) => match signal_name {
                Some(name) => program + " died from signal "@ + name,
                None => program + " died from unknown signal "@ + decimal(signal as int),
            },
        }
    }

    /// Describes this failure, given the name of the signal if it has one.
    pub fn describe(&self, program: &str, signal_name: Option<&str>) -> (s: String)
        ensures
            s@ == self.text(
                program@,
                match signal_name {
                    Some(name) => Some(name@),
                    None => None,
                },
            ),
    {
        let mut s = String::from_str(program);
        match *self {
            Failure::NoStatusCode => {
                s.append(" didn't return a status code?");
            },
            Failure::Exited(code) => {
                s.append(" exited with status ");
                push_decimal(&mut s, code as i64);
            },
            Failure::Signal(signal) => match signal_name {
                Some(name) => {
                    s.append(" died from signal ");
                    s.append(name);
                },
                None => {
                    s.append(" died from unknown signal ");
                    push_decimal(&mut s, signal as i64);
                },
            },
        }
        s
    }

    /// The name of the signal that this failure is, if it is one and the
    /// signal has a name.
    pub open spec fn spec_signal_name(self) -> Option<Seq<char>> {
        match self {
            Failure::Signal(signal) => signal_name_of(signal),
            _ => None,
        }
    }

    /// What `to_string` returns: the description with the signal by name
    /// where it has one, and by number where it has none.
    pub open spec fn spec_to_string(self, program: Seq<char>) -> Seq<char> {
        self.text(program, self.spec_signal_name())
    }

    /// Describes this failure, looking up the signal's name where there is a
    /// signal.
    pub fn to_string(&self, program: &str) -> (s: String)
        ensures
            s@ == self.spec_to_string(program@),
    {
        match *self {
            Failure::Signal(signal) => {
                let name = signal_name(signal);
                match &name {
                    Some(name) => self.describe(program, Some(name.as_str())),
                    None => self.describe(program, None),
                }
            },
            _ => self.describe(program, None),
        }
    }
}

/// Why running a command under a deadline did not succeed.
#[derive(Debug, Clone, Copy, PartialEq, Eq)]
pub enum ExecError {
    /// The command could not be started.
    Spawn,
    /// Asking whether the child has exited failed.
    Poll,
    /// The deadline passed and the child could not be killed.
    Kill,
    /// The deadline passed and, after the kill, the child could not be reaped.
    Reap,
    /// The child exited within the deadline, and not successfully.
    Failed(Failure),
    /// The deadline passed, the child was killed and reaped, and its exit
    /// status is this failure.
    TimedOut(Failure),
}

/// What the executor is waiting to be told.
#[derive(Debug, Clone, Copy, PartialEq, Eq)]
pub enum ExecState {
    /// Whether the command started.
    Spawning,
    /// How much time has passed.
    Timing,
    /// Whether the child has exited.
    Polling,
    /// That the pause between two polls is over.
    Sleeping,
    /// How the kill went.
    Killing,
    /// The exit status of the killed child.
    Reaping,
    /// Nothing: the run is over, with this result.
    Finished(Result<(), ExecError>),
}

/// What happened when the caller did what the executor asked for.
#[derive(Debug, Clone, Copy, PartialEq, Eq)]
pub enum ExecEvent {
    /// The command was started.
    Spawned,
    /// The command could not be started.
    SpawnFailed,
    /// This many milliseconds have passed since the clock that the deadline
    /// is measured on was started.
    Elapsed(u64),
    /// The child is still running.
    Running,
    /// The child has exited, with this status.
    Exited(ProcessExit),
    /// Waiting for the child, blocking or not, failed.
    WaitFailed,
    /// The pause is over.
    Slept,
    /// The child was sent the kill.
    Killed,
    /// The child had already exited when the kill was attempted.
    AlreadyExited,
    /// The kill failed for another reason.
    KillFailed,
}

/// What the caller is to do next.
#[derive(Debug, Clone, Copy, PartialEq, Eq)]
pub enum ExecAction {
    /// Start the command; answer `Spawned` or `SpawnFailed`.
    Spawn,
    /// Read the clock; answer `Elapsed`.
    ReadClock,
    /// Ask, without blocking, whether the child has exited; answer `Running`,
    /// `Exited` or `WaitFailed`.
    Poll,
    /// Sleep this many milliseconds; answer `Slept`.
    Sleep(u64),
    /// Kill the child; answer `Killed`, `AlreadyExited` or `KillFailed`.
    Kill,
    /// Wait until the child has exited; answer `Exited` or `WaitFailed`.
    Reap,
    /// Stop: this is the result of the run.
    Finish(Result<(), ExecError>),
}

/// Whether `elapsed` milliseconds are still within a deadline of `timeout`
/// milliseconds. Without a deadline every moment is.
pub open spec fn within_deadline(elapsed: u64, timeout: Option<u64>) -> bool {
    match timeout {
        Some(limit) => elapsed < limit,
        None => true,
    }
}

/// The result of a child that exited within the deadline.
pub open spec fn completed(status: ProcessExit) -> Result<(), ExecError> {
    match spec_check_status(status) {
        Ok(()) => Ok(()),
        Err(failure) => Err(ExecError::Failed(failure)),
    }
}

/// The result of a child that was reaped after the deadline: the
/// classification of its true exit status. A child that had exited by itself
/// with code 0 before the kill reached it has succeeded; any other has timed
/// out.
pub open spec fn timed_out(status: ProcessExit) -> Result<(), ExecError> {
    match spec_check_status(status) {
        Ok(()) => Ok(()),
        Err(failure) => Err(ExecError::TimedOut(failure)),
    }
}

/// The run of one command under a deadline.
///
/// The caller performs [`Executor::action`], reports what happened with
/// [`Executor::step`], and repeats until the action is `Finish`.
#[derive(Debug, Clone, Copy, PartialEq, Eq)]
pub struct Executor {
    /// The deadline in milliseconds, if there is one.
    pub timeout: Option<u64>,
    pub state: ExecState,
}

impl Executor {
    /// The executor after `event`. An event that does not answer the pending
    /// action changes nothing.
    pub open spec fn spec_step(self, event: ExecEvent) -> Executor {
        let state = match (self.state, event) {
            (ExecState::Spawning, ExecEvent::Spawned) => ExecState::Timing,
            (ExecState::Spawning, ExecEvent::SpawnFailed) => ExecState::Finished(
                Err(ExecError::Spawn),
            ),
            (ExecState::Timing, ExecEvent::Elapsed(elapsed)) => if within_deadline(
                elapsed,
                self.timeout,
            ) {
                ExecState::Polling
            } else {
                ExecState::Killing
            },
            (ExecState::Polling, ExecEvent::Running) => ExecState::Sleeping,
            (ExecState::Polling, ExecEvent::Exited(status)) => ExecState::Finished(
                completed(status),
            ),
            (ExecState::Polling, ExecEvent::WaitFailed) => ExecState::Finished(
                Err(ExecError::Poll),
            ),
            (ExecState::Sleeping, ExecEvent::Slept) => ExecState::Timing,
            (ExecState::Killing, ExecEvent::Killed) => ExecState::Reaping,
            (ExecState::Killing, ExecEvent::AlreadyExited) => ExecState::Reaping,
            (ExecState::Killing, ExecEvent::KillFailed) => ExecState::Finished(
                Err(ExecError::Kill),
            ),
            (ExecState::Reaping, ExecEvent::Exited(status)) => ExecState::Finished(
                timed_out(status),
            ),
            (ExecState::Reaping, ExecEvent::WaitFailed) => ExecState::Finished(
                Err(ExecError::Reap),
            ),
            (state, _) => state,
        };
        Executor { timeout: self.timeout, state }
    }

    /// Whether the run is over and the command has succeeded.
    pub open spec fn succeeded(self) -> bool {
        self.state matches ExecState::Finished(Ok(_))
    }

    /// What the executor asks for in its present state.
    pub open spec fn spec_action(self) -> ExecAction {
        match self.state {
            ExecState::Spawning => ExecAction::Spawn,
            ExecState::Timing => ExecAction::ReadClock,
            ExecState::Polling => ExecAction::Poll,
            ExecState::Sleeping => ExecAction::Sleep(POLL_INTERVAL_MS),
            ExecState::Killing => ExecAction::Kill,
            ExecState::Reaping => ExecAction::Reap,
            ExecState::Finished(result) => ExecAction::Finish(result),
        }
    }

    /// The executor after all of `events`, in order.
    pub open spec fn run(self, events: Seq<ExecEvent>) -> Executor
        decreases events.len(),
    {
        if events.len() == 0 {
            self
        } else {
            self.run(events.drop_last()).spec_step(events.last())
        }
    }

    /// An executor for a command that has not been started yet.
    pub fn new(timeout: Option<u64>) -> (executor: Executor)
        ensures
            executor == (Executor { timeout, state: ExecState::Spawning }),
    {
        Executor { timeout, state: ExecState::Spawning }
    }

    /// Takes in what happened and moves to the next state.
    pub fn step(self, event: ExecEvent) -> (next: Executor)
        ensures
            next == self.spec_step(event),
    {
        let state = match self.state {
            ExecState::Spawning => match event {
                ExecEvent::Spawned => ExecState::Timing,
                ExecEvent::SpawnFailed => ExecState::Finished(Err(ExecError::Spawn)),
                _ => ExecState::Spawning,
            },
            ExecState::Timing => match event {
                ExecEvent::Elapsed(elapsed) => {
                    let in_time = match self.timeout {
                        Some(limit) => elapsed < limit,
                        None => true,
                    };
                    if in_time {
                        ExecState::Polling
                    } else {
                        ExecState::Killing
                    }
                },
                _ => ExecState::Timing,
            },
            ExecState::Polling => match event {
                ExecEvent::Running => ExecState::Sleeping,
                ExecEvent::Exited(status) => match check_status(status) {
                    Ok(()) => ExecState::Finished(Ok(())),
                    Err(failure) => ExecState::Finished(Err(ExecError::Failed(failure))),
                },
                ExecEvent::WaitFailed => ExecState::Finished(Err(ExecError::Poll)),
                _ => ExecState::Polling,
            },
            ExecState::Sleeping => match event {
                ExecEvent::Slept => ExecState::Timing,
                _ => ExecState::Sleeping,
            },
            ExecState::Killing => match event {
                ExecEvent::Killed => ExecState::Reaping,
                ExecEvent::AlreadyExited => ExecState::Reaping,
                ExecEvent::KillFailed => ExecState::Finished(Err(ExecError::Kill)),
                _ => ExecState::Killing,
            },
            ExecState::Reaping => match event {
                ExecEvent::Exited(status) => match check_status(status) {
                    Ok(()) => ExecState::Finished(Ok(())),
                    Err(failure) => ExecState::Finished(Err(ExecError::TimedOut(failure))),
                },
                ExecEvent::WaitFailed => ExecState::Finished(Err(ExecError::Reap)),
                _ => ExecState::Reaping,
            },
            ExecState::Finished(result) => ExecState::Finished(result),
        };
        Executor { timeout: self.timeout, state }
    }

    /// What to do next.
    pub fn action(&self) -> (action: ExecAction)
        ensures
            action == self.spec_action(),
    {
        match self.state {
            ExecState::Spawning => ExecAction::Spawn,
            ExecState::Timing => ExecAction::ReadClock,
            ExecState::Polling => ExecAction::Poll,
            ExecState::Sleeping => ExecAction::Sleep(POLL_INTERVAL_MS),
            ExecState::Killing => ExecAction::Kill,
            ExecState::Reaping => ExecAction::Reap,
            ExecState::Finished(result) => ExecAction::Finish(result),
        }
    }

    /// The result of the run, once it is over.
    pub fn result(&self) -> (result: Option<Result<(), ExecError>>)
        ensures
            result == match self.state {
                ExecState::Finished(r) => Some(r),
                _ => None,
            },
    {
        match self.state {
            ExecState::Finished(result) => Some(result),
            _ => None,
        }
    }
}

/// A child that is still running when its deadline has passed is killed,
/// and however the kill and the reaping go, the run is then over. Where the
/// child is reaped, the result is the classification of its true exit status:
/// success if it had exited by itself with code 0 before the kill reached it,
/// and else the error that says that the deadline passed. No error after the
/// deadline is the one of a child that failed within it.
pub proof fn lemma_deadline_enforced(
    executor: Executor,
    elapsed: u64,
    killed: ExecEvent,
    reaped: ExecEvent,
)
    requires
        executor.state == ExecState::Timing,
        !within_deadline(elapsed, executor.timeout),
        killed is Killed || killed is AlreadyExited || killed is KillFailed,
        reaped is Exited || reaped is WaitFailed,
    ensures
        executor.spec_step(ExecEvent::Elapsed(elapsed)).spec_action() == ExecAction::Kill,
        ({
            let end = executor.run(seq![ExecEvent::Elapsed(elapsed), killed, reaped]).state;
            &&& end is Finished
            &&& !(end matches ExecState::Finished(Err(ExecError::Failed(_))))
            &&& !(killed is KillFailed) && reaped is Exited ==> end == ExecState::Finished(
                timed_out(reaped->Exited_0),
            )
            &&& !(killed is KillFailed) && reaped is Exited && reaped->Exited_0.code != Some(0i32)
                ==> (end matches ExecState::Finished(Err(ExecError::TimedOut(_))))
        }),
{
    reveal_with_fuel(Executor::run, 4);
}

/// A run succeeds only where the child is found to have exited with code 0,
/// by a poll within the deadline or when it is reaped after it; and once a
/// run is over no event changes its result.
pub proof fn lemma_success_needs_clean_exit(executor: Executor, event: ExecEvent)
    ensures
        executor.spec_step(event).succeeded() ==> executor.succeeded() || ((executor.state
            is Polling || executor.state is Reaping) && event is Exited
            && event->Exited_0.code == Some(0i32)),
        executor.state is Finished ==> executor.spec_step(event) == executor,
{
}

} // verus!
