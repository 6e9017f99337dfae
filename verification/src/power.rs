//! Turning the television on and off.
//!
//! [`turn_on`] and [`turn_off`] prepare one attempt each, [`ping_tv`] reads
//! the answer to the question whether the television is there, and
//! [`find_output`] settles which display output shows whether it is on.

use vstd::prelude::*;
use vstd::string::*;
use crate::adb::{send_keycode, CommandLine, Shell, ShellError, Stage};
use crate::text::texts;
use crate::cli::{MacAddr, SockAddr};
use crate::outputs::{connected, output_exists, spec_connected, spec_exists, views, Output, OutputView};
use crate::subprocess::{failure, failure_of, ExecState, Executor, Failure, ProcessExit};

verus! {

/// The keycode of the television's power key.
pub const POWER_KEY: i32 = 26;

/// How long connecting and pressing the power key may take together where
/// the library sets the deadline itself, in milliseconds.
pub const POWER_KEY_TIMEOUT_MS: u64 = 1000;

/// Why no output could be settled on.
#[derive(Debug, PartialEq, Eq)]
pub enum OutputError {
    /// The output that was asked for does not exist.
    Missing(String),
    /// No output was asked for and none has anything plugged into it.
    NoneConnected,
    /// No output was asked for and more than one has something plugged into it.
    Ambiguous,
}

/// What an [`OutputError`] holds.
pub enum OutputErrorView {
    Missing(Seq<char>),
    NoneConnected,
    Ambiguous,
}

impl View for OutputError {
    type V = OutputErrorView;

    open spec fn view(&self) -> OutputErrorView {
        match self {
            OutputError::Missing(name) => OutputErrorView::Missing(name@),
            OutputError::NoneConnected => OutputErrorView::NoneConnected,
            OutputError::Ambiguous => OutputErrorView::Ambiguous,
        }
    }
}

impl OutputErrorView {
    /// The description of the error.
    pub open spec fn text(self) -> Seq<char> {
        match self {
            OutputErrorView::Missing(name) => "Output "@ + name + " doesn't exist"@,
            OutputErrorView::NoneConnected =>
                "You haven't specified an output and no outputs are connected"@,
            OutputErrorView::Ambiguous =>
                "You haven't specified an output but there are multiple connected outputs"@,
        }
    }
}

impl OutputError {
    /// Describes this error in one line.
    pub fn to_string(&self) -> (s: String)
        ensures
            s@ == self@.text(),
    {
        match self {
            OutputError::Missing(name) => {
                let mut s = String::from_str("Output ");
                s.append(name.as_str());
                s.append(" doesn't exist");
                s
            },
            OutputError::NoneConnected => String::from_str(
                "You haven't specified an output and no outputs are connected",
            ),
            OutputError::Ambiguous => String::from_str(
                "You haven't specified an output but there are multiple connected outputs",
            ),
        }
    }
}

/// The name in an optional name.
pub open spec fn wanted(output: Option<String>) -> Option<Seq<char>> {
    match output {
        Some(name) => Some(name@),
        None => None,
    }
}

/// What a choice of output holds.
pub open spec fn choice(found: Result<String, OutputError>) -> Result<Seq<char>, OutputErrorView> {
    match found {
        Ok(name) => Ok(name@),
        Err(error) => Err(error@),
    }
}

/// The output that shows whether the television is on. Where one was asked
/// for, it is that one, which must exist. Where none was asked for, it is
/// the one output that something is plugged into: there must be exactly one.
pub open spec fn spec_find_output(output: Option<Seq<char>>, outputs: Seq<OutputView>) -> Result<
    Seq<char>,
    OutputErrorView,
> {
    match output {
        Some(name) => if spec_exists(outputs, name) {
            Ok(name)
        } else {
            Err(OutputErrorView::Missing(name))
        },
        None => {
            let plugged = spec_connected(outputs);
            if plugged.len() == 0 {
                Err(OutputErrorView::NoneConnected)
            } else if plugged.len() == 1 {
                Ok(plugged[0].name)
            } else {
                Err(OutputErrorView::Ambiguous)
            }
        },
    }
}

/// Settles which output shows whether the television is on.
pub fn find_output(output: Option<String>, outputs: &Vec<Output>) -> (found: Result<
    String,
    OutputError,
>)
    ensures
        choice(found) == spec_find_output(wanted(output), views(outputs@)),
{
    match output {
        Some(name) => {
            if output_exists(outputs, name.as_str()) {
                Ok(name)
            } else {
                Err(OutputError::Missing(name))
            }
        },
        None => {
            let plugged = connected(outputs);
            if plugged.len() == 0 {
                Err(OutputError::NoneConnected)
            } else if plugged.len() == 1 {
                Ok(plugged[0].name.clone())
            } else {
                Err(OutputError::Ambiguous)
            }
        },
    }
}

/// Why the television could not be asked whether it is there.
#[derive(Debug, Clone, Copy, PartialEq, Eq)]
pub enum PingError {
    /// `ping` could not be started.
    Invoke,
    /// `ping` ended in a way that says neither yes nor no.
    Failed(Failure),
}

impl PingError {
    /// The description of the error.
    pub open spec fn text(self) -> Seq<char> {
        match self {
            PingError::Invoke => "Failed to invoke ping"@,
            PingError::Failed(failure) => failure.spec_to_string("ping"@),
        }
    }

    /// Describes this error in one line.
    pub fn to_string(&self) -> (s: String)
        ensures
            s@ == self.text(),
    {
        match *self {
            PingError::Invoke => String::from_str("Failed to invoke ping"),
            PingError::Failed(failure) => failure.to_string("ping"),
        }
    }
}

/// What a run of `ping` says: exit code 0 that the television answered,
/// exit code 1 that it did not, and anything else nothing, which is an
/// error. `None` stands for a `ping` that could not be started.
pub open spec fn spec_ping_tv(outcome: Option<ProcessExit>) -> Result<bool, PingError> {
    match outcome {
        None => Err(PingError::Invoke),
        Some(status) => if status.code == Some(0i32) {
            Ok(true)
        } else if status.code == Some(1i32) {
            Ok(false)
        } else {
            Err(PingError::Failed(failure_of(status)))
        },
    }
}

/// Reads the outcome of one `ping` of the television.
pub fn ping_tv(outcome: Option<ProcessExit>) -> (reachable: Result<bool, PingError>)
    ensures
        reachable == spec_ping_tv(outcome),
{
    match outcome {
        None => Err(PingError::Invoke),
        Some(status) => match status.code {
            Some(0) => Ok(true),
            Some(1) => Ok(false),
            _ => Err(PingError::Failed(failure(status))),
        },
    }
}

/// The `ping` to run: one packet, quietly, with a tenth of a second to
/// answer.
pub fn ping_command(ip: &str) -> (line: CommandLine)
    ensures
        line.program@ == "ping"@,
        texts(line.args@) == seq!["-q"@, "-c"@, "1"@, "-W"@, "0.1"@, ip@],
        line.quiet,
{
    let mut args: Vec<String> = Vec::new();
    args.push(String::from_str("-q"));
    args.push(String::from_str("-c"));
    args.push(String::from_str("1"));
    args.push(String::from_str("-W"));
    args.push(String::from_str("0.1"));
    args.push(String::from_str(ip));
    CommandLine { program: String::from_str("ping"), args, quiet: true }
}

/// The command that presses the power key.
pub open spec fn power_key_command() -> Seq<Seq<char>> {
    seq!["input"@, "keyevent"@, crate::text::decimal(POWER_KEY as int)]
}

/// Prepares the press of the power key, which switches the television from
/// on to off and back. Connecting and pressing the key together get
/// `timeout` milliseconds, or as long as they take where there is no timeout.
pub fn send_power_key(addr: &SockAddr, timeout: Option<u64>) -> (session: Shell)
    ensures
        session.serial@ == addr.text(),
        texts(session.command@) == power_key_command(),
        session.stage == Stage::Connect,
        session.executor == (Executor { timeout, state: ExecState::Spawning }),
{
    send_keycode(addr, POWER_KEY, timeout)
}

/// Prepares turning the television off: a press of the power key, under
/// `timeout` if there is one. Whether the television is off afterwards is for
/// the caller to find out.
pub fn turn_off(addr: &SockAddr, timeout: Option<u64>) -> (session: Shell)
    ensures
        session.serial@ == addr.text(),
        texts(session.command@) == power_key_command(),
        session.stage == Stage::Connect,
        session.executor == (Executor { timeout, state: ExecState::Spawning }),
{
    send_power_key(addr, timeout)
}

/// Why an attempt to turn the television on failed.
#[derive(Debug, Clone, Copy, PartialEq, Eq)]
pub enum PowerError {
    /// It could not be found out whether the television answers.
    Ping(PingError),
    /// The wake packet could not be sent.
    Wake,
}

impl PowerError {
    /// The description of the error.
    pub open spec fn text(self) -> Seq<char> {
        match self {
            PowerError::Ping(error) => error.text(),
            PowerError::Wake => "Failed to send the Wake-on-LAN packet"@,
        }
    }

    /// Describes this error in one line.
    pub fn to_string(&self) -> (s: String)
        ensures
            s@ == self.text(),
    {
        match *self {
            PowerError::Ping(error) => error.to_string(),
            PowerError::Wake => String::from_str("Failed to send the Wake-on-LAN packet"),
        }
    }
}

/// What an attempt to turn the television on is waiting to be told.
#[derive(Debug, Clone, Copy, PartialEq, Eq)]
pub enum PowerOnState {
    /// How the `ping` went.
    Probing,
    /// How the press of the power key went.
    Keying,
    /// Whether the wake packet was sent.
    Waking,
    /// Nothing: the attempt is over, with this result.
    Finished(Result<(), PowerError>),
}

/// What happened when the caller did what the attempt asked for.
#[derive(Debug, Clone, Copy, PartialEq, Eq)]
pub enum PowerOnEvent {
    /// `ping` ended with this status, or could not be started.
    Pinged(Option<ProcessExit>),
    /// The press of the power key ended like this.
    KeySent(Result<(), ShellError>),
    /// The wake packet was sent, or could not be.
    Woke(bool),
}

/// What the caller is to do next to turn the television on.
#[derive(Debug, Clone, Copy, PartialEq, Eq)]
pub enum PowerOnAction {
    /// Run [`PowerOn::ping`]; answer `Pinged`.
    Ping,
    /// Run [`PowerOn::power_key`]; answer `KeySent`.
    SendPowerKey,
    /// Send a wake packet for the hardware address; answer `Woke`.
    Wake,
    /// Stop: this is the result of the attempt.
    Finish(Result<(), PowerError>),
}

/// One attempt to turn the television on.
///
/// A television that answers a `ping` has its network up and can be woken by
/// its power key. If that does not work, or if it does not answer, it gets a
/// wake packet. The attempt succeeds when one of the two has been sent:
/// whether the television is on is for the caller to find out.
#[derive(Debug, Clone, PartialEq, Eq)]
pub struct PowerOn {
    pub addr: SockAddr,
    pub mac: MacAddr,
    pub state: PowerOnState,
}

impl PowerOn {
    /// The attempt after `event`. An event that does not answer the pending
    /// action changes nothing.
    pub open spec fn spec_step(self, event: PowerOnEvent) -> PowerOn {
        let state = match (self.state, event) {
            (PowerOnState::Probing, PowerOnEvent::Pinged(outcome)) => match spec_ping_tv(outcome) {
                Ok(true) => PowerOnState::Keying,
                Ok(false) => PowerOnState::Waking,
                Err(error) => PowerOnState::Finished(Err(PowerError::Ping(error))),
            },
            (PowerOnState::Keying, PowerOnEvent::KeySent(Ok(_))) => PowerOnState::Finished(Ok(())),
            (PowerOnState::Keying, PowerOnEvent::KeySent(Err(_))) => PowerOnState::Waking,
            (PowerOnState::Waking, PowerOnEvent::Woke(true)) => PowerOnState::Finished(Ok(())),
            (PowerOnState::Waking, PowerOnEvent::Woke(false)) => PowerOnState::Finished(
                Err(PowerError::Wake),
            ),
            (state, _) => state,
        };
        PowerOn { addr: self.addr, mac: self.mac, state }
    }

    /// What the attempt asks for at present.
    pub open spec fn spec_action(self) -> PowerOnAction {
        match self.state {
            PowerOnState::Probing => PowerOnAction::Ping,
            PowerOnState::Keying => PowerOnAction::SendPowerKey,
            PowerOnState::Waking => PowerOnAction::Wake,
            PowerOnState::Finished(result) => PowerOnAction::Finish(result),
        }
    }

    /// The attempt after all of `events`, in order.
    pub open spec fn run(self, events: Seq<PowerOnEvent>) -> PowerOn
        decreases events.len(),
    {
        if events.len() == 0 {
            self
        } else {
            self.run(events.drop_last()).spec_step(events.last())
        }
    }

    /// Whether the attempt is over and has succeeded.
    pub open spec fn succeeded(self) -> bool {
        self.state matches PowerOnState::Finished(Ok(_))
    }

    /// Takes in what happened and moves on.
    pub fn step(self, event: PowerOnEvent) -> (next: PowerOn)
        ensures
            next == self.spec_step(event),
    {
        let state = match self.state {
            PowerOnState::Probing => match event {
                PowerOnEvent::Pinged(outcome) => match ping_tv(outcome) {
                    Ok(true) => PowerOnState::Keying,
                    Ok(false) => PowerOnState::Waking,
                    Err(error) => PowerOnState::Finished(Err(PowerError::Ping(error))),
                },
                _ => PowerOnState::Probing,
            },
            PowerOnState::Keying => match event {
                PowerOnEvent::KeySent(Ok(_)) => PowerOnState::Finished(Ok(())),
                PowerOnEvent::KeySent(Err(_)) => PowerOnState::Waking,
                _ => PowerOnState::Keying,
            },
            PowerOnState::Waking => match event {
                PowerOnEvent::Woke(true) => PowerOnState::Finished(Ok(())),
                PowerOnEvent::Woke(false) => PowerOnState::Finished(Err(PowerError::Wake)),
                _ => PowerOnState::Waking,
            },
            PowerOnState::Finished(result) => PowerOnState::Finished(result),
        };
        PowerOn { addr: self.addr, mac: self.mac, state }
    }

    /// What to do next.
    pub fn action(&self) -> (action: PowerOnAction)
        ensures
            action == self.spec_action(),
    {
        match self.state {
            PowerOnState::Probing => PowerOnAction::Ping,
            PowerOnState::Keying => PowerOnAction::SendPowerKey,
            PowerOnState::Waking => PowerOnAction::Wake,
            PowerOnState::Finished(result) => PowerOnAction::Finish(result),
        }
    }

    /// The `ping` that asks whether the television is there.
    pub fn ping(&self) -> (line: CommandLine)
        ensures
            line.program@ == "ping"@,
            texts(line.args@) == seq!["-q"@, "-c"@, "1"@, "-W"@, "0.1"@, self.addr.ip@],
            line.quiet,
    {
        ping_command(self.addr.ip.as_str())
    }

    /// The press of the power key that wakes a television whose network is
    /// up. It has [`POWER_KEY_TIMEOUT_MS`] to go.
    pub fn power_key(&self) -> (session: Shell)
        ensures
            session.serial@ == self.addr.text(),
            texts(session.command@) == power_key_command(),
            session.stage == Stage::Connect,
            session.executor == (Executor {
                timeout: Some(POWER_KEY_TIMEOUT_MS),
                state: ExecState::Spawning,
            }),
    {
        send_power_key(&self.addr, Some(POWER_KEY_TIMEOUT_MS))
    }
}

/// Prepares an attempt to turn the television on.
pub fn turn_on(addr: SockAddr, mac: MacAddr) -> (attempt: PowerOn)
    ensures
        attempt == (PowerOn { addr, mac, state: PowerOnState::Probing }),
{
    PowerOn { addr, mac, state: PowerOnState::Probing }
}

/// A television that answers the `ping` but cannot be woken by its power key
/// is sent the wake packet, and if that is sent the attempt succeeds all the
/// same. Whatever went wrong with the power key is of no consequence.
pub proof fn lemma_power_on_falls_back(
    attempt: PowerOn,
    pinged: ProcessExit,
    key_error: ShellError,
    woke: bool,
)
    requires
        attempt.state == PowerOnState::Probing,
        spec_ping_tv(Some(pinged)) == Ok::<bool, PingError>(true),
    ensures
        attempt.run(
            seq![PowerOnEvent::Pinged(Some(pinged)), PowerOnEvent::KeySent(Err(key_error))],
        ).spec_action() == PowerOnAction::Wake,
        attempt.run(
            seq![
                PowerOnEvent::Pinged(Some(pinged)),
                PowerOnEvent::KeySent(Err(key_error)),
                PowerOnEvent::Woke(woke),
            ],
        ).succeeded() == woke,
{
    reveal_with_fuel(PowerOn::run, 4);
}

/// An attempt succeeds only by something having been sent: the power key
/// pressed without error, or the wake packet sent.
pub proof fn lemma_power_on_success_is_a_dispatch(attempt: PowerOn, event: PowerOnEvent)
    requires
        !attempt.succeeded(),
        attempt.spec_step(event).succeeded(),
    ensures
        (attempt.state is Keying && event matches PowerOnEvent::KeySent(Ok(_))) || (attempt.state
            is Waking && event == PowerOnEvent::Woke(true)),
{
}

/// A television that does not answer the `ping` is sent the wake packet
/// without a try of the power key.
pub proof fn lemma_power_on_skips_key(attempt: PowerOn, pinged: ProcessExit)
    requires
        attempt.state == PowerOnState::Probing,
        spec_ping_tv(Some(pinged)) == Ok::<bool, PingError>(false),
    ensures
        attempt.spec_step(PowerOnEvent::Pinged(Some(pinged))).spec_action() == PowerOnAction::Wake,
{
}

} // verus!
