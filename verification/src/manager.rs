//! The worker that keeps the television the way it is wanted.
//!
//! [`PowerManager`] receives what is wanted, makes attempts until the display
//! output shows that the television has followed, and lets a newer wish take
//! the place of one it is still working on. It decides; the caller waits for
//! wishes, runs the attempts, reads the outputs and sleeps, and reports back.

use vstd::prelude::*;
use vstd::string::*;
use crate::adb::{Shell, Stage};
use crate::cli::{MacAddr, SockAddr};
use crate::outputs::{is_connected, spec_is_connected, views, Output, OutputView};
use crate::power::{
    find_output, power_key_command, spec_find_output, turn_off, turn_on, wanted, OutputError,
    PowerOn, PowerOnState, POWER_KEY_TIMEOUT_MS,
};
use crate::presence::{PresenceStatus, UnknownPresenceStatus};
use crate::subprocess::{ExecState, Executor};
use crate::text::texts;

verus! {

/// How long to wait before the next attempt when the television has not
/// followed yet, in milliseconds.
pub const RETRY_INTERVAL_MS: u64 = 100;

/// Why the power manager could not be set up.
#[derive(Debug, PartialEq, Eq)]
pub enum StartError {
    /// The presence status at the start stands for nothing.
    Presence(UnknownPresenceStatus),
    /// No output could be settled on.
    Output(OutputError),
}

impl StartError {
    /// The description of the error.
    pub open spec fn text(self) -> Seq<char> {
        match self {
            StartError::Presence(unknown) => "Failed to parse initial presence status: "@
                + unknown.text(),
            StartError::Output(error) => "Failed to find graphical output: "@ + error@.text(),
        }
    }

    /// Describes this error in one line.
    pub fn to_string(&self) -> (s: String)
        ensures
            s@ == self.text(),
    {
        match self {
            StartError::Presence(unknown) => {
                let mut s = String::from_str("Failed to parse initial presence status: ");
                s.append(unknown.to_string().as_str());
                s
            },
            StartError::Output(error) => {
                let mut s = String::from_str("Failed to find graphical output: ");
                s.append(error.to_string().as_str());
                s
            },
        }
    }
}

/// Where the power manager is in its work.
#[derive(Debug, Clone, Copy, PartialEq, Eq)]
pub enum Phase {
    /// The television is as it was last wanted, or was when last looked at:
    /// waiting for a wish.
    Waiting,
    /// Working on a wish: about to make an attempt, and first asking whether
    /// a newer wish has come in.
    Checking,
    /// Working on a wish: an attempt is being made.
    Attempting,
    /// Working on a wish: looking at the outputs.
    Sensing,
    /// Working on a wish: the television has not followed yet, pausing.
    Pausing,
    /// Nobody is left to send wishes: the work is over.
    Stopped,
}

/// What happened when the caller did what the power manager asked for.
#[derive(Debug, PartialEq, Eq)]
pub enum Event {
    /// This wish arrived: `true` for on.
    Received(bool),
    /// Nobody is left to send wishes.
    Disconnected,
    /// These wishes had come in meanwhile, the oldest first.
    Checked(Vec<bool>),
    /// The attempt was made; whether it succeeded.
    Attempted(bool),
    /// The outputs as they are now, or `None` if they could not be read.
    Sensed(Option<Vec<Output>>),
    /// The pause is over.
    Slept,
}

/// What the caller is to do next.
#[derive(Debug, Clone, Copy, PartialEq, Eq)]
pub enum Action {
    /// Wait until a wish arrives; answer `Received`, or `Disconnected`.
    Receive,
    /// Take all the wishes that have come in, without waiting; answer
    /// `Checked`.
    Check,
    /// Run [`PowerManager::power_on`]; answer `Attempted`.
    TurnOn,
    /// Run [`PowerManager::power_off`]; answer `Attempted`.
    TurnOff,
    /// Read the outputs; answer `Sensed`.
    Sense,
    /// Sleep this many milliseconds; answer `Slept`.
    Sleep(u64),
    /// Stop.
    Stop,
}

/// What the power manager has to say about a step it took.
#[derive(Debug, Clone, Copy, PartialEq, Eq)]
pub enum Notice {
    /// Work on a wish begins: the television is being turned on (`true`) or
    /// off.
    Turning(bool),
    /// An attempt or a look at the outputs failed; there will be another.
    Retrying(bool),
    /// The outputs show that the television has been turned on (`true`) or
    /// off.
    Turned(bool),
}

impl Notice {
    /// The state of the service that goes with this notice.
    pub open spec fn spec_status(self) -> Seq<char> {
        match self {
            Notice::Turning(true) => "Turning TV on"@,
            Notice::Turning(false) => "Turning TV off"@,
            Notice::Retrying(true) => "Retrying TV power-on"@,
            Notice::Retrying(false) => "Retrying TV power-off"@,
            Notice::Turned(_) => "Idle"@,
        }
    }

    /// The state of the service to announce with this notice.
    pub fn status(&self) -> (text: String)
        ensures
            text@ == self.spec_status(),
    {
        match *self {
            Notice::Turning(true) => String::from_str("Turning TV on"),
            Notice::Turning(false) => String::from_str("Turning TV off"),
            Notice::Retrying(true) => String::from_str("Retrying TV power-on"),
            Notice::Retrying(false) => String::from_str("Retrying TV power-off"),
            Notice::Turned(_) => String::from_str("Idle"),
        }
    }
}

/// The newest of some wishes, which come oldest first: the one that counts.
pub open spec fn newest(wishes: Seq<bool>) -> Option<bool> {
    if wishes.len() == 0 {
        None
    } else {
        Some(wishes.last())
    }
}

/// The worker that keeps the television the way it is wanted.
///
/// It holds what was last wanted. A wish for the same again is dropped. A
/// wish for the opposite is taken up: the power manager makes an attempt,
/// looks at the output, and if the output does not show what is wanted,
/// pauses and starts over, for as long as it takes. Before each attempt it
/// asks for the wishes that have come in meanwhile, and takes up the newest
/// if that is for the opposite of what it is working on.
#[derive(Debug, PartialEq, Eq)]
pub struct PowerManager {
    pub mac: MacAddr,
    pub addr: SockAddr,
    /// The output that shows whether the television is on.
    pub output: String,
    /// What was last wanted: `true` for on.
    pub last_active: bool,
    pub phase: Phase,
}

impl PowerManager {
    /// This power manager with another wish and phase.
    pub open spec fn with(self, last_active: bool, phase: Phase) -> PowerManager {
        PowerManager { mac: self.mac, addr: self.addr, output: self.output, last_active, phase }
    }

    /// Whether `outputs` show the television as it is wanted.
    pub open spec fn confirmed(self, outputs: Seq<OutputView>) -> bool {
        spec_is_connected(outputs, self.output@) == self.last_active
    }

    /// Whether the power manager is working on a wish.
    pub open spec fn working(self) -> bool {
        self.phase is Checking || self.phase is Attempting || self.phase is Sensing
            || self.phase is Pausing
    }

    /// The power manager after `event`. An event that does not answer the
    /// pending action changes nothing.
    pub open spec fn spec_step(self, event: Event) -> PowerManager {
        match (self.phase, event) {
            (Phase::Waiting, Event::Received(wish)) => if wish == self.last_active {
                self
            } else {
                self.with(wish, Phase::Checking)
            },
            (Phase::Waiting, Event::Disconnected) => self.with(self.last_active, Phase::Stopped),
            (Phase::Checking, Event::Checked(wishes)) => match newest(wishes@) {
                Some(wish) if wish != self.last_active => self.with(wish, Phase::Checking),
                _ => self.with(self.last_active, Phase::Attempting),
            },
            (Phase::Attempting, Event::Attempted(_)) => self.with(self.last_active, Phase::Sensing),
            (Phase::Sensing, Event::Sensed(Some(outputs))) => if self.confirmed(views(outputs@)) {
                self.with(self.last_active, Phase::Waiting)
            } else {
                self.with(self.last_active, Phase::Pausing)
            },
            (Phase::Sensing, Event::Sensed(None)) => self.with(self.last_active, Phase::Pausing),
            (Phase::Pausing, Event::Slept) => self.with(self.last_active, Phase::Checking),
            _ => self,
        }
    }

    /// What the power manager has to say about the step it takes on `event`.
    pub open spec fn spec_notice(self, event: Event) -> Option<Notice> {
        match (self.phase, event) {
            (Phase::Waiting, Event::Received(wish)) => if wish == self.last_active {
                None
            } else {
                Some(Notice::Turning(wish))
            },
            (Phase::Checking, Event::Checked(wishes)) => match newest(wishes@) {
                Some(wish) if wish != self.last_active => Some(Notice::Turning(wish)),
                _ => None,
            },
            (Phase::Attempting, Event::Attempted(false)) => Some(
                Notice::Retrying(self.last_active),
            ),
            (Phase::Sensing, Event::Sensed(Some(outputs))) => if self.confirmed(views(outputs@)) {
                Some(Notice::Turned(self.last_active))
            } else {
                None
            },
            (Phase::Sensing, Event::Sensed(None)) => Some(Notice::Retrying(self.last_active)),
            _ => None,
        }
    }

    /// What the power manager asks for at present.
    pub open spec fn spec_action(self) -> Action {
        match self.phase {
            Phase::Waiting => Action::Receive,
            Phase::Checking => Action::Check,
            Phase::Attempting => if self.last_active {
                Action::TurnOn
            } else {
                Action::TurnOff
            },
            Phase::Sensing => Action::Sense,
            Phase::Pausing => Action::Sleep(RETRY_INTERVAL_MS),
            Phase::Stopped => Action::Stop,
        }
    }

    /// The power manager after all of `events`, in order.
    pub open spec fn run(self, events: Seq<Event>) -> PowerManager
        decreases events.len(),
    {
        if events.len() == 0 {
            self
        } else {
            self.run(events.drop_last()).spec_step(events.last())
        }
    }

    /// Sets the power manager up for the television with these addresses.
    /// `status` is the presence status at this moment, as the session
    /// manager gives it, `output` the output that was asked for, if one was,
    /// and `outputs` are the outputs as they are now. The television is taken
    /// to be the way the status wants it.
    pub fn new(
        mac: MacAddr,
        addr: SockAddr,
        status: u32,
        output: Option<String>,
        outputs: &Vec<Output>,
    ) -> (made: Result<PowerManager, StartError>)
        ensures
            match PresenceStatus::from_code(status) {
                Err(unknown) => made matches Err(StartError::Presence(u)) && u == unknown,
                Ok(presence) => match spec_find_output(wanted(output), views(outputs@)) {
                    Err(error) => made matches Err(StartError::Output(e)) && e@ == error,
                    Ok(name) => made matches Ok(manager) && manager.mac == mac && manager.addr
                        == addr && manager.output@ == name && manager.last_active
                        == presence.spec_is_active() && manager.phase == Phase::Waiting,
                },
            },
    {
        let presence = match PresenceStatus::try_from(status) {
            Ok(presence) => presence,
            Err(unknown) => {
                return Err(StartError::Presence(unknown));
            },
        };
        let output = match find_output(output, outputs) {
            Ok(output) => output,
            Err(error) => {
                return Err(StartError::Output(error));
            },
        };
        Ok(
            PowerManager {
                mac,
                addr,
                output,
                last_active: presence.is_active(),
                phase: Phase::Waiting,
            },
        )
    }

    /// Takes in what happened, moves on, and says what there is to say
    /// about it.
    pub fn step(self, event: Event) -> (next: (PowerManager, Option<Notice>))
        ensures
            next.0 == self.spec_step(event),
            next.1 == self.spec_notice(event),
    {
        let mut manager = self;
        let wanted = manager.last_active;
        match manager.phase {
            Phase::Waiting => match event {
                Event::Received(wish) => {
                    if wish == wanted {
                        (manager, None)
                    } else {
                        manager.last_active = wish;
                        manager.phase = Phase::Checking;
                        (manager, Some(Notice::Turning(wish)))
                    }
                },
                Event::Disconnected => {
                    manager.phase = Phase::Stopped;
                    (manager, None)
                },
                _ => (manager, None),
            },
            Phase::Checking => match event {
                Event::Checked(wishes) => {
                    let n: usize = wishes.len();
                    if n > 0 && wishes[n - 1] != wanted {
                        let wish = wishes[n - 1];
                        manager.last_active = wish;
                        (manager, Some(Notice::Turning(wish)))
                    } else {
                        manager.phase = Phase::Attempting;
                        (manager, None)
                    }
                },
                _ => (manager, None),
            },
            Phase::Attempting => match event {
                Event::Attempted(succeeded) => {
                    manager.phase = Phase::Sensing;
                    if succeeded {
                        (manager, None)
                    } else {
                        (manager, Some(Notice::Retrying(wanted)))
                    }
                },
                _ => (manager, None),
            },
            Phase::Sensing => match event {
                Event::Sensed(Some(outputs)) => {
                    if is_connected(&outputs, manager.output.as_str()) == wanted {
                        manager.phase = Phase::Waiting;
                        (manager, Some(Notice::Turned(wanted)))
                    } else {
                        manager.phase = Phase::Pausing;
                        (manager, None)
                    }
                },
                Event::Sensed(None) => {
                    manager.phase = Phase::Pausing;
                    (manager, Some(Notice::Retrying(wanted)))
                },
                _ => (manager, None),
            },
            Phase::Pausing => match event {
                Event::Slept => {
                    manager.phase = Phase::Checking;
                    (manager, None)
                },
                _ => (manager, None),
            },
            Phase::Stopped => (manager, None),
        }
    }

    /// What to do next.
    pub fn action(&self) -> (action: Action)
        ensures
            action == self.spec_action(),
    {
        match self.phase {
            Phase::Waiting => Action::Receive,
            Phase::Checking => Action::Check,
            Phase::Attempting => if self.last_active {
                Action::TurnOn
            } else {
                Action::TurnOff
            },
            Phase::Sensing => Action::Sense,
            Phase::Pausing => Action::Sleep(RETRY_INTERVAL_MS),
            Phase::Stopped => Action::Stop,
        }
    }

    /// The attempt to make for `TurnOn`.
    pub fn power_on(&self) -> (attempt: PowerOn)
        ensures
            attempt.addr == self.addr,
            attempt.mac == self.mac,
            attempt.state == PowerOnState::Probing,
    {
        turn_on(self.addr.clone(), self.mac)
    }

    /// The attempt to make for `TurnOff`. It has [`POWER_KEY_TIMEOUT_MS`]
    /// to go.
    pub fn power_off(&self) -> (session: Shell)
        ensures
            session.serial@ == self.addr.text(),
            texts(session.command@) == power_key_command(),
            session.stage == Stage::Connect,
            session.executor == (Executor {
                timeout: Some(POWER_KEY_TIMEOUT_MS),
                state: ExecState::Spawning,
            }),
    {
        turn_off(&self.addr, Some(POWER_KEY_TIMEOUT_MS))
    }
}

/// The wish that an event brings, if it brings one: of several, the newest.
pub open spec fn wish_of(event: Event) -> Option<bool> {
    match event {
        Event::Received(wish) => Some(wish),
        Event::Checked(wishes) => newest(wishes@),
        _ => None,
    }
}

/// A wish for what was last wanted changes nothing. While the power manager
/// waits, it is dropped: the power manager goes on waiting and makes no
/// attempt. While the power manager works, wishes whose newest is for what
/// was last wanted do not hold it up: the attempt for what was last wanted
/// comes next.
pub proof fn lemma_same_wish_is_dropped(manager: PowerManager, wish: bool, wishes: Vec<bool>)
    requires
        wish == manager.last_active,
        newest(wishes@) == Some(wish),
    ensures
        manager.phase is Waiting ==> manager.spec_step(Event::Received(wish)) == manager
            && manager.spec_notice(Event::Received(wish)) is None && manager.spec_action()
            == Action::Receive,
        manager.phase is Checking ==> manager.spec_step(Event::Checked(wishes)) == manager.with(
            manager.last_active,
            Phase::Attempting,
        ) && manager.spec_notice(Event::Checked(wishes)) is None,
{
}

/// Of the wishes that have come in during a round, only the newest counts:
/// whatever came before it makes no difference.
pub proof fn lemma_only_newest_wish_counts(manager: PowerManager, wishes: Vec<bool>, others: Vec<bool>)
    requires
        newest(wishes@) == newest(others@),
    ensures
        manager.spec_step(Event::Checked(wishes)) == manager.spec_step(Event::Checked(others)),
        manager.spec_notice(Event::Checked(wishes)) == manager.spec_notice(Event::Checked(others)),
{
}

/// A power manager that waits makes no attempt for as long as every wish
/// that arrives is for what was last wanted, however many there are and
/// whatever else happens: after any such events it still waits, or has
/// stopped, and wants what it wanted.
pub proof fn lemma_no_attempt_without_new_wish(manager: PowerManager, events: Seq<Event>)
    requires
        manager.phase is Waiting,
        forall|i: int|
            0 <= i < events.len() ==> (#[trigger] wish_of(events[i])) is Some ==> wish_of(
                events[i],
            ) == Some(manager.last_active),
    ensures
        manager.run(events).phase is Waiting || manager.run(events).phase is Stopped,
        manager.run(events).last_active == manager.last_active,
        manager.run(events).spec_action() == Action::Receive || manager.run(events).spec_action()
            == Action::Stop,
    decreases events.len(),
{
    if events.len() > 0 {
        lemma_no_attempt_without_new_wish(manager, events.drop_last());
        assert(wish_of(events.last()) is Some ==> wish_of(events.last()) == Some(
            manager.last_active,
        ));
    }
}

/// A newer wish for the opposite takes the place of the wish that is being
/// worked on: the check before the next attempt takes it up, the work goes
/// on for the new wish, beginning with a check of its own, and nothing is
/// said of the television having been turned the way the old wish wanted.
pub proof fn lemma_newer_wish_preempts(manager: PowerManager, wishes: Vec<bool>, wish: bool)
    requires
        manager.phase is Checking,
        newest(wishes@) == Some(wish),
        wish != manager.last_active,
    ensures
        manager.spec_step(Event::Checked(wishes)) == manager.with(wish, Phase::Checking),
        manager.spec_step(Event::Checked(wishes)).spec_action() == Action::Check,
        manager.spec_notice(Event::Checked(wishes)) == Some(Notice::Turning(wish)),
{
}

/// No attempt is made without a check just before it that found no newer
/// wish for the opposite, and the attempt is for what was last wanted.
pub proof fn lemma_attempt_follows_check(manager: PowerManager, event: Event)
    requires
        !(manager.phase is Attempting),
        manager.spec_step(event).phase is Attempting,
    ensures
        manager.phase is Checking,
        event is Checked,
        wish_of(event) is Some ==> wish_of(event) == Some(manager.last_active),
        manager.spec_step(event).last_active == manager.last_active,
        manager.spec_step(event).spec_action() == if manager.last_active {
            Action::TurnOn
        } else {
            Action::TurnOff
        },
{
}

/// The power manager says that the television has been turned on or off
/// only when it has looked at the outputs and they show what is wanted. That
/// an attempt succeeded is never enough.
pub proof fn lemma_turned_means_confirmed(manager: PowerManager, event: Event)
    ensures
        manager.spec_notice(event) matches Some(Notice::Turned(on)) ==> {
            &&& manager.phase is Sensing
            &&& on == manager.last_active
            &&& event matches Event::Sensed(Some(outputs)) && spec_is_connected(
                views(outputs@),
                manager.output@,
            ) == on
        },
        event is Attempted ==> !(manager.spec_notice(event) matches Some(Notice::Turned(_))),
{
}

/// Work on a wish goes on until the outputs show what is wanted: a power
/// manager that works keeps working, whatever happens, unless it has just
/// looked at the outputs and found the television as wanted. It never stops,
/// and what is wanted changes only when a wish for the opposite is taken up.
pub proof fn lemma_work_goes_on_until_confirmed(manager: PowerManager, event: Event)
    requires
        manager.working(),
    ensures
        manager.spec_step(event).working() || (manager.spec_step(event).phase is Waiting
            && manager.spec_notice(event) == Some(Notice::Turned(manager.last_active))),
        manager.spec_step(event).last_active != manager.last_active ==> wish_of(event) == Some(
            manager.spec_step(event).last_active,
        ),
{
}

/// One round of the work on a wish, where no newer wish for the opposite
/// has come in: a check, an attempt, a look at the outputs. Whether or not
/// the attempt succeeded, the round ends with the power manager waiting if the
/// outputs show what is wanted, and else pausing; and after the pause it is
/// exactly where it was before the round, so that round follows round for as
/// long as the television does not follow.
pub proof fn lemma_round_repeats_until_confirmed(
    manager: PowerManager,
    wishes: Vec<bool>,
    succeeded: bool,
    outputs: Option<Vec<Output>>,
)
    requires
        manager.phase is Checking,
        newest(wishes@) is Some ==> newest(wishes@) == Some(manager.last_active),
    ensures
        ({
            let round = seq![
                Event::Checked(wishes),
                Event::Attempted(succeeded),
                Event::Sensed(outputs),
            ];
            let confirmed = outputs is Some && manager.confirmed(views(outputs->0@));
            &&& manager.run(round).last_active == manager.last_active
            &&& confirmed ==> manager.run(round).phase is Waiting
            &&& !confirmed ==> manager.run(round).phase is Pausing && manager.run(round).spec_step(
                Event::Slept,
            ) == manager
        }),
{
    reveal_with_fuel(PowerManager::run, 4);
}

/// The television and the output that a power manager is set up for are
/// never changed by what happens afterwards.
pub proof fn lemma_identity_is_fixed(manager: PowerManager, events: Seq<Event>)
    ensures
        manager.run(events).mac == manager.mac,
        manager.run(events).addr == manager.addr,
        manager.run(events).output == manager.output,
    decreases events.len(),
{
    if events.len() > 0 {
        lemma_identity_is_fixed(manager, events.drop_last());
    }
}

} // verus!
