//! The presence status that the desktop session reports, and what it means
//! for the television.

use vstd::prelude::*;
use vstd::string::*;
use vstd::std_specs::convert::TryFromSpecImpl;
use crate::text::{decimal, push_decimal};

verus! {

/// The session's presence status, as the session manager publishes it.
#[derive(Debug, PartialEq, Eq, Clone, Copy, Structural)]
pub enum PresenceStatus {
    Available,
    Invisible,
    Busy,
    Idle,
}

impl PresenceStatus {
    /// Whether somebody is using the computer: every status but `Idle`.
    /// The television is wanted on exactly while this holds.
    pub open spec fn spec_is_active(self) -> bool {
        self != PresenceStatus::Idle
    }

    /// The status that the number `value` stands for on the bus, if any.
    pub open spec fn from_code(value: u32) -> Result<PresenceStatus, UnknownPresenceStatus> {
        if value == 0 {
            Ok(PresenceStatus::Available)
        } else if value == 1 {
            Ok(PresenceStatus::Invisible)
        } else if value == 2 {
            Ok(PresenceStatus::Busy)
        } else if value == 3 {
            Ok(PresenceStatus::Idle)
        } else {
            Err(UnknownPresenceStatus(value))
        }
    }

    #[verifier::when_used_as_spec(spec_is_active)]
    pub fn is_active(self) -> (active: bool)
        ensures
            active == self.spec_is_active(),
    {
        match self {
            PresenceStatus::Idle => false,
            _ => true,
        }
    }
}

impl TryFrom<u32> for PresenceStatus {
    type Error = UnknownPresenceStatus;

    fn try_from(value: u32) -> (parsed: Result<Self, Self::Error>)
    {
        match value {
            0 => Ok(PresenceStatus::Available),
            1 => Ok(PresenceStatus::Invisible),
            2 => Ok(PresenceStatus::Busy),
            3 => Ok(PresenceStatus::Idle),
            n => Err(UnknownPresenceStatus(n)),
        }
    }
}

impl TryFromSpecImpl<u32> for PresenceStatus {
    open spec fn obeys_try_from_spec() -> bool {
        true
    }

    open spec fn try_from_spec(value: u32) -> Result<Self, Self::Error> {
        PresenceStatus::from_code(value)
    }
}

/// A number received in place of a presence status that stands for none.
#[derive(Debug, PartialEq, Eq, Clone, Copy, Structural)]
pub struct UnknownPresenceStatus(pub u32);

impl UnknownPresenceStatus {
    /// What `to_string` returns.
    pub open spec fn text(self) -> Seq<char> {
        "Unknown presence status: "@ + decimal(self.0 as int)
    }

    /// The offending number.
    pub fn value(&self) -> (value: u32)
        ensures
            value == self.0,
    {
        self.0
    }

    /// A one-line description for logs.
    pub fn to_string(&self) -> (s: String)
        ensures
            s@ == self.text(),
    {
        let mut s = String::from_str("Unknown presence status: ");
        push_decimal(&mut s, self.0 as i64);
        s
    }
}

/// What a presence status, as a number from the bus, wants of the
/// television: on for every status but idle. A number that stands for no
/// status wants nothing.
pub open spec fn spec_desired_power(status: u32) -> Result<bool, UnknownPresenceStatus> {
    match PresenceStatus::from_code(status) {
        Ok(presence) => Ok(presence.spec_is_active()),
        Err(unknown) => Err(unknown),
    }
}

/// Reads a change of the presence status as what is wanted of the
/// television: `true` for on.
pub fn desired_power(status: u32) -> (wish: Result<bool, UnknownPresenceStatus>)
    ensures
        wish == spec_desired_power(status),
{
    match PresenceStatus::try_from(status) {
        Ok(presence) => Ok(presence.is_active()),
        Err(unknown) => Err(unknown),
    }
}

/// How many times to try to connect to the session bus.
pub const CONNECT_ATTEMPTS: u32 = 30;

/// How connecting to the session bus goes on after an attempt.
#[derive(Debug, PartialEq, Eq, Clone, Copy, Structural)]
pub enum Connecting {
    /// The attempt succeeded.
    Connected,
    /// The attempt failed; make the attempt with this number.
    Retry(u32),
    /// The attempt failed and it was the last.
    GaveUp,
}

/// Decides how connecting to the session bus goes on after attempt number
/// `attempt`, counted from 1: a failed attempt is followed by another until
/// [`CONNECT_ATTEMPTS`] have been made.
pub fn connect_dbus(attempt: u32, connected: bool) -> (next: Connecting)
    ensures
        next == if connected {
            Connecting::Connected
        } else if attempt < CONNECT_ATTEMPTS {
            Connecting::Retry((attempt + 1) as u32)
        } else {
            Connecting::GaveUp
        },
{
    if connected {
        Connecting::Connected
    } else if attempt < CONNECT_ATTEMPTS {
        Connecting::Retry(attempt + 1)
    } else {
        Connecting::GaveUp
    }
}

} // verus!
