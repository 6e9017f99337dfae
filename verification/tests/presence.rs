use tv_power::presence::{
    connect_dbus, desired_power, Connecting, PresenceStatus, UnknownPresenceStatus,
    CONNECT_ATTEMPTS,
};

#[test]
fn every_status_but_idle_is_active() {
    assert!(PresenceStatus::Available.is_active());
    assert!(PresenceStatus::Invisible.is_active());
    assert!(PresenceStatus::Busy.is_active());
    assert!(!PresenceStatus::Idle.is_active());
}

#[test]
fn the_four_codes_stand_for_the_four_statuses() {
    assert_eq!(PresenceStatus::try_from(0), Ok(PresenceStatus::Available));
    assert_eq!(PresenceStatus::try_from(1), Ok(PresenceStatus::Invisible));
    assert_eq!(PresenceStatus::try_from(2), Ok(PresenceStatus::Busy));
    assert_eq!(PresenceStatus::try_from(3), Ok(PresenceStatus::Idle));
}

#[test]
fn any_other_code_is_unknown() {
    assert_eq!(PresenceStatus::try_from(4), Err(UnknownPresenceStatus(4)));
    assert_eq!(
        PresenceStatus::try_from(u32::MAX),
        Err(UnknownPresenceStatus(u32::MAX))
    );
}

#[test]
fn unknown_status_says_its_number() {
    let unknown = PresenceStatus::try_from(17).unwrap_err();
    assert_eq!(unknown.value(), 17);
    assert_eq!(unknown.to_string(), "Unknown presence status: 17");
    assert_eq!(
        UnknownPresenceStatus(4294967295).to_string(),
        "Unknown presence status: 4294967295"
    );
    assert_eq!(UnknownPresenceStatus(0).to_string(), "Unknown presence status: 0");
}

#[test]
fn a_status_change_wants_the_tv_on_unless_idle() {
    assert_eq!(desired_power(0), Ok(true));
    assert_eq!(desired_power(1), Ok(true));
    assert_eq!(desired_power(2), Ok(true));
    assert_eq!(desired_power(3), Ok(false));
}

#[test]
fn an_unknown_status_change_wants_nothing() {
    assert_eq!(desired_power(4), Err(UnknownPresenceStatus(4)));
    assert_eq!(desired_power(1000), Err(UnknownPresenceStatus(1000)));
}

#[test]
fn connecting_to_the_bus_is_tried_thirty_times() {
    assert_eq!(CONNECT_ATTEMPTS, 30);
    assert_eq!(connect_dbus(1, true), Connecting::Connected);
    assert_eq!(connect_dbus(30, true), Connecting::Connected);
    assert_eq!(connect_dbus(1, false), Connecting::Retry(2));
    assert_eq!(connect_dbus(29, false), Connecting::Retry(30));
    assert_eq!(connect_dbus(30, false), Connecting::GaveUp);
    let mut attempt = 1;
    let mut made = 1;
    while let Connecting::Retry(next) = connect_dbus(attempt, false) {
        attempt = next;
        made += 1;
    }
    assert_eq!(made, 30);
}
