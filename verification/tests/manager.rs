use tv_power::cli::{MacAddr, SockAddr};
use tv_power::manager::{
    Action, Event, Notice, Phase, PowerManager, StartError, RETRY_INTERVAL_MS,
};
use tv_power::outputs::{Output, Status};
use tv_power::power::{turn_off, turn_on, OutputError};
use tv_power::presence::UnknownPresenceStatus;

const HDMI: &str = "card0-HDMI-A-1";

fn tv() -> SockAddr {
    SockAddr { ip: String::from("192.168.1.20"), port: 5555 }
}

fn mac() -> MacAddr {
    MacAddr { mac: [0x00, 0x11, 0x22, 0x33, 0x44, 0x55] }
}

fn output(name: &str, status: Status) -> Output {
    Output { name: String::from(name), status }
}

fn tv_on() -> Vec<Output> {
    vec![output("card0-DP-1", Status::Disconnected), output(HDMI, Status::Connected)]
}

fn tv_off() -> Vec<Output> {
    vec![output("card0-DP-1", Status::Disconnected), output(HDMI, Status::Disconnected)]
}

/// A power manager for the sample television that last wanted `active`.
fn manager(active: bool) -> PowerManager {
    let status = if active { 0 } else { 3 };
    PowerManager::new(mac(), tv(), status, Some(String::from(HDMI)), &tv_on()).unwrap()
}

/// Feeds the events to the manager and collects the notices and, after each
/// event, the action asked for.
fn drive(mut manager: PowerManager, events: Vec<Event>) -> (PowerManager, Vec<Notice>, Vec<Action>) {
    let mut notices = Vec::new();
    let mut actions = Vec::new();
    for event in events {
        let (next, notice) = manager.step(event);
        manager = next;
        notices.extend(notice);
        actions.push(manager.action());
    }
    (manager, notices, actions)
}

fn attempts(actions: &[Action]) -> usize {
    actions.iter().filter(|action| matches!(action, Action::TurnOn | Action::TurnOff)).count()
}

#[test]
fn the_manager_starts_from_the_presence_at_that_moment() {
    let idle = PowerManager::new(mac(), tv(), 3, None, &tv_on()).unwrap();
    assert_eq!(
        idle,
        PowerManager {
            mac: mac(),
            addr: tv(),
            output: String::from(HDMI),
            last_active: false,
            phase: Phase::Waiting,
        }
    );
    assert_eq!(idle.action(), Action::Receive);
    for status in [0, 1, 2] {
        let active = PowerManager::new(mac(), tv(), status, None, &tv_on()).unwrap();
        assert!(active.last_active);
        assert_eq!(active.phase, Phase::Waiting);
    }
}

#[test]
fn the_manager_needs_a_known_presence_and_an_output() {
    assert_eq!(
        PowerManager::new(mac(), tv(), 4, None, &tv_on()),
        Err(StartError::Presence(UnknownPresenceStatus(4)))
    );
    assert_eq!(
        PowerManager::new(mac(), tv(), 4, None, &tv_off()),
        Err(StartError::Presence(UnknownPresenceStatus(4)))
    );
    assert_eq!(
        PowerManager::new(mac(), tv(), 0, None, &tv_off()),
        Err(StartError::Output(OutputError::NoneConnected))
    );
    assert_eq!(
        PowerManager::new(mac(), tv(), 0, Some(String::from("nope")), &tv_on()),
        Err(StartError::Output(OutputError::Missing(String::from("nope"))))
    );
    let given = PowerManager::new(mac(), tv(), 0, Some(String::from("card0-DP-1")), &tv_on());
    assert_eq!(given.unwrap().output, "card0-DP-1");
}

#[test]
fn start_errors_say_what_is_wrong() {
    assert_eq!(
        StartError::Presence(UnknownPresenceStatus(4)).to_string(),
        "Failed to parse initial presence status: Unknown presence status: 4"
    );
    assert_eq!(
        StartError::Output(OutputError::Ambiguous).to_string(),
        "Failed to find graphical output: You haven't specified an output but there are \
         multiple connected outputs"
    );
}

#[test]
fn idle_at_the_start_and_idle_again_makes_no_attempt() {
    let (manager, notices, actions) = drive(manager(false), vec![Event::Received(false)]);
    assert_eq!(notices, Vec::new());
    assert_eq!(actions, vec![Action::Receive]);
    assert_eq!(manager.phase, Phase::Waiting);
    assert!(!manager.last_active);
}

#[test]
fn the_same_wish_twice_makes_one_attempt() {
    let (manager, notices, actions) = drive(
        manager(false),
        vec![
            Event::Received(true),
            Event::Checked(vec![]),
            Event::Attempted(true),
            Event::Sensed(Some(tv_on())),
            Event::Received(true),
        ],
    );
    assert_eq!(attempts(&actions), 1);
    assert_eq!(
        actions,
        vec![Action::Check, Action::TurnOn, Action::Sense, Action::Receive, Action::Receive]
    );
    assert_eq!(notices, vec![Notice::Turning(true), Notice::Turned(true)]);
    assert_eq!(manager.phase, Phase::Waiting);
}

#[test]
fn the_same_wish_while_working_does_not_start_over() {
    let (manager, notices, actions) = drive(
        manager(false),
        vec![Event::Received(true), Event::Checked(vec![true])],
    );
    assert_eq!(actions, vec![Action::Check, Action::TurnOn]);
    assert_eq!(notices, vec![Notice::Turning(true)]);
    assert!(manager.last_active);
}

#[test]
fn the_manager_retries_until_the_output_follows() {
    let (manager, notices, actions) = drive(
        manager(false),
        vec![
            Event::Received(true),
            Event::Checked(vec![]),
            Event::Attempted(true),
            Event::Sensed(Some(tv_off())),
            Event::Slept,
            Event::Checked(vec![]),
            Event::Attempted(true),
            Event::Sensed(Some(tv_off())),
            Event::Slept,
            Event::Checked(vec![]),
            Event::Attempted(true),
            Event::Sensed(Some(tv_on())),
        ],
    );
    assert_eq!(attempts(&actions), 3);
    assert_eq!(actions[3], Action::Sleep(RETRY_INTERVAL_MS));
    assert_eq!(RETRY_INTERVAL_MS, 100);
    assert_eq!(notices, vec![Notice::Turning(true), Notice::Turned(true)]);
    assert_eq!(manager.phase, Phase::Waiting);
    assert_eq!(manager.action(), Action::Receive);
}

#[test]
fn a_failed_attempt_is_followed_by_a_look_at_the_output() {
    let (manager, notices, actions) = drive(
        manager(true),
        vec![Event::Received(false), Event::Checked(vec![]), Event::Attempted(false)],
    );
    assert_eq!(actions, vec![Action::Check, Action::TurnOff, Action::Sense]);
    assert_eq!(notices, vec![Notice::Turning(false), Notice::Retrying(false)]);
    let (manager, notices, actions) = drive(manager, vec![Event::Sensed(Some(tv_off()))]);
    assert_eq!(notices, vec![Notice::Turned(false)]);
    assert_eq!(actions, vec![Action::Receive]);
    assert_eq!(manager.phase, Phase::Waiting);
}

#[test]
fn a_successful_attempt_alone_is_not_reported_as_turned() {
    let (manager, notices, _) = drive(
        manager(false),
        vec![Event::Received(true), Event::Checked(vec![]), Event::Attempted(true)],
    );
    assert_eq!(notices, vec![Notice::Turning(true)]);
    assert_eq!(manager.phase, Phase::Sensing);
    let (manager, notices, actions) = drive(manager, vec![Event::Sensed(Some(tv_off()))]);
    assert_eq!(notices, Vec::new());
    assert_eq!(actions, vec![Action::Sleep(100)]);
    assert_eq!(manager.phase, Phase::Pausing);
}

#[test]
fn outputs_that_cannot_be_read_mean_another_round() {
    let (manager, notices, actions) = drive(
        manager(false),
        vec![
            Event::Received(true),
            Event::Checked(vec![]),
            Event::Attempted(true),
            Event::Sensed(None),
        ],
    );
    assert_eq!(notices, vec![Notice::Turning(true), Notice::Retrying(true)]);
    assert_eq!(actions[3], Action::Sleep(100));
    assert_eq!(manager.phase, Phase::Pausing);
}

#[test]
fn a_newer_opposite_wish_takes_over_before_the_next_attempt() {
    let (manager, notices, actions) = drive(
        manager(false),
        vec![
            Event::Received(true),
            Event::Checked(vec![]),
            Event::Attempted(true),
            Event::Sensed(Some(tv_off())),
            Event::Slept,
            Event::Checked(vec![false]),
            Event::Checked(vec![]),
        ],
    );
    assert_eq!(
        actions,
        vec![
            Action::Check,
            Action::TurnOn,
            Action::Sense,
            Action::Sleep(100),
            Action::Check,
            Action::Check,
            Action::TurnOff,
        ]
    );
    assert_eq!(notices, vec![Notice::Turning(true), Notice::Turning(false)]);
    assert!(!manager.last_active);
    assert_eq!(manager.phase, Phase::Attempting);
}

#[test]
fn a_flicker_leaves_only_the_final_wish_to_act_on() {
    // Idle, then active and idle again before the manager gets to act.
    let (manager, notices, actions) = drive(
        manager(false),
        vec![
            Event::Received(false),
            Event::Received(true),
            Event::Checked(vec![false]),
            Event::Checked(vec![]),
        ],
    );
    assert_eq!(
        actions,
        vec![Action::Receive, Action::Check, Action::Check, Action::TurnOff]
    );
    assert!(!actions.contains(&Action::TurnOn));
    assert_eq!(notices, vec![Notice::Turning(true), Notice::Turning(false)]);
    assert!(!manager.last_active);
}

#[test]
fn of_several_wishes_only_the_newest_counts() {
    let checking = || drive(manager(false), vec![Event::Received(true)]).0;
    let (manager, notices, actions) = drive(checking(), vec![Event::Checked(vec![false, true])]);
    assert_eq!(actions, vec![Action::TurnOn]);
    assert_eq!(notices, Vec::new());
    assert!(manager.last_active);
    let (manager, notices, actions) =
        drive(checking(), vec![Event::Checked(vec![true, true, false])]);
    assert_eq!(actions, vec![Action::Check]);
    assert_eq!(notices, vec![Notice::Turning(false)]);
    assert!(!manager.last_active);
    let (manager, notices, actions) =
        drive(checking(), vec![Event::Checked(vec![false, true, false, true])]);
    assert_eq!(actions, vec![Action::TurnOn]);
    assert_eq!(notices, Vec::new());
    assert!(manager.last_active);
}

#[test]
fn the_output_that_counts_is_the_one_settled_on() {
    let other = vec![output("card0-DP-1", Status::Connected), output(HDMI, Status::Disconnected)];
    let (manager, notices, _) = drive(
        manager(false),
        vec![
            Event::Received(true),
            Event::Checked(vec![]),
            Event::Attempted(true),
            Event::Sensed(Some(other)),
        ],
    );
    assert_eq!(notices, vec![Notice::Turning(true)]);
    assert_eq!(manager.phase, Phase::Pausing);
    let gone = vec![output("card0-DP-1", Status::Connected)];
    let (manager, notices, _) = drive(
        self::manager(true),
        vec![
            Event::Received(false),
            Event::Checked(vec![]),
            Event::Attempted(true),
            Event::Sensed(Some(gone)),
        ],
    );
    assert_eq!(notices, vec![Notice::Turning(false), Notice::Turned(false)]);
    assert_eq!(manager.phase, Phase::Waiting);
}

#[test]
fn the_manager_stops_when_nobody_is_left_to_ask() {
    let (manager, notices, actions) = drive(manager(true), vec![Event::Disconnected]);
    assert_eq!(notices, Vec::new());
    assert_eq!(actions, vec![Action::Stop]);
    assert_eq!(manager.phase, Phase::Stopped);
    let (manager, _, actions) = drive(manager, vec![Event::Received(false), Event::Slept]);
    assert_eq!(actions, vec![Action::Stop, Action::Stop]);
    assert!(manager.last_active);
}

#[test]
fn the_manager_ignores_what_it_did_not_ask_for() {
    let (waiting, notices, actions) = drive(
        manager(true),
        vec![
            Event::Checked(vec![false]),
            Event::Attempted(false),
            Event::Sensed(Some(tv_off())),
            Event::Sensed(None),
            Event::Slept,
        ],
    );
    assert_eq!(notices, Vec::new());
    assert_eq!(actions, vec![Action::Receive; 5]);
    assert_eq!(waiting, manager(true));
    let (working, notices, actions) = drive(
        manager(true),
        vec![Event::Received(false), Event::Received(true), Event::Disconnected, Event::Slept],
    );
    assert_eq!(notices, vec![Notice::Turning(false)]);
    assert_eq!(actions, vec![Action::Check; 4]);
    assert!(!working.last_active);
}

#[test]
fn the_attempts_of_the_manager_are_for_its_television() {
    let manager = manager(true);
    assert_eq!(manager.power_on(), turn_on(tv(), mac()));
    assert_eq!(manager.power_off(), turn_off(&tv(), Some(1000)));
}

#[test]
fn notices_give_the_state_of_the_service() {
    assert_eq!(Notice::Turning(true).status(), "Turning TV on");
    assert_eq!(Notice::Turning(false).status(), "Turning TV off");
    assert_eq!(Notice::Retrying(true).status(), "Retrying TV power-on");
    assert_eq!(Notice::Retrying(false).status(), "Retrying TV power-off");
    assert_eq!(Notice::Turned(true).status(), "Idle");
    assert_eq!(Notice::Turned(false).status(), "Idle");
}
