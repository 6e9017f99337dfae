use tv_power::adb::{ShellError, Stage};
use tv_power::cli::{MacAddr, SockAddr};
use tv_power::outputs::{Output, Status};
use tv_power::power::{
    find_output, ping_command, ping_tv, send_power_key, turn_off, turn_on, OutputError,
    PingError, PowerError, PowerOn, PowerOnAction, PowerOnEvent, PowerOnState, POWER_KEY,
    POWER_KEY_TIMEOUT_MS,
};
use tv_power::subprocess::{ExecError, ExecState, Executor, Failure, ProcessExit};

const HDMI: &str = "card0-HDMI-A-1";

fn tv() -> SockAddr {
    SockAddr { ip: String::from("192.168.1.20"), port: 5555 }
}

fn mac() -> MacAddr {
    MacAddr { mac: [0x00, 0x11, 0x22, 0x33, 0x44, 0x55] }
}

fn output(name: &str, status: Status) -> Output {
    Output { name: String::from(name), status }
}

fn strings(texts: &[&str]) -> Vec<String> {
    texts.iter().map(|text| String::from(*text)).collect()
}

fn exited(code: i32) -> Option<ProcessExit> {
    Some(ProcessExit { code: Some(code), signal: None })
}

fn tv_on() -> Vec<Output> {
    vec![output("card0-DP-1", Status::Disconnected), output(HDMI, Status::Connected)]
}

fn key_error() -> ShellError {
    ShellError { stage: Stage::Connect, error: ExecError::Failed(Failure::Exited(1)) }
}

#[test]
fn no_output_given_and_none_connected_is_an_error() {
    let outputs = vec![
        output("card0-DP-1", Status::Disconnected),
        output(HDMI, Status::Unknown(String::from("connected?"))),
    ];
    assert_eq!(find_output(None, &outputs), Err(OutputError::NoneConnected));
    assert_eq!(find_output(None, &Vec::new()), Err(OutputError::NoneConnected));
}

#[test]
fn no_output_given_and_one_connected_selects_it() {
    assert_eq!(find_output(None, &tv_on()), Ok(String::from(HDMI)));
    let only = vec![output("card1-DP-3", Status::Connected)];
    assert_eq!(find_output(None, &only), Ok(String::from("card1-DP-3")));
}

#[test]
fn no_output_given_and_several_connected_is_an_error() {
    let outputs = vec![output("card0-DP-1", Status::Connected), output(HDMI, Status::Connected)];
    assert_eq!(find_output(None, &outputs), Err(OutputError::Ambiguous));
    let three = vec![
        output("a", Status::Connected),
        output("b", Status::Connected),
        output("c", Status::Connected),
    ];
    assert_eq!(find_output(None, &three), Err(OutputError::Ambiguous));
}

#[test]
fn an_output_that_is_given_must_exist() {
    assert_eq!(
        find_output(Some(String::from("card0-DP-7")), &tv_on()),
        Err(OutputError::Missing(String::from("card0-DP-7")))
    );
    assert_eq!(
        find_output(Some(String::from(HDMI)), &Vec::new()),
        Err(OutputError::Missing(String::from(HDMI)))
    );
}

#[test]
fn an_output_that_is_given_need_not_be_connected() {
    assert_eq!(
        find_output(Some(String::from("card0-DP-1")), &tv_on()),
        Ok(String::from("card0-DP-1"))
    );
    let several = vec![output("card0-DP-1", Status::Connected), output(HDMI, Status::Connected)];
    assert_eq!(find_output(Some(String::from(HDMI)), &several), Ok(String::from(HDMI)));
}

#[test]
fn output_errors_say_what_is_wrong() {
    assert_eq!(
        OutputError::Missing(String::from("card0-DP-7")).to_string(),
        "Output card0-DP-7 doesn't exist"
    );
    assert_eq!(
        OutputError::NoneConnected.to_string(),
        "You haven't specified an output and no outputs are connected"
    );
    assert_eq!(
        OutputError::Ambiguous.to_string(),
        "You haven't specified an output but there are multiple connected outputs"
    );
}

#[test]
fn ping_says_yes_with_zero_and_no_with_one() {
    assert_eq!(ping_tv(exited(0)), Ok(true));
    assert_eq!(ping_tv(exited(1)), Ok(false));
}

#[test]
fn any_other_end_of_ping_is_an_error() {
    assert_eq!(ping_tv(exited(2)), Err(PingError::Failed(Failure::Exited(2))));
    assert_eq!(
        ping_tv(Some(ProcessExit { code: None, signal: Some(2) })),
        Err(PingError::Failed(Failure::Signal(2)))
    );
    assert_eq!(
        ping_tv(Some(ProcessExit { code: None, signal: None })),
        Err(PingError::Failed(Failure::NoStatusCode))
    );
    assert_eq!(ping_tv(None), Err(PingError::Invoke));
}

#[test]
fn ping_errors_say_what_is_wrong() {
    assert_eq!(PingError::Invoke.to_string(), "Failed to invoke ping");
    assert_eq!(
        PingError::Failed(Failure::Exited(2)).to_string(),
        "ping exited with status 2"
    );
    assert_eq!(
        PingError::Failed(Failure::Signal(2)).to_string(),
        "ping died from signal SIGINT"
    );
    assert_eq!(
        PowerError::Ping(PingError::Invoke).to_string(),
        "Failed to invoke ping"
    );
    assert_eq!(PowerError::Wake.to_string(), "Failed to send the Wake-on-LAN packet");
}

#[test]
fn ping_sends_one_packet_with_a_short_timeout() {
    let line = ping_command("192.168.1.20");
    assert_eq!(line.program, "ping");
    assert_eq!(line.args, strings(&["-q", "-c", "1", "-W", "0.1", "192.168.1.20"]));
    assert!(line.quiet);
}

#[test]
fn the_power_key_is_keycode_26() {
    assert_eq!(POWER_KEY, 26);
    let session = send_power_key(&tv(), Some(250));
    assert_eq!(session.serial, "192.168.1.20:5555");
    assert_eq!(session.command, strings(&["input", "keyevent", "26"]));
    assert_eq!(session.stage, Stage::Connect);
    assert_eq!(session.executor, Executor { timeout: Some(250), state: ExecState::Spawning });
}

#[test]
fn turning_off_is_a_press_of_the_power_key() {
    assert_eq!(turn_off(&tv(), Some(1000)), send_power_key(&tv(), Some(1000)));
    assert_eq!(turn_off(&tv(), None), send_power_key(&tv(), None));
}

#[test]
fn turning_off_has_no_deadline_unless_one_is_given() {
    let session = turn_off(&tv(), None);
    assert_eq!(session.executor, Executor { timeout: None, state: ExecState::Spawning });
    assert_eq!(session.command, strings(&["input", "keyevent", "26"]));
}

#[test]
fn turning_on_begins_with_a_ping() {
    let attempt = turn_on(tv(), mac());
    assert_eq!(attempt, PowerOn { addr: tv(), mac: mac(), state: PowerOnState::Probing });
    assert_eq!(attempt.action(), PowerOnAction::Ping);
    assert_eq!(attempt.ping(), ping_command("192.168.1.20"));
    assert_eq!(POWER_KEY_TIMEOUT_MS, 1000);
    assert_eq!(attempt.power_key(), send_power_key(&tv(), Some(1000)));
}

#[test]
fn a_television_that_answers_is_woken_by_its_power_key() {
    let mut attempt = turn_on(tv(), mac()).step(PowerOnEvent::Pinged(exited(0)));
    assert_eq!(attempt.action(), PowerOnAction::SendPowerKey);
    attempt = attempt.step(PowerOnEvent::KeySent(Ok(())));
    assert_eq!(attempt.action(), PowerOnAction::Finish(Ok(())));
}

#[test]
fn a_television_that_does_not_answer_gets_a_wake_packet() {
    let mut attempt = turn_on(tv(), mac()).step(PowerOnEvent::Pinged(exited(1)));
    assert_eq!(attempt.action(), PowerOnAction::Wake);
    assert_eq!(attempt.mac, mac());
    attempt = attempt.step(PowerOnEvent::Woke(true));
    assert_eq!(attempt.action(), PowerOnAction::Finish(Ok(())));
}

#[test]
fn a_power_key_that_fails_falls_back_to_the_wake_packet() {
    let mut attempt = turn_on(tv(), mac()).step(PowerOnEvent::Pinged(exited(0)));
    attempt = attempt.step(PowerOnEvent::KeySent(Err(key_error())));
    assert_eq!(attempt.action(), PowerOnAction::Wake);
    attempt = attempt.step(PowerOnEvent::Woke(true));
    assert_eq!(attempt.action(), PowerOnAction::Finish(Ok(())));
}

#[test]
fn a_wake_packet_that_cannot_be_sent_fails_the_attempt() {
    let mut attempt = turn_on(tv(), mac()).step(PowerOnEvent::Pinged(exited(0)));
    attempt = attempt.step(PowerOnEvent::KeySent(Err(key_error())));
    attempt = attempt.step(PowerOnEvent::Woke(false));
    assert_eq!(attempt.action(), PowerOnAction::Finish(Err(PowerError::Wake)));
    let direct = turn_on(tv(), mac())
        .step(PowerOnEvent::Pinged(exited(1)))
        .step(PowerOnEvent::Woke(false));
    assert_eq!(direct.action(), PowerOnAction::Finish(Err(PowerError::Wake)));
}

#[test]
fn a_ping_that_says_nothing_fails_the_attempt() {
    let attempt = turn_on(tv(), mac()).step(PowerOnEvent::Pinged(exited(2)));
    assert_eq!(
        attempt.action(),
        PowerOnAction::Finish(Err(PowerError::Ping(PingError::Failed(Failure::Exited(2)))))
    );
    let attempt = turn_on(tv(), mac()).step(PowerOnEvent::Pinged(None));
    assert_eq!(
        attempt.action(),
        PowerOnAction::Finish(Err(PowerError::Ping(PingError::Invoke)))
    );
    let later = attempt.clone().step(PowerOnEvent::Woke(true));
    assert_eq!(later, attempt);
}

#[test]
fn an_attempt_ignores_what_it_did_not_ask_for() {
    let probing = turn_on(tv(), mac());
    assert_eq!(probing.clone().step(PowerOnEvent::Woke(true)), probing);
    assert_eq!(probing.clone().step(PowerOnEvent::KeySent(Ok(()))), probing);
    let keying = probing.step(PowerOnEvent::Pinged(exited(0)));
    assert_eq!(keying.clone().step(PowerOnEvent::Woke(true)), keying);
    assert_eq!(keying.clone().step(PowerOnEvent::Pinged(exited(1))), keying);
}
