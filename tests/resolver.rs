use wifi_setup::model::{
    default_ap_config, default_client_config, AccessPointConfig, ApMode, AuthMethod, ClientConfig,
    WifiInfo,
};
use wifi_setup::resolver::{step, Action, Event, RadioConfig, RadioError, Stage, CONNECT_TIMEOUT_SECS};
use wifi_setup::storage::default_info;

/// Runs a resolution against a driver whose operations all succeed, which reports
/// `current` as its configuration and `connected` as the outcome of a wait.
fn run(info: &WifiInfo, current: &RadioConfig, connected: bool) -> Vec<Action> {
    let mut actions = Vec::new();
    let mut stage = Stage::Begin;
    let mut event = Event::Begin;
    loop {
        let (next, action) = step(info, stage, &event);
        stage = next;
        event = match &action {
            Action::GetConfiguration => Event::Current(current.clone()),
            Action::WaitConnected(_) => Event::WaitOutcome(connected),
            Action::Succeed | Action::Abort(_) => {
                actions.push(action);
                return actions;
            }
            _ => Event::Done,
        };
        actions.push(action);
    }
}

fn station() -> ClientConfig {
    ClientConfig {
        ssid: b"home".to_vec(),
        bssid: None,
        auth_method: AuthMethod::WPA2Personal,
        password: b"secret".to_vec(),
        channel: Some(6),
    }
}

fn custom_ap() -> AccessPointConfig {
    AccessPointConfig {
        ssid: b"device".to_vec(),
        ssid_hidden: false,
        channel: 3,
        secondary_channel: None,
        protocols: 0,
        auth_method: AuthMethod::WPA2Personal,
        password: b"devpass1".to_vec(),
        max_connections: 10,
    }
}

fn configurations(actions: &[Action]) -> Vec<RadioConfig> {
    actions
        .iter()
        .filter_map(|a| match a {
            Action::SetConfiguration(c) => Some(c.clone()),
            _ => None,
        })
        .collect()
}

fn starts(actions: &[Action]) -> usize {
    actions.iter().filter(|a| matches!(a, Action::Start)).count()
}

#[test]
fn unchanged_ap_needs_no_restart() {
    let info = default_info();
    let current = RadioConfig::Mixed(default_client_config(), default_ap_config());
    let actions = run(&info, &current, false);
    assert!(matches!(actions[0], Action::SetIpInfo(_)));
    assert_eq!(actions[1], Action::GetConfiguration);
    assert_eq!(actions[2], Action::Succeed);
    assert_eq!(actions.len(), 3);
}

#[test]
fn changed_ap_is_applied_and_started_without_connecting() {
    let mut info = default_info();
    info.ap_config = Some(custom_ap());
    let current = RadioConfig::Mixed(default_client_config(), default_ap_config());
    let actions = run(&info, &current, false);
    assert_eq!(
        configurations(&actions),
        vec![RadioConfig::Mixed(default_client_config(), custom_ap())]
    );
    assert_eq!(starts(&actions), 1);
    assert!(!actions.contains(&Action::Connect));
    assert_eq!(*actions.last().unwrap(), Action::Succeed);
}

#[test]
fn radio_without_ap_gets_the_default_ap() {
    let info = default_info();
    let actions = run(&info, &RadioConfig::Off, false);
    assert_eq!(
        configurations(&actions),
        vec![RadioConfig::Mixed(default_client_config(), default_ap_config())]
    );
    assert_eq!(*actions.last().unwrap(), Action::Succeed);
}

#[test]
fn client_connects_within_the_timeout() {
    let mut info = default_info();
    info.sta_config = Some(station());
    let actions = run(&info, &RadioConfig::Off, true);
    assert_eq!(configurations(&actions), vec![RadioConfig::Client(station())]);
    assert!(actions.contains(&Action::Connect));
    assert!(actions.contains(&Action::WaitConnected(CONNECT_TIMEOUT_SECS)));
    assert_eq!(CONNECT_TIMEOUT_SECS, 15);
    assert_eq!(starts(&actions), 1);
    assert_eq!(*actions.last().unwrap(), Action::Succeed);
}

#[test]
fn client_timeout_falls_back_to_the_default_ap() {
    let mut info = default_info();
    info.sta_config = Some(station());
    let actions = run(&info, &RadioConfig::Off, false);
    assert_eq!(
        configurations(&actions),
        vec![
            RadioConfig::Client(station()),
            RadioConfig::Mixed(default_client_config(), default_ap_config()),
        ]
    );
    assert_eq!(starts(&actions), 2);
    assert_eq!(*actions.last().unwrap(), Action::Succeed);
}

#[test]
fn always_without_station_starts_the_ap_at_once() {
    let mut info = default_info();
    info.ap_mode = ApMode::Always;
    info.ap_config = Some(custom_ap());
    let actions = run(&info, &RadioConfig::Off, false);
    assert_eq!(
        configurations(&actions),
        vec![RadioConfig::Mixed(default_client_config(), custom_ap())]
    );
    assert_eq!(starts(&actions), 1);
    assert!(!actions.contains(&Action::Connect));
    assert!(!actions.iter().any(|a| matches!(a, Action::WaitConnected(_))));
    assert_eq!(*actions.last().unwrap(), Action::Succeed);
}

#[test]
fn always_with_station_runs_both_roles_and_tolerates_no_connection() {
    let mut info = default_info();
    info.ap_mode = ApMode::Always;
    info.sta_config = Some(station());
    let actions = run(&info, &RadioConfig::Off, false);
    assert_eq!(
        configurations(&actions),
        vec![RadioConfig::Mixed(station(), default_ap_config())]
    );
    assert!(actions.contains(&Action::Connect));
    assert_eq!(*actions.last().unwrap(), Action::Succeed);
}

#[test]
fn never_without_station_turns_the_radio_off() {
    let mut info = default_info();
    info.ap_mode = ApMode::Never;
    let actions = run(&info, &RadioConfig::Off, false);
    assert_eq!(configurations(&actions), vec![RadioConfig::Off]);
    assert_eq!(starts(&actions), 0);
    assert_eq!(*actions.last().unwrap(), Action::Succeed);
}

#[test]
fn never_with_station_has_no_ap_fallback() {
    let mut info = default_info();
    info.ap_mode = ApMode::Never;
    info.sta_config = Some(station());
    let actions = run(&info, &RadioConfig::Off, false);
    assert_eq!(configurations(&actions), vec![RadioConfig::Client(station())]);
    assert!(!actions.iter().any(|a| matches!(a, Action::WaitConnected(_))));
    assert_eq!(*actions.last().unwrap(), Action::Succeed);
}

#[test]
fn driver_failure_aborts() {
    let info = default_info();
    let (stage, action) = step(&info, Stage::IpSet, &Event::Failed);
    assert_eq!(stage, Stage::Finished);
    assert_eq!(action, Action::Abort(RadioError::Driver));
}

#[test]
fn unexpected_event_aborts() {
    let info = default_info();
    let (_, action) = step(&info, Stage::Begin, &Event::Done);
    assert_eq!(action, Action::Abort(RadioError::UnexpectedEvent));
}

#[test]
fn ip_assignment_comes_first() {
    let mut info = default_info();
    info.ip_info.ip = [192, 168, 4, 2];
    let (stage, action) = step(&info, Stage::Begin, &Event::Begin);
    assert_eq!(stage, Stage::IpSet);
    match action {
        Action::SetIpInfo(raw) => {
            assert_eq!(raw.ip, 0xC0A8_0402);
            assert_eq!(raw.netmask, 0xFFFF_FF00);
            assert_eq!(raw.gw, 0);
        }
        other => panic!("unexpected action {:?}", other),
    }
}

#[test]
fn ap_query_outside_no_conn_on_boot_aborts() {
    let mut info = default_info();
    info.ap_mode = ApMode::Never;
    let (_, action) = step(&info, Stage::QueryingAp, &Event::Current(RadioConfig::Off));
    assert_eq!(action, Action::Abort(RadioError::UnexpectedEvent));
    let (_, action) = step(&info, Stage::Waiting, &Event::WaitOutcome(false));
    assert_eq!(action, Action::Abort(RadioError::UnexpectedEvent));
}
