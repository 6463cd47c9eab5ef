use wifi_setup::model::{AccessPointConfig, ApMode, AuthMethod, ClientConfig, WifiInfo};
use wifi_setup::scan::{AccessPointInfo, SecondaryChannel};
use wifi_setup::storage::default_info;
use wifi_setup::template::WifiSettingsTemplate;

fn found(ssid: &[u8], channel: u8, auth_method: AuthMethod) -> AccessPointInfo {
    AccessPointInfo {
        ssid: ssid.to_vec(),
        bssid: [0, 1, 2, 3, 4, 5],
        channel,
        secondary_channel: SecondaryChannel::Unused,
        signal_strength: -60,
        auth_method,
    }
}

fn configured() -> WifiInfo {
    let mut info = default_info();
    info.sta_config = Some(ClientConfig {
        ssid: b"home".to_vec(),
        bssid: None,
        auth_method: AuthMethod::WPA2Personal,
        password: b"secret".to_vec(),
        channel: None,
    });
    info.ap_config = Some(AccessPointConfig {
        ssid: b"device".to_vec(),
        ssid_hidden: true,
        channel: 6,
        secondary_channel: None,
        protocols: 0,
        auth_method: AuthMethod::WPA2Personal,
        password: b"devpass1".to_vec(),
        max_connections: 10,
    });
    info.ap_mode = ApMode::Always;
    info
}

#[test]
fn default_config_shows_empty_roles() {
    let s = WifiSettingsTemplate::from_info(&default_info());
    assert!(s.client.ssid.is_empty());
    assert!(s.client.password.is_empty());
    assert!(s.ap.ssid.is_empty());
    assert_eq!(s.client.subnet_mask, [255, 255, 255, 0]);
    assert_eq!(s.client.ip, [0, 0, 0, 0]);
    assert_eq!(s.ap.mode, ApMode::NoConnOnBoot);
}

#[test]
fn configured_roles_are_shown() {
    let s = WifiSettingsTemplate::from_info(&configured());
    assert_eq!(s.client.ssid, b"home".to_vec());
    assert_eq!(s.client.password, b"secret".to_vec());
    assert_eq!(s.ap.ssid, b"device".to_vec());
    assert!(s.ap.hidden);
    assert_eq!(s.ap.channel, 6);
    assert_eq!(s.ap.mode, ApMode::Always);
}

#[test]
fn empty_roles_read_back_as_absent() {
    let s = WifiSettingsTemplate::from_info(&default_info());
    let back = s.to_info(&vec![found(b"", 3, AuthMethod::Open)]);
    assert_eq!(back, default_info());
}

#[test]
fn settings_round_trip_keeps_roles() {
    let info = configured();
    let back = WifiSettingsTemplate::from_info(&info).to_info(&vec![]);
    assert_eq!(back, info);
}

#[test]
fn empty_ssid_drops_a_role() {
    let mut info = configured();
    info.sta_config.as_mut().unwrap().ssid.clear();
    let back = WifiSettingsTemplate::from_info(&info).to_info(&vec![]);
    assert!(back.sta_config.is_none());
    assert!(back.ap_config.is_some());
}

#[test]
fn scan_result_gives_channel_and_auth() {
    let s = WifiSettingsTemplate::from_info(&configured());
    let scan = vec![
        found(b"other", 1, AuthMethod::WEP),
        found(b"home", 11, AuthMethod::WPA3Personal),
        found(b"home", 4, AuthMethod::WPA),
    ];
    let sta = s.to_info(&scan).sta_config.unwrap();
    assert_eq!(sta.channel, Some(11));
    assert_eq!(sta.auth_method, AuthMethod::WPA3Personal);
    assert_eq!(sta.bssid, None);
}

#[test]
fn unseen_network_with_password_is_wpa2() {
    let s = WifiSettingsTemplate::from_info(&configured());
    let sta = s.to_info(&vec![found(b"other", 1, AuthMethod::WEP)]).sta_config.unwrap();
    assert_eq!(sta.channel, None);
    assert_eq!(sta.auth_method, AuthMethod::WPA2Personal);
}

#[test]
fn unseen_network_without_password_is_open() {
    let mut info = configured();
    info.sta_config.as_mut().unwrap().password.clear();
    let s = WifiSettingsTemplate::from_info(&info);
    let sta = s.to_info(&vec![]).sta_config.unwrap();
    assert_eq!(sta.auth_method, AuthMethod::Open);
}

#[test]
fn ap_from_settings_is_wpa2_with_ten_connections() {
    let mut s = WifiSettingsTemplate::from_info(&default_info());
    s.ap.ssid = b"mine".to_vec();
    s.ap.password = b"pw".to_vec();
    s.ap.channel = 9;
    let ap = s.to_info(&vec![]).ap_config.unwrap();
    assert_eq!(ap.auth_method, AuthMethod::WPA2Personal);
    assert_eq!(ap.max_connections, 10);
    assert_eq!(ap.secondary_channel, None);
    assert_eq!(ap.channel, 9);
}

#[test]
fn mask_bytes_read_back_as_width() {
    let mut s = WifiSettingsTemplate::from_info(&default_info());
    s.client.subnet_mask = [255, 255, 0, 0];
    assert_eq!(s.to_info(&vec![]).ip_info.mask, 16);
    s.client.subnet_mask = [255, 0, 255, 0];
    assert_eq!(s.to_info(&vec![]).ip_info.mask, 16);
}
