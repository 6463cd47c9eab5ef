use wifi_setup::text::check_utf8;
use wifi_setup::model::AuthMethod;
use wifi_setup::scan::{
    ap_infos_from_records, auth_from_driver, AccessPointInfo, ApRecord, ScanError,
    SecondaryChannel,
};

fn record(ssid: &[u8], second: u32, authmode: u32) -> ApRecord {
    let mut raw = ssid.to_vec();
    raw.resize(33, 0);
    ApRecord { ssid: raw, bssid: [9, 8, 7, 6, 5, 4], primary: 6, second, rssi: -70, authmode }
}

#[test]
fn auth_table() {
    let expected = [
        AuthMethod::Open,
        AuthMethod::WEP,
        AuthMethod::WPA,
        AuthMethod::WPA2Personal,
        AuthMethod::WPAWPA2Personal,
        AuthMethod::WPA2Enterprise,
        AuthMethod::WPA3Personal,
        AuthMethod::WPA2WPA3Personal,
        AuthMethod::WAPIPersonal,
    ];
    for (code, a) in expected.iter().enumerate() {
        assert_eq!(auth_from_driver(code as u32), Ok(*a));
        assert_eq!(a.code() as usize, code);
    }
}

#[test]
fn unknown_auth_mode_is_an_error() {
    assert_eq!(auth_from_driver(9), Err(ScanError::UnknownAuthMode));
    assert_eq!(auth_from_driver(u32::MAX), Err(ScanError::UnknownAuthMode));
}

#[test]
fn record_converts() {
    let info = AccessPointInfo::from_record(&record(b"cafe", 1, 3)).unwrap();
    assert_eq!(info.ssid, b"cafe".to_vec());
    assert_eq!(info.bssid, [9, 8, 7, 6, 5, 4]);
    assert_eq!(info.channel, 6);
    assert_eq!(info.secondary_channel, SecondaryChannel::Above);
    assert_eq!(info.signal_strength, -70);
    assert_eq!(info.auth_method, AuthMethod::WPA2Personal);
}

#[test]
fn ssid_without_terminator_is_an_error() {
    let mut r = record(b"", 0, 0);
    r.ssid = vec![b'a'; 33];
    assert_eq!(AccessPointInfo::from_record(&r), Err(ScanError::MalformedSsid));
}

#[test]
fn unknown_secondary_channel_is_an_error() {
    assert_eq!(
        AccessPointInfo::from_record(&record(b"x", 7, 0)),
        Err(ScanError::UnknownSecondaryChannel)
    );
}

#[test]
fn records_keep_driver_order() {
    let records = vec![record(b"weak", 0, 0), record(b"strong", 2, 4)];
    let infos = ap_infos_from_records(&records).unwrap();
    assert_eq!(infos.len(), 2);
    assert_eq!(infos[0].ssid, b"weak".to_vec());
    assert_eq!(infos[1].ssid, b"strong".to_vec());
    assert_eq!(infos[1].secondary_channel, SecondaryChannel::Below);
}

#[test]
fn one_bad_record_fails_the_list() {
    let records = vec![record(b"good", 0, 0), record(b"bad", 0, 42)];
    assert_eq!(ap_infos_from_records(&records), Err(ScanError::UnknownAuthMode));
}

#[test]
fn bssid_is_written_as_hex_pairs() {
    let text = wifi_setup::scan::bssid_text(&[0x0A, 0x1B, 0x2C, 0x3D, 0x4E, 0xFF]);
    assert_eq!(text, b"0A:1B:2C:3D:4E:FF".to_vec());
}

#[test]
fn non_utf8_ssid_is_malformed() {
    let r = record(&[0xFF, 0xFE], 0, 0);
    assert_eq!(AccessPointInfo::from_record(&r), Err(ScanError::MalformedSsid));
}

#[test]
fn ssid_over_32_bytes_is_malformed() {
    let mut r = record(b"", 0, 0);
    r.ssid = vec![b'a'; 33];
    r.ssid.push(0);
    assert_eq!(AccessPointInfo::from_record(&r), Err(ScanError::MalformedSsid));
}

#[test]
fn utf8_check() {
    assert!(check_utf8(b""));
    assert!(check_utf8("héllo ☕ 𝄞".as_bytes()));
    assert!(!check_utf8(&[0xFF]));
    assert!(!check_utf8(&[0xC0, 0x80]));
    assert!(!check_utf8(&[0xED, 0xA0, 0x80]));
    assert!(!check_utf8(&[0xF4, 0x90, 0x80, 0x80]));
    assert!(!check_utf8(&[0xE2, 0x82]));
}
