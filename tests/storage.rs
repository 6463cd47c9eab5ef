use wifi_setup::codec::encode;
use wifi_setup::model::{AccessPointConfig, ApMode, AuthMethod, ClientConfig};
use wifi_setup::storage::{default_info, StoreError, WifiStorage};

#[test]
fn absent_key_loads_the_default() {
    let store = WifiStorage::new(None);
    let info = store.get_info().unwrap();
    assert_eq!(info.ip_info.ip, [0, 0, 0, 0]);
    assert_eq!(info.ip_info.gateway, [0, 0, 0, 0]);
    assert_eq!(info.ip_info.mask, 24);
    assert_eq!(info.ip_info.dns, None);
    assert_eq!(info.ip_info.secondary_dns, None);
    assert!(info.sta_config.is_none());
    assert!(info.ap_config.is_none());
    assert_eq!(info.ap_mode, ApMode::NoConnOnBoot);
}

#[test]
fn removing_an_absent_key_succeeds() {
    let mut store = WifiStorage::new(None);
    assert_eq!(store.set_info(None), Ok(()));
    assert!(store.stored().is_none());
    assert_eq!(store.set_info(None), Ok(()));
    assert!(store.stored().is_none());
}

#[test]
fn stored_config_loads_back() {
    let mut store = WifiStorage::new(None);
    let mut info = default_info();
    info.sta_config = Some(ClientConfig {
        ssid: b"home".to_vec(),
        bssid: None,
        auth_method: AuthMethod::WPA2Personal,
        password: b"secret".to_vec(),
        channel: None,
    });
    info.ap_mode = ApMode::Never;
    store.set_info(Some(&info)).unwrap();
    assert_eq!(store.stored(), Some(&encode(&info).unwrap()));
    assert_eq!(store.get_info(), Ok(info));
}

#[test]
fn removing_a_present_key_loads_the_default_again() {
    let mut info = default_info();
    info.ap_mode = ApMode::Always;
    let mut store = WifiStorage::new(Some(encode(&info).unwrap()));
    assert_eq!(store.get_info(), Ok(info));
    store.set_info(None).unwrap();
    assert_eq!(store.get_info(), Ok(default_info()));
}

#[test]
fn overflowing_config_leaves_the_store_unchanged() {
    let before = encode(&default_info()).unwrap();
    let mut store = WifiStorage::new(Some(before.clone()));
    let mut info = default_info();
    info.ap_config = Some(AccessPointConfig {
        ssid: b"ap".to_vec(),
        ssid_hidden: false,
        channel: 3,
        secondary_channel: None,
        protocols: 0,
        auth_method: AuthMethod::WPA2Personal,
        password: vec![b'z'; 70],
        max_connections: 10,
    });
    assert_eq!(store.set_info(Some(&info)), Err(StoreError::EncodeOverflow));
    assert_eq!(store.stored(), Some(&before));
}

#[test]
fn corrupt_record_is_a_decode_error() {
    let store = WifiStorage::new(Some(vec![1, 2, 3]));
    assert_eq!(store.get_info(), Err(StoreError::DecodeError));
    let store = WifiStorage::new(Some(vec![]));
    assert_eq!(store.get_info(), Err(StoreError::DecodeError));
}

#[test]
fn invalid_field_leaves_the_store_unchanged() {
    let mut store = WifiStorage::new(None);
    let mut info = default_info();
    info.ip_info.mask = 40;
    assert_eq!(store.set_info(Some(&info)), Err(StoreError::InvalidField));
    assert!(store.stored().is_none());
}
