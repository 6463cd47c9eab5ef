use wifi_setup::codec::{decode, encode, CodecError, CAPACITY};
use wifi_setup::model::{AccessPointConfig, ApMode, AuthMethod, ClientConfig, IpInfo, WifiInfo};
use wifi_setup::storage::default_info;

fn full_config(ssid_len: usize, password_len: usize) -> WifiInfo {
    WifiInfo {
        ip_info: IpInfo {
            ip: [192, 168, 1, 20],
            gateway: [192, 168, 1, 1],
            mask: 24,
            dns: Some([8, 8, 8, 8]),
            secondary_dns: Some([1, 1, 1, 1]),
        },
        sta_config: Some(ClientConfig {
            ssid: vec![b'a'; ssid_len],
            bssid: Some([1, 2, 3, 4, 5, 6]),
            auth_method: AuthMethod::WPA3Personal,
            password: vec![b'p'; password_len],
            channel: Some(6),
        }),
        ap_config: Some(AccessPointConfig {
            ssid: vec![b'b'; ssid_len],
            ssid_hidden: true,
            channel: 11,
            secondary_channel: Some(2),
            protocols: 0,
            auth_method: AuthMethod::WPA2Personal,
            password: vec![b'q'; password_len],
            max_connections: 300,
        }),
        ap_mode: ApMode::Always,
    }
}

#[test]
fn round_trip_of_a_full_config() {
    let c = full_config(10, 12);
    let bytes = encode(&c).unwrap();
    assert_eq!(decode(&bytes), Ok(c));
}

#[test]
fn round_trip_at_the_largest_sizes() {
    let c = full_config(32, 64);
    let bytes = encode(&c).unwrap();
    assert!(bytes.len() <= CAPACITY);
    assert_eq!(decode(&bytes), Ok(c));
}

#[test]
fn round_trip_of_each_mode_and_empty_roles() {
    for mode in [ApMode::NoConnOnBoot, ApMode::Always, ApMode::Never] {
        let mut c = default_info();
        c.ap_mode = mode;
        let bytes = encode(&c).unwrap();
        assert_eq!(decode(&bytes), Ok(c));
    }
}

#[test]
fn encoding_of_the_default_config() {
    let bytes = encode(&default_info()).unwrap();
    assert_eq!(bytes, vec![0, 0, 0, 0, 0, 0, 0, 0, 24, 0, 0, 0, 0, 0]);
}

#[test]
fn mode_is_stored_as_its_code() {
    let mut c = default_info();
    c.ap_mode = ApMode::Never;
    let bytes = encode(&c).unwrap();
    assert_eq!(*bytes.last().unwrap(), 3);
    c.ap_mode = ApMode::Always;
    let bytes = encode(&c).unwrap();
    assert_eq!(*bytes.last().unwrap(), 2);
}

#[test]
fn long_ssid_overflows() {
    let c = full_config(33, 10);
    assert_eq!(encode(&c), Err(CodecError::EncodeOverflow));
}

#[test]
fn long_password_overflows() {
    let c = full_config(10, 65);
    assert_eq!(encode(&c), Err(CodecError::EncodeOverflow));
}

#[test]
fn long_ap_ssid_alone_overflows() {
    let mut c = default_info();
    c.ap_config = Some(AccessPointConfig {
        ssid: vec![b'x'; 40],
        ssid_hidden: false,
        channel: 1,
        secondary_channel: None,
        protocols: 0,
        auth_method: AuthMethod::WPA2Personal,
        password: vec![],
        max_connections: 10,
    });
    assert_eq!(encode(&c), Err(CodecError::EncodeOverflow));
}

#[test]
fn truncated_bytes_do_not_decode() {
    let bytes = encode(&full_config(5, 5)).unwrap();
    for n in 0..bytes.len() {
        assert_eq!(decode(&bytes[..n]), Err(CodecError::DecodeError));
    }
}

#[test]
fn trailing_bytes_do_not_decode() {
    let mut bytes = encode(&default_info()).unwrap();
    bytes.push(0);
    assert_eq!(decode(&bytes), Err(CodecError::DecodeError));
}

#[test]
fn unknown_mode_code_does_not_decode() {
    let mut bytes = encode(&default_info()).unwrap();
    let last = bytes.len() - 1;
    bytes[last] = 1;
    assert_eq!(decode(&bytes), Err(CodecError::DecodeError));
}

#[test]
fn unknown_auth_code_does_not_decode() {
    let c = full_config(1, 1);
    let mut bytes = encode(&c).unwrap();
    // ip (4 + 4 + 1 + 5 + 5), station tag, ssid (2), bssid (7): the auth byte follows
    let auth_at = 19 + 1 + 2 + 7;
    assert_eq!(bytes[auth_at], 6);
    bytes[auth_at] = 9;
    assert_eq!(decode(&bytes), Err(CodecError::DecodeError));
}

#[test]
fn overlong_stored_ssid_does_not_decode() {
    let mut bytes = encode(&full_config(1, 1)).unwrap();
    // the station ssid's length byte
    bytes[20] = 33;
    assert_eq!(decode(&bytes), Err(CodecError::DecodeError));
}

#[test]
fn stored_mask_over_32_does_not_decode() {
    let mut bytes = encode(&default_info()).unwrap();
    assert_eq!(bytes[8], 24);
    bytes[8] = 33;
    assert_eq!(decode(&bytes), Err(CodecError::DecodeError));
    bytes[8] = 32;
    assert!(decode(&bytes).is_ok());
}

#[test]
fn mask_over_32_is_not_encoded() {
    let mut c = default_info();
    c.ip_info.mask = 33;
    assert_eq!(encode(&c), Err(CodecError::InvalidField));
}

#[test]
fn non_utf8_ssid_is_not_encoded() {
    let mut c = full_config(3, 3);
    c.sta_config.as_mut().unwrap().ssid = vec![0xFF];
    assert_eq!(encode(&c), Err(CodecError::InvalidField));
}

#[test]
fn stored_non_utf8_ssid_does_not_decode() {
    let mut bytes = encode(&full_config(1, 1)).unwrap();
    // the station ssid's one byte
    assert_eq!(bytes[21], b'a');
    bytes[21] = 0xFF;
    assert_eq!(decode(&bytes), Err(CodecError::DecodeError));
}

#[test]
fn multibyte_ssid_round_trips() {
    let mut c = full_config(1, 1);
    c.sta_config.as_mut().unwrap().ssid = "café ☕".as_bytes().to_vec();
    let bytes = encode(&c).unwrap();
    assert_eq!(decode(&bytes), Ok(c));
}
