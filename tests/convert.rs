use wifi_setup::convert::{be_bytes_of, be_u32_of, count_ones, mask_from_width, raw_ip_info};
use wifi_setup::model::IpInfo;

#[test]
fn mask_of_common_widths() {
    assert_eq!(mask_from_width(0), 0);
    assert_eq!(mask_from_width(8), 0xFF00_0000);
    assert_eq!(mask_from_width(24), 0xFFFF_FF00);
    assert_eq!(mask_from_width(31), 0xFFFF_FFFE);
    assert_eq!(mask_from_width(32), 0xFFFF_FFFF);
}

#[test]
fn every_width_counts_back() {
    for w in 0u8..=32 {
        let m = mask_from_width(w);
        assert_eq!(count_ones(m), w);
        assert_eq!(count_ones(be_u32_of(be_bytes_of(m))), w);
    }
}

#[test]
fn count_ones_of_a_non_contiguous_mask() {
    assert_eq!(count_ones(0xFF00_FF00), 16);
    assert_eq!(count_ones(0), 0);
    assert_eq!(count_ones(1), 1);
}

#[test]
fn big_endian_bytes() {
    assert_eq!(be_bytes_of(0xFFFF_FF00), [255, 255, 255, 0]);
    assert_eq!(be_u32_of([192, 168, 1, 2]), 0xC0A8_0102);
}

#[test]
fn raw_ip_info_of_an_assignment() {
    let info = IpInfo {
        ip: [10, 0, 0, 7],
        gateway: [10, 0, 0, 1],
        mask: 16,
        dns: None,
        secondary_dns: None,
    };
    let raw = raw_ip_info(&info);
    assert_eq!(raw.ip, 0x0A00_0007);
    assert_eq!(raw.gw, 0x0A00_0001);
    assert_eq!(raw.netmask, 0xFFFF_0000);
}
