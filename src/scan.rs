use vstd::prelude::*;
use crate::model::{AuthMethod, SSID_MAX};
use crate::text::{check_utf8, is_utf8};

verus! {

/// Where the secondary channel of an access point lies.
#[derive(Debug, Clone, Copy, PartialEq, Eq, Structural)]
pub enum SecondaryChannel {
    Unused,
    Above,
    Below,
}

/// One access point found by a scan.
#[derive(Debug, Clone, PartialEq, Eq)]
pub struct AccessPointInfo {
    pub ssid: Vec<u8>,
    pub bssid: [u8; 6],
    pub channel: u8,
    pub secondary_channel: SecondaryChannel,
    pub signal_strength: i8,
    pub auth_method: AuthMethod,
}

pub struct AccessPointInfoView {
    pub ssid: Seq<u8>,
    pub bssid: [u8; 6],
    pub channel: u8,
    pub secondary_channel: SecondaryChannel,
    pub signal_strength: i8,
    pub auth_method: AuthMethod,
}

impl View for AccessPointInfo {
    type V = AccessPointInfoView;

    open spec fn view(&self) -> AccessPointInfoView {
        AccessPointInfoView {
            ssid: self.ssid@,
            bssid: self.bssid,
            channel: self.channel,
            secondary_channel: self.secondary_channel,
            signal_strength: self.signal_strength,
            auth_method: self.auth_method,
        }
    }
}

/// A scan record as the radio driver reports it.
#[derive(Debug, Clone, PartialEq, Eq)]
pub struct ApRecord {
    /// The ssid, terminated by a zero byte.
    pub ssid: Vec<u8>,
    pub bssid: [u8; 6],
    pub primary: u8,
    /// The driver's secondary-channel constant.
    pub second: u32,
    pub rssi: i8,
    /// The driver's authentication-mode constant.
    pub authmode: u32,
}

/// Why a scan gave no list.
#[derive(Debug, Clone, Copy, PartialEq, Eq, Structural)]
pub enum ScanError {
    /// The driver failed to start the scan or to hand out its records.
    Driver,
    /// The driver reported an authentication mode outside its known set.
    UnknownAuthMode,
    /// The driver reported a secondary-channel constant outside its known set.
    UnknownSecondaryChannel,
    /// The ssid bytes of a record hold no terminating zero, or the bytes before it are
    /// longer than 32 or not UTF-8.
    MalformedSsid,
}

/// The authentication method of a driver constant.
pub open spec fn auth_of_driver(mode: u32) -> Option<AuthMethod> {
    if mode <= 8 {
        AuthMethod::from_code_spec(mode as u8)
    } else {
        None
    }
}

pub open spec fn secondary_of_driver(second: u32) -> Option<SecondaryChannel> {
    if second == 0 {
        Some(SecondaryChannel::Unused)
    } else if second == 1 {
        Some(SecondaryChannel::Above)
    } else if second == 2 {
        Some(SecondaryChannel::Below)
    } else {
        None
    }
}

/// Whether `i` is the position of the first zero byte of `b`.
pub open spec fn is_first_zero(b: Seq<u8>, i: int) -> bool {
    &&& 0 <= i < b.len()
    &&& b[i] == 0
    &&& forall|j: int| 0 <= j < i ==> b[j] != 0
}

pub fn auth_from_driver(mode: u32) -> (r: Result<AuthMethod, ScanError>)
    ensures
        match auth_of_driver(mode) {
            Some(a) => r == Ok::<AuthMethod, ScanError>(a),
            None => r == Err::<AuthMethod, ScanError>(ScanError::UnknownAuthMode),
        },
{
    if mode > 8 {
        return Err(ScanError::UnknownAuthMode);
    }
    match AuthMethod::from_code(mode as u8) {
        Some(a) => Ok(a),
        None => Err(ScanError::UnknownAuthMode),
    }
}

fn secondary_from_driver(second: u32) -> (r: Result<SecondaryChannel, ScanError>)
    ensures
        match secondary_of_driver(second) {
            Some(c) => r == Ok::<SecondaryChannel, ScanError>(c),
            None => r == Err::<SecondaryChannel, ScanError>(ScanError::UnknownSecondaryChannel),
        },
{
    if second == 0 {
        Ok(SecondaryChannel::Unused)
    } else if second == 1 {
        Ok(SecondaryChannel::Above)
    } else if second == 2 {
        Ok(SecondaryChannel::Below)
    } else {
        Err(ScanError::UnknownSecondaryChannel)
    }
}

/// The bytes of `b` before its first zero byte, if it holds a zero.
pub open spec fn before_nul(b: Seq<u8>) -> Option<Seq<u8>> {
    if exists|i: int| is_first_zero(b, i) {
        Some(b.subrange(0, choose|i: int| is_first_zero(b, i)))
    } else {
        None
    }
}

/// The bytes of `b` before its first zero byte, or `None` when it holds no zero.
pub fn until_nul(b: &Vec<u8>) -> (r: Option<Vec<u8>>)
    ensures
        match r {
            Some(s) => before_nul(b@) == Some(s@),
            None => before_nul(b@) is None,
        },
{
    let mut out: Vec<u8> = Vec::new();
    let mut i: usize = 0;
    while i < b.len()
        invariant
            i <= b@.len(),
            out@ == b@.subrange(0, i as int),
            forall|j: int| 0 <= j < i ==> b@[j] != 0,
        decreases b@.len() - i,
    {
        if b[i] == 0 {
            let ghost k = i as int;
            assert(is_first_zero(b@, k));
            proof {
                let c = choose|m: int| is_first_zero(b@, m);
                assert(c == k) by {
                    if c < k {
                        assert(b@[c] != 0);
                    } else if c > k {
                        assert(b@[k] != 0);
                    }
                }
            }
            return Some(out);
        }
        out.push(b[i]);
        assert(out@ =~= b@.subrange(0, i + 1));
        i = i + 1;
    }
    assert forall|m: int| !is_first_zero(b@, m) by {}
    None
}

/// The error that a record gives, if any, in the order the fields are read.
pub open spec fn record_error(r: ApRecord) -> Option<ScanError> {
    if !(before_nul(r.ssid@) matches Some(s) && s.len() <= SSID_MAX && is_utf8(s)) {
        Some(ScanError::MalformedSsid)
    } else if secondary_of_driver(r.second) is None {
        Some(ScanError::UnknownSecondaryChannel)
    } else if auth_of_driver(r.authmode) is None {
        Some(ScanError::UnknownAuthMode)
    } else {
        None
    }
}

/// Whether `info` is what the well-formed record `r` describes.
pub open spec fn describes(r: ApRecord, info: AccessPointInfoView) -> bool {
    &&& before_nul(r.ssid@) == Some(info.ssid)
    &&& info.bssid == r.bssid
    &&& info.channel == r.primary
    &&& Some(info.secondary_channel) == secondary_of_driver(r.second)
    &&& info.signal_strength == r.rssi
    &&& Some(info.auth_method) == auth_of_driver(r.authmode)
}

impl AccessPointInfo {
    /// The access point that a driver record describes.
    pub fn from_record(record: &ApRecord) -> (r: Result<AccessPointInfo, ScanError>)
        ensures
            match record_error(*record) {
                Some(e) => r == Err::<AccessPointInfo, ScanError>(e),
                None => r matches Ok(info) && describes(*record, info@),
            },
    {
        let ssid = match until_nul(&record.ssid) {
            Some(s) => s,
            None => return Err(ScanError::MalformedSsid),
        };
        if ssid.len() > SSID_MAX || !check_utf8(ssid.as_slice()) {
            return Err(ScanError::MalformedSsid);
        }
        let secondary_channel = match secondary_from_driver(record.second) {
            Ok(c) => c,
            Err(e) => return Err(e),
        };
        let auth_method = match auth_from_driver(record.authmode) {
            Ok(a) => a,
            Err(e) => return Err(e),
        };
        Ok(AccessPointInfo {
            ssid,
            bssid: record.bssid,
            channel: record.primary,
            secondary_channel,
            signal_strength: record.rssi,
            auth_method,
        })
    }
}

/// The access points of a scan's records, in the driver's order.
pub fn ap_infos_from_records(records: &Vec<ApRecord>) -> (r: Result<Vec<AccessPointInfo>, ScanError>)
    ensures
        match r {
            Ok(v) => v@.len() == records@.len() && forall|k: int|
                0 <= k < v@.len() ==> record_error(records@[k]) is None && describes(
                    #[trigger] records@[k],
                    v@[k]@,
                ),
            Err(e) => exists|k: int|
                0 <= k < records@.len() && record_error(#[trigger] records@[k]) == Some(e)
                    && forall|j: int| 0 <= j < k ==> record_error(#[trigger] records@[j]) is None,
        },
{
    let mut out: Vec<AccessPointInfo> = Vec::new();
    let mut i: usize = 0;
    while i < records.len()
        invariant
            i <= records@.len(),
            out@.len() == i,
            forall|k: int|
                0 <= k < i ==> record_error(records@[k]) is None && describes(
                    #[trigger] records@[k],
                    out@[k]@,
                ),
        decreases records@.len() - i,
    {
        match AccessPointInfo::from_record(&records[i]) {
            Ok(info) => out.push(info),
            Err(e) => {
                assert(record_error(records@[i as int]) == Some(e));
                return Err(e);
            },
        }
        i = i + 1;
    }
    Ok(out)
}

/// Whether `i` is the position of the first access point of `scan` named `ssid`.
pub open spec fn is_first_match(scan: Seq<AccessPointInfo>, ssid: Seq<u8>, i: int) -> bool {
    &&& 0 <= i < scan.len()
    &&& scan[i].ssid@ == ssid
    &&& forall|j: int| 0 <= j < i ==> scan[j].ssid@ != ssid
}

/// The first access point of `scan` named `ssid`, if any.
pub open spec fn first_match(scan: Seq<AccessPointInfo>, ssid: Seq<u8>) -> Option<AccessPointInfoView> {
    if exists|i: int| is_first_match(scan, ssid, i) {
        Some(scan[choose|i: int| is_first_match(scan, ssid, i)]@)
    } else {
        None
    }
}

/// The position of the first access point of `scan` named `ssid`, if any.
pub fn find_ssid(scan: &Vec<AccessPointInfo>, ssid: &Vec<u8>) -> (r: Option<usize>)
    ensures
        match r {
            Some(i) => is_first_match(scan@, ssid@, i as int) && first_match(scan@, ssid@) == Some(
                scan@[i as int]@,
            ),
            None => first_match(scan@, ssid@) is None,
        },
{
    let mut i: usize = 0;
    while i < scan.len()
        invariant
            i <= scan@.len(),
            forall|j: int| 0 <= j < i ==> scan@[j].ssid@ != ssid@,
        decreases scan@.len() - i,
    {
        if crate::model::same_bytes(&scan[i].ssid, ssid) {
            let ghost k = i as int;
            assert(is_first_match(scan@, ssid@, k));
            proof {
                let c = choose|m: int| is_first_match(scan@, ssid@, m);
                assert(c == k) by {
                    if c < k {
                        assert(scan@[c].ssid@ != ssid@);
                    } else if c > k {
                        assert(scan@[k].ssid@ != ssid@);
                    }
                }
            }
            return Some(i);
        }
        i = i + 1;
    }
    None
}

/// The upper-case hexadecimal digit of `n`, below 16.
pub open spec fn hex_digit(n: u8) -> u8 {
    if n < 10 {
        (0x30 + n) as u8
    } else {
        (0x41 + n - 10) as u8
    }
}

/// Whether `t` writes `b` as six colon-separated pairs of upper-case hexadecimal digits.
pub open spec fn is_bssid_text(b: Seq<u8>, t: Seq<u8>) -> bool {
    &&& t.len() == 17
    &&& forall|i: int|
        0 <= i < 6 ==> #[trigger] t[3 * i] == hex_digit(b[i] / 16) && t[3 * i + 1] == hex_digit(
            b[i] % 16,
        ) && (i < 5 ==> t[3 * i + 2] == 0x3a)
}

fn hex_digit_of(n: u8) -> (r: u8)
    requires
        n < 16,
    ensures
        r == hex_digit(n),
{
    if n < 10 {
        0x30 + n
    } else {
        0x41 + n - 10
    }
}

/// The text of a bssid, such as `0A:1B:2C:3D:4E:5F`, in ASCII.
pub fn bssid_text(b: &[u8; 6]) -> (r: Vec<u8>)
    ensures
        is_bssid_text(b@, r@),
{
    let mut t: Vec<u8> = Vec::new();
    let mut i: usize = 0;
    while i < 6
        invariant
            i <= 6,
            t@.len() == if i == 0 { 0 } else { 3 * i - 1 },
            forall|k: int|
                0 <= k < i ==> #[trigger] t@[3 * k] == hex_digit(b@[k] / 16) && t@[3 * k + 1]
                    == hex_digit(b@[k] % 16),
            forall|k: int| 0 <= k < i - 1 ==> #[trigger] t@[3 * k + 2] == 0x3a,
        decreases 6 - i,
    {
        let ghost before = t@;
        if i > 0 {
            t.push(0x3a);
        }
        let x = b[i];
        t.push(hex_digit_of(x / 16));
        t.push(hex_digit_of(x % 16));
        assert(t@.len() == 3 * i + 2);
        assert(t@.subrange(0, before.len() as int) =~= before);
        assert forall|k: int| 0 <= k < i + 1 implies #[trigger] t@[3 * k] == hex_digit(b@[k] / 16)
            && t@[3 * k + 1] == hex_digit(b@[k] % 16) by {
            if k < i {
                assert(t@[3 * k] == before[3 * k]);
                assert(t@[3 * k + 1] == before[3 * k + 1]);
            }
        }
        assert forall|k: int| 0 <= k < i implies #[trigger] t@[3 * k + 2] == 0x3a by {
            if k < i - 1 {
                assert(t@[3 * k + 2] == before[3 * k + 2]);
            }
        }
        i = i + 1;
    }
    assert forall|k: int| 0 <= k < 6 implies #[trigger] t@[3 * k] == hex_digit(b@[k] / 16)
        && t@[3 * k + 1] == hex_digit(b@[k] % 16) && (k < 5 ==> t@[3 * k + 2] == 0x3a) by {
        if k < 5 {
            assert(t@[3 * k + 2] == 0x3a);
        }
    }
    t
}

} // verus!
