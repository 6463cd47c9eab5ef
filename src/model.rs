use vstd::prelude::*;

verus! {

/// Longest ssid, in bytes, that a radio configuration can hold.
pub const SSID_MAX: usize = 32;

/// Longest password, in bytes, that a radio configuration can hold.
pub const PASSWORD_MAX: usize = 64;

/// When the device brings up its own access point.
#[derive(Debug, Clone, Copy, PartialEq, Eq, Structural)]
pub enum ApMode {
    /// Only when no client connection could be made.
    NoConnOnBoot,
    /// Always, beside any client connection.
    Always,
    /// Never.
    Never,
}

impl ApMode {
    /// The byte that stands for the mode on the wire and in storage.
    pub open spec fn code_spec(self) -> u8 {
        match self {
            ApMode::NoConnOnBoot => 0,
            ApMode::Always => 2,
            ApMode::Never => 3,
        }
    }

    pub open spec fn from_code_spec(b: u8) -> Option<ApMode> {
        if b == 0 {
            Some(ApMode::NoConnOnBoot)
        } else if b == 2 {
            Some(ApMode::Always)
        } else if b == 3 {
            Some(ApMode::Never)
        } else {
            None
        }
    }

    pub fn code(&self) -> (r: u8)
        ensures
            r == self.code_spec(),
    {
        match self {
            ApMode::NoConnOnBoot => 0,
            ApMode::Always => 2,
            ApMode::Never => 3,
        }
    }

    pub fn from_code(b: u8) -> (r: Option<ApMode>)
        ensures
            r == Self::from_code_spec(b),
    {
        if b == 0 {
            Some(ApMode::NoConnOnBoot)
        } else if b == 2 {
            Some(ApMode::Always)
        } else if b == 3 {
            Some(ApMode::Never)
        } else {
            None
        }
    }
}

impl Default for ApMode {
    fn default() -> (r: ApMode)
        ensures
            r == ApMode::NoConnOnBoot,
    {
        ApMode::NoConnOnBoot
    }
}

/// How a wireless network authenticates its stations.
#[derive(Debug, Clone, Copy, PartialEq, Eq, Structural)]
pub enum AuthMethod {
    /// No authentication.
    Open,
    WEP,
    WPA,
    WPA2Personal,
    WPAWPA2Personal,
    WPA2Enterprise,
    WPA3Personal,
    WPA2WPA3Personal,
    WAPIPersonal,
}

impl AuthMethod {
    /// The index of the method, in the order of declaration.
    pub open spec fn code_spec(self) -> u8 {
        match self {
            AuthMethod::Open => 0,
            AuthMethod::WEP => 1,
            AuthMethod::WPA => 2,
            AuthMethod::WPA2Personal => 3,
            AuthMethod::WPAWPA2Personal => 4,
            AuthMethod::WPA2Enterprise => 5,
            AuthMethod::WPA3Personal => 6,
            AuthMethod::WPA2WPA3Personal => 7,
            AuthMethod::WAPIPersonal => 8,
        }
    }

    pub open spec fn from_code_spec(b: u8) -> Option<AuthMethod> {
        if b == 0 {
            Some(AuthMethod::Open)
        } else if b == 1 {
            Some(AuthMethod::WEP)
        } else if b == 2 {
            Some(AuthMethod::WPA)
        } else if b == 3 {
            Some(AuthMethod::WPA2Personal)
        } else if b == 4 {
            Some(AuthMethod::WPAWPA2Personal)
        } else if b == 5 {
            Some(AuthMethod::WPA2Enterprise)
        } else if b == 6 {
            Some(AuthMethod::WPA3Personal)
        } else if b == 7 {
            Some(AuthMethod::WPA2WPA3Personal)
        } else if b == 8 {
            Some(AuthMethod::WAPIPersonal)
        } else {
            None
        }
    }

    pub fn code(&self) -> (r: u8)
        ensures
            r == self.code_spec(),
    {
        match self {
            AuthMethod::Open => 0,
            AuthMethod::WEP => 1,
            AuthMethod::WPA => 2,
            AuthMethod::WPA2Personal => 3,
            AuthMethod::WPAWPA2Personal => 4,
            AuthMethod::WPA2Enterprise => 5,
            AuthMethod::WPA3Personal => 6,
            AuthMethod::WPA2WPA3Personal => 7,
            AuthMethod::WAPIPersonal => 8,
        }
    }

    pub fn from_code(b: u8) -> (r: Option<AuthMethod>)
        ensures
            r == Self::from_code_spec(b),
    {
        if b == 0 {
            Some(AuthMethod::Open)
        } else if b == 1 {
            Some(AuthMethod::WEP)
        } else if b == 2 {
            Some(AuthMethod::WPA)
        } else if b == 3 {
            Some(AuthMethod::WPA2Personal)
        } else if b == 4 {
            Some(AuthMethod::WPAWPA2Personal)
        } else if b == 5 {
            Some(AuthMethod::WPA2Enterprise)
        } else if b == 6 {
            Some(AuthMethod::WPA3Personal)
        } else if b == 7 {
            Some(AuthMethod::WPA2WPA3Personal)
        } else if b == 8 {
            Some(AuthMethod::WAPIPersonal)
        } else {
            None
        }
    }
}

/// Static IPv4 assignment of the station interface.
#[derive(Debug, Clone, Copy, PartialEq, Eq)]
pub struct IpInfo {
    pub ip: [u8; 4],
    pub gateway: [u8; 4],
    /// Number of leading one bits of the subnet mask, at most 32.
    pub mask: u8,
    pub dns: Option<[u8; 4]>,
    pub secondary_dns: Option<[u8; 4]>,
}

/// What the station (client) role connects to.
#[derive(Debug, Clone, PartialEq, Eq)]
pub struct ClientConfig {
    pub ssid: Vec<u8>,
    pub bssid: Option<[u8; 6]>,
    pub auth_method: AuthMethod,
    pub password: Vec<u8>,
    pub channel: Option<u8>,
}

/// What the access-point role advertises.
#[derive(Debug, Clone, PartialEq, Eq)]
pub struct AccessPointConfig {
    pub ssid: Vec<u8>,
    pub ssid_hidden: bool,
    pub channel: u8,
    pub secondary_channel: Option<u8>,
    /// Bit set of the 802.11 protocols offered; empty lets the driver choose.
    pub protocols: u8,
    pub auth_method: AuthMethod,
    pub password: Vec<u8>,
    pub max_connections: u16,
}

/// The persisted network configuration of the device.
#[derive(Debug, Clone, PartialEq, Eq)]
pub struct WifiInfo {
    pub ip_info: IpInfo,
    pub sta_config: Option<ClientConfig>,
    pub ap_config: Option<AccessPointConfig>,
    pub ap_mode: ApMode,
}

/// The mathematical value of a `ClientConfig`.
pub struct ClientConfigView {
    pub ssid: Seq<u8>,
    pub bssid: Option<Seq<u8>>,
    pub auth_method: AuthMethod,
    pub password: Seq<u8>,
    pub channel: Option<u8>,
}

/// The mathematical value of an `AccessPointConfig`.
pub struct AccessPointConfigView {
    pub ssid: Seq<u8>,
    pub ssid_hidden: bool,
    pub channel: u8,
    pub secondary_channel: Option<u8>,
    pub protocols: u8,
    pub auth_method: AuthMethod,
    pub password: Seq<u8>,
    pub max_connections: u16,
}

/// The mathematical value of an `IpInfo`.
pub struct IpInfoView {
    pub ip: Seq<u8>,
    pub gateway: Seq<u8>,
    pub mask: u8,
    pub dns: Option<Seq<u8>>,
    pub secondary_dns: Option<Seq<u8>>,
}

/// The mathematical value of a `WifiInfo`.
pub struct WifiInfoView {
    pub ip_info: IpInfoView,
    pub sta_config: Option<ClientConfigView>,
    pub ap_config: Option<AccessPointConfigView>,
    pub ap_mode: ApMode,
}

pub open spec fn opt_addr_view(a: Option<[u8; 4]>) -> Option<Seq<u8>> {
    match a {
        Some(a) => Some(a@),
        None => None,
    }
}

impl View for IpInfo {
    type V = IpInfoView;

    open spec fn view(&self) -> IpInfoView {
        IpInfoView {
            ip: self.ip@,
            gateway: self.gateway@,
            mask: self.mask,
            dns: opt_addr_view(self.dns),
            secondary_dns: opt_addr_view(self.secondary_dns),
        }
    }
}

impl View for ClientConfig {
    type V = ClientConfigView;

    open spec fn view(&self) -> ClientConfigView {
        ClientConfigView {
            ssid: self.ssid@,
            bssid: match self.bssid {
                Some(b) => Some(b@),
                None => None,
            },
            auth_method: self.auth_method,
            password: self.password@,
            channel: self.channel,
        }
    }
}

impl View for AccessPointConfig {
    type V = AccessPointConfigView;

    open spec fn view(&self) -> AccessPointConfigView {
        AccessPointConfigView {
            ssid: self.ssid@,
            ssid_hidden: self.ssid_hidden,
            channel: self.channel,
            secondary_channel: self.secondary_channel,
            protocols: self.protocols,
            auth_method: self.auth_method,
            password: self.password@,
            max_connections: self.max_connections,
        }
    }
}

pub open spec fn opt_client_view(c: Option<ClientConfig>) -> Option<ClientConfigView> {
    match c {
        Some(c) => Some(c@),
        None => None,
    }
}

pub open spec fn opt_ap_view(a: Option<AccessPointConfig>) -> Option<AccessPointConfigView> {
    match a {
        Some(a) => Some(a@),
        None => None,
    }
}

impl View for WifiInfo {
    type V = WifiInfoView;

    open spec fn view(&self) -> WifiInfoView {
        WifiInfoView {
            ip_info: self.ip_info@,
            sta_config: opt_client_view(self.sta_config),
            ap_config: opt_ap_view(self.ap_config),
            ap_mode: self.ap_mode,
        }
    }
}

impl IpInfoView {
    /// Addresses of four bytes and a mask width of at most 32.
    pub open spec fn wf(self) -> bool {
        &&& self.ip.len() == 4
        &&& self.gateway.len() == 4
        &&& self.mask <= 32
        &&& (self.dns matches Some(d) ==> d.len() == 4)
        &&& (self.secondary_dns matches Some(d) ==> d.len() == 4)
    }
}

impl ClientConfigView {
    pub open spec fn wf(self) -> bool {
        &&& self.ssid.len() <= SSID_MAX
        &&& self.password.len() <= PASSWORD_MAX
        &&& (self.bssid matches Some(b) ==> b.len() == 6)
    }
}

impl AccessPointConfigView {
    pub open spec fn wf(self) -> bool {
        self.ssid.len() <= SSID_MAX && self.password.len() <= PASSWORD_MAX
    }
}

impl ClientConfig {
    /// A copy with the same value.
    pub fn copy(&self) -> (r: ClientConfig)
        ensures
            r@ == self@,
    {
        ClientConfig {
            ssid: copy_bytes(&self.ssid),
            bssid: self.bssid,
            auth_method: self.auth_method,
            password: copy_bytes(&self.password),
            channel: self.channel,
        }
    }
}

impl AccessPointConfig {
    /// A copy with the same value.
    pub fn copy(&self) -> (r: AccessPointConfig)
        ensures
            r@ == self@,
    {
        AccessPointConfig {
            ssid: copy_bytes(&self.ssid),
            ssid_hidden: self.ssid_hidden,
            channel: self.channel,
            secondary_channel: self.secondary_channel,
            protocols: self.protocols,
            auth_method: self.auth_method,
            password: copy_bytes(&self.password),
            max_connections: self.max_connections,
        }
    }

    /// Whether two configurations have the same value.
    pub fn same_as(&self, other: &AccessPointConfig) -> (r: bool)
        ensures
            r == (self@ == other@),
    {
        let r = same_bytes(&self.ssid, &other.ssid) && self.ssid_hidden == other.ssid_hidden
            && self.channel == other.channel && self.secondary_channel == other.secondary_channel
            && self.protocols == other.protocols
            && self.auth_method == other.auth_method && same_bytes(
            &self.password,
            &other.password,
        ) && self.max_connections == other.max_connections;
        r
    }
}

impl WifiInfoView {
    /// Every field within the bounds that a radio configuration can hold.
    pub open spec fn wf(self) -> bool {
        &&& self.ip_info.wf()
        &&& (self.sta_config matches Some(s) ==> s.wf())
        &&& (self.ap_config matches Some(a) ==> a.wf())
    }
}

/// The bytes of "ESP32".
pub open spec fn default_ap_ssid() -> Seq<u8> {
    seq![0x45u8, 0x53, 0x50, 0x33, 0x32]
}

/// The bytes of "test1234".
pub open spec fn default_ap_password() -> Seq<u8> {
    seq![0x74u8, 0x65, 0x73, 0x74, 0x31, 0x32, 0x33, 0x34]
}

/// The access point that is brought up when one is needed and none is configured.
pub open spec fn default_ap_spec() -> AccessPointConfigView {
    AccessPointConfigView {
        ssid: default_ap_ssid(),
        ssid_hidden: false,
        channel: 1,
        secondary_channel: Some(2),
        protocols: 0,
        auth_method: AuthMethod::WPA2Personal,
        password: default_ap_password(),
        max_connections: 10,
    }
}

/// A station configuration that connects to nothing.
pub open spec fn default_client_spec() -> ClientConfigView {
    ClientConfigView {
        ssid: Seq::empty(),
        bssid: None,
        auth_method: AuthMethod::WPA2Personal,
        password: Seq::empty(),
        channel: None,
    }
}

pub fn default_ap_config() -> (r: AccessPointConfig)
    ensures
        r@ == default_ap_spec(),
        r@.wf(),
{
    let r = AccessPointConfig {
        ssid: vec![0x45u8, 0x53, 0x50, 0x33, 0x32],
        ssid_hidden: false,
        channel: 1,
        secondary_channel: Some(2),
        protocols: 0,
        auth_method: AuthMethod::WPA2Personal,
        password: vec![0x74u8, 0x65, 0x73, 0x74, 0x31, 0x32, 0x33, 0x34],
        max_connections: 10,
    };
    assert(r.ssid@ =~= default_ap_ssid());
    assert(r.password@ =~= default_ap_password());
    r
}

pub fn default_client_config() -> (r: ClientConfig)
    ensures
        r@ == default_client_spec(),
{
    let r = ClientConfig {
        ssid: Vec::new(),
        bssid: None,
        auth_method: AuthMethod::WPA2Personal,
        password: Vec::new(),
        channel: None,
    };
    assert(r.ssid@ =~= Seq::<u8>::empty());
    assert(r.password@ =~= Seq::<u8>::empty());
    r
}

/// A copy of a byte string.
pub fn copy_bytes(b: &Vec<u8>) -> (r: Vec<u8>)
    ensures
        r@ == b@,
{
    let r = b.clone();
    assert(r@ =~= b@);
    r
}

/// Whether two byte strings are equal.
pub fn same_bytes(a: &Vec<u8>, b: &Vec<u8>) -> (r: bool)
    ensures
        r == (a@ == b@),
{
    if a.len() != b.len() {
        return false;
    }
    let mut i: usize = 0;
    while i < a.len()
        invariant
            a@.len() == b@.len(),
            i <= a@.len(),
            a@.subrange(0, i as int) == b@.subrange(0, i as int),
        decreases a@.len() - i,
    {
        if a[i] != b[i] {
            assert(a@[i as int] != b@[i as int]);
            return false;
        }
        assert(a@.subrange(0, i + 1) =~= a@.subrange(0, i as int).push(a@[i as int]));
        assert(b@.subrange(0, i + 1) =~= b@.subrange(0, i as int).push(b@[i as int]));
        i = i + 1;
    }
    assert(a@ =~= a@.subrange(0, i as int));
    assert(b@ =~= b@.subrange(0, i as int));
    true
}

} // verus!
