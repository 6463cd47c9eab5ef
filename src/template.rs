use vstd::prelude::*;
use crate::model::{
    AccessPointConfig, AccessPointConfigView, ApMode, AuthMethod, ClientConfig, ClientConfigView,
    IpInfo, IpInfoView, WifiInfo, WifiInfoView, copy_bytes,
};
use crate::convert::{
    be_bytes, be_bytes_of, be_u32, be_u32_of, count_ones, lemma_mask_width_round_trip,
    mask_from_width, mask_spec, popcount,
};
use crate::scan::{AccessPointInfo, AccessPointInfoView, find_ssid, first_match};

verus! {

/// Channel shown for an access point that is not configured.
pub const UNSET_AP_CHANNEL: u8 = 1;

/// Connections an access point configured from settings accepts.
pub const AP_MAX_CONNECTIONS: u16 = 10;

/// The client half of the settings as the user sees and edits them.
#[derive(Debug, Clone, PartialEq, Eq)]
pub struct WifiClientSettings {
    /// Empty when no station is configured.
    pub ssid: Vec<u8>,
    pub password: Vec<u8>,
    pub ip: [u8; 4],
    pub gateway: [u8; 4],
    pub subnet_mask: [u8; 4],
    pub mdns: Vec<u8>,
}

/// The access-point half of the settings as the user sees and edits them.
#[derive(Debug, Clone, PartialEq, Eq)]
pub struct WifiApSettings {
    /// Empty when no access point is configured.
    pub ssid: Vec<u8>,
    pub hidden: bool,
    pub password: Vec<u8>,
    pub channel: u8,
    pub mode: ApMode,
}

/// The settings as the user sees and edits them.
#[derive(Debug, Clone, PartialEq, Eq)]
pub struct WifiSettingsTemplate {
    pub client: WifiClientSettings,
    pub ap: WifiApSettings,
}

pub struct WifiClientSettingsView {
    pub ssid: Seq<u8>,
    pub password: Seq<u8>,
    pub ip: Seq<u8>,
    pub gateway: Seq<u8>,
    pub subnet_mask: Seq<u8>,
    pub mdns: Seq<u8>,
}

pub struct WifiApSettingsView {
    pub ssid: Seq<u8>,
    pub hidden: bool,
    pub password: Seq<u8>,
    pub channel: u8,
    pub mode: ApMode,
}

pub struct WifiSettingsTemplateView {
    pub client: WifiClientSettingsView,
    pub ap: WifiApSettingsView,
}

impl View for WifiSettingsTemplate {
    type V = WifiSettingsTemplateView;

    open spec fn view(&self) -> WifiSettingsTemplateView {
        WifiSettingsTemplateView {
            client: WifiClientSettingsView {
                ssid: self.client.ssid@,
                password: self.client.password@,
                ip: self.client.ip@,
                gateway: self.client.gateway@,
                subnet_mask: self.client.subnet_mask@,
                mdns: self.client.mdns@,
            },
            ap: WifiApSettingsView {
                ssid: self.ap.ssid@,
                hidden: self.ap.hidden,
                password: self.ap.password@,
                channel: self.ap.channel,
                mode: self.ap.mode,
            },
        }
    }
}

/// The settings that show a configuration; an unset role shows an empty ssid.
pub open spec fn to_external(info: WifiInfoView) -> WifiSettingsTemplateView {
    WifiSettingsTemplateView {
        client: WifiClientSettingsView {
            ssid: match info.sta_config {
                Some(s) => s.ssid,
                None => Seq::empty(),
            },
            password: match info.sta_config {
                Some(s) => s.password,
                None => Seq::empty(),
            },
            ip: info.ip_info.ip,
            gateway: info.ip_info.gateway,
            subnet_mask: be_bytes(mask_spec(info.ip_info.mask)),
            mdns: Seq::empty(),
        },
        ap: match info.ap_config {
            Some(a) => WifiApSettingsView {
                ssid: a.ssid,
                hidden: a.ssid_hidden,
                password: a.password,
                channel: a.channel,
                mode: info.ap_mode,
            },
            None => WifiApSettingsView {
                ssid: Seq::empty(),
                hidden: false,
                password: Seq::empty(),
                channel: UNSET_AP_CHANNEL,
                mode: info.ap_mode,
            },
        },
    }
}

/// The station configuration for the client settings `c`, given what a scan found under its ssid.
pub open spec fn station_of(c: WifiClientSettingsView, found: Option<AccessPointInfoView>) -> Option<
    ClientConfigView,
> {
    if c.ssid.len() == 0 {
        None
    } else {
        Some(
            ClientConfigView {
                ssid: c.ssid,
                bssid: None,
                auth_method: match found {
                    Some(ap) => ap.auth_method,
                    None => if c.password.len() == 0 {
                        AuthMethod::Open
                    } else {
                        AuthMethod::WPA2Personal
                    },
                },
                password: c.password,
                channel: match found {
                    Some(ap) => Some(ap.channel),
                    None => None,
                },
            },
        )
    }
}

pub open spec fn access_point_of(a: WifiApSettingsView) -> Option<AccessPointConfigView> {
    if a.ssid.len() == 0 {
        None
    } else {
        Some(
            AccessPointConfigView {
                ssid: a.ssid,
                ssid_hidden: a.hidden,
                channel: a.channel,
                secondary_channel: None,
                protocols: 0,
                auth_method: AuthMethod::WPA2Personal,
                password: a.password,
                max_connections: AP_MAX_CONNECTIONS,
            },
        )
    }
}

/// The configuration that settings ask for, with the access points that a scan found.
pub open spec fn to_internal(s: WifiSettingsTemplateView, scan: Seq<AccessPointInfo>) -> WifiInfoView {
    WifiInfoView {
        ip_info: IpInfoView {
            ip: s.client.ip,
            gateway: s.client.gateway,
            mask: popcount(be_u32(s.client.subnet_mask)) as u8,
            dns: None,
            secondary_dns: None,
        },
        sta_config: station_of(s.client, first_match(scan, s.client.ssid)),
        ap_config: access_point_of(s.ap),
        ap_mode: s.ap.mode,
    }
}

/// Showing a configuration as settings and reading it back keeps a role exactly when
/// its ssid was non-empty, keeps that role's ssid and password, and keeps the mode,
/// the addresses and a mask width of at most 32.
pub proof fn lemma_settings_round_trip(info: WifiInfoView, scan: Seq<AccessPointInfo>)
    requires
        info.ip_info.wf(),
    ensures
        ({
            let back = to_internal(to_external(info), scan);
            &&& back.sta_config is Some <==> (info.sta_config matches Some(s) && s.ssid.len() > 0)
            &&& back.ap_config is Some <==> (info.ap_config matches Some(a) && a.ssid.len() > 0)
            &&& (back.sta_config matches Some(b) ==> info.sta_config matches Some(s) && b.ssid
                == s.ssid && b.password == s.password)
            &&& (back.ap_config matches Some(b) ==> info.ap_config matches Some(a) && b.ssid
                == a.ssid && b.password == a.password && b.ssid_hidden == a.ssid_hidden
                && b.channel == a.channel)
            &&& back.ap_mode == info.ap_mode
            &&& back.ip_info.ip == info.ip_info.ip
            &&& back.ip_info.gateway == info.ip_info.gateway
            &&& back.ip_info.mask == info.ip_info.mask
        }),
{
    lemma_mask_width_round_trip(info.ip_info.mask);
}

impl WifiSettingsTemplate {
    /// The settings that show `info`.
    pub fn from_info(info: &WifiInfo) -> (r: WifiSettingsTemplate)
        ensures
            r@ == to_external(info@),
    {
        let (ssid, password) = match &info.sta_config {
            Some(s) => (copy_bytes(&s.ssid), copy_bytes(&s.password)),
            None => (Vec::new(), Vec::new()),
        };
        let client = WifiClientSettings {
            ssid,
            password,
            ip: info.ip_info.ip,
            gateway: info.ip_info.gateway,
            subnet_mask: be_bytes_of(mask_from_width(info.ip_info.mask)),
            mdns: Vec::new(),
        };
        let ap = match &info.ap_config {
            Some(a) => WifiApSettings {
                ssid: copy_bytes(&a.ssid),
                hidden: a.ssid_hidden,
                password: copy_bytes(&a.password),
                channel: a.channel,
                mode: info.ap_mode,
            },
            None => WifiApSettings {
                ssid: Vec::new(),
                hidden: false,
                password: Vec::new(),
                channel: UNSET_AP_CHANNEL,
                mode: info.ap_mode,
            },
        };
        let r = WifiSettingsTemplate { client, ap };
        assert(r@.client =~= to_external(info@).client);
        assert(r@.ap =~= to_external(info@).ap);
        r
    }

    /// The configuration these settings ask for; `scan` is what a scan found.
    pub fn to_info(&self, scan: &Vec<AccessPointInfo>) -> (r: WifiInfo)
        ensures
            r@ == to_internal(self@, scan@),
    {
        let ip_info = IpInfo {
            ip: self.client.ip,
            gateway: self.client.gateway,
            mask: count_ones(be_u32_of(self.client.subnet_mask)),
            dns: None,
            secondary_dns: None,
        };
        let sta_config = if self.client.ssid.len() == 0 {
            None
        } else {
            let (auth_method, channel) = match find_ssid(scan, &self.client.ssid) {
                Some(i) => (scan[i].auth_method, Some(scan[i].channel)),
                None => {
                    let a = if self.client.password.len() == 0 {
                        AuthMethod::Open
                    } else {
                        AuthMethod::WPA2Personal
                    };
                    (a, None)
                },
            };
            Some(
                ClientConfig {
                    ssid: copy_bytes(&self.client.ssid),
                    bssid: None,
                    auth_method,
                    password: copy_bytes(&self.client.password),
                    channel,
                },
            )
        };
        let ap_config = if self.ap.ssid.len() == 0 {
            None
        } else {
            Some(
                AccessPointConfig {
                    ssid: copy_bytes(&self.ap.ssid),
                    ssid_hidden: self.ap.hidden,
                    channel: self.ap.channel,
                    secondary_channel: None,
                    protocols: 0,
                    auth_method: AuthMethod::WPA2Personal,
                    password: copy_bytes(&self.ap.password),
                    max_connections: AP_MAX_CONNECTIONS,
                },
            )
        };
        let r = WifiInfo { ip_info, sta_config, ap_config, ap_mode: self.ap.mode };
        assert(r@.ip_info == to_internal(self@, scan@).ip_info);
        assert(r@.sta_config == to_internal(self@, scan@).sta_config);
        assert(r@.ap_config == to_internal(self@, scan@).ap_config);
        r
    }
}

} // verus!
