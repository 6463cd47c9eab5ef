use vstd::prelude::*;
use crate::model::{
    AccessPointConfig, AccessPointConfigView, ApMode, ClientConfig, ClientConfigView, WifiInfo,
    WifiInfoView, default_ap_config, default_ap_spec, default_client_config, default_client_spec,
};
use crate::convert::{RawIpInfo, raw_ip_info, raw_ip_info_spec};

verus! {

/// How long the device waits for a client connection before it falls back.
pub const CONNECT_TIMEOUT_SECS: u64 = 15;

/// A configuration of the radio.
#[derive(Debug, Clone, PartialEq, Eq)]
pub enum RadioConfig {
    /// Radio idle: neither role configured.
    Off,
    Client(ClientConfig),
    AccessPoint(AccessPointConfig),
    Mixed(ClientConfig, AccessPointConfig),
}

pub enum RadioConfigView {
    Off,
    Client(ClientConfigView),
    AccessPoint(AccessPointConfigView),
    Mixed(ClientConfigView, AccessPointConfigView),
}

impl View for RadioConfig {
    type V = RadioConfigView;

    open spec fn view(&self) -> RadioConfigView {
        match self {
            RadioConfig::Off => RadioConfigView::Off,
            RadioConfig::Client(c) => RadioConfigView::Client(c@),
            RadioConfig::AccessPoint(a) => RadioConfigView::AccessPoint(a@),
            RadioConfig::Mixed(c, a) => RadioConfigView::Mixed(c@, a@),
        }
    }
}

impl RadioConfigView {
    /// The access point that the configuration brings up, if any.
    pub open spec fn ap(self) -> Option<AccessPointConfigView> {
        match self {
            RadioConfigView::AccessPoint(a) => Some(a),
            RadioConfigView::Mixed(_, a) => Some(a),
            _ => None,
        }
    }
}

impl RadioConfig {
    pub fn ap_ref(&self) -> (r: Option<&AccessPointConfig>)
        ensures
            match r {
                Some(a) => self@.ap() == Some(a@),
                None => self@.ap() is None,
            },
    {
        match self {
            RadioConfig::AccessPoint(a) => Some(a),
            RadioConfig::Mixed(_, a) => Some(a),
            _ => None,
        }
    }
}

/// Where a resolution stands between two driver operations.
#[derive(Debug, Clone, Copy, PartialEq, Eq, Structural)]
pub enum Stage {
    /// Nothing done yet.
    Begin,
    /// The IP assignment was requested.
    IpSet,
    /// The current radio configuration was requested.
    QueryingAp,
    /// A configuration was applied that is started and then connected.
    ConfiguredToConnect,
    /// A configuration was applied that is only started.
    ConfiguredToStart,
    /// The radio was started before a connect request.
    Started,
    /// The connect request was made.
    Connecting,
    /// The wait for a connection runs.
    Waiting,
    /// The last operation was requested; its success ends the resolution.
    Closing,
    /// The resolution is over.
    Finished,
}

/// Why a resolution ended without success.
#[derive(Debug, Clone, Copy, PartialEq, Eq, Structural)]
pub enum RadioError {
    /// The driver refused a configuration, start or connect request.
    Driver,
    /// An event came that the stage does not expect.
    UnexpectedEvent,
}

/// What the driver reports on the last requested operation.
#[derive(Debug, Clone, PartialEq, Eq)]
pub enum Event {
    /// First event of a resolution.
    Begin,
    /// The operation succeeded.
    Done,
    /// The radio's current configuration.
    Current(RadioConfig),
    /// Whether the radio was started and connected within the wait.
    WaitOutcome(bool),
    /// The operation failed.
    Failed,
}

/// The driver operation that the resolution asks for next.
#[derive(Debug, Clone, PartialEq, Eq)]
pub enum Action {
    SetIpInfo(RawIpInfo),
    GetConfiguration,
    SetConfiguration(RadioConfig),
    Start,
    Connect,
    /// Wait, up to the given number of seconds, until the radio is started and connected.
    WaitConnected(u64),
    /// The resolution is over and succeeded.
    Succeed,
    /// The resolution is over and failed.
    Abort(RadioError),
}

pub enum ActionView {
    SetIpInfo(RawIpInfo),
    GetConfiguration,
    SetConfiguration(RadioConfigView),
    Start,
    Connect,
    WaitConnected(u64),
    Succeed,
    Abort(RadioError),
}

impl View for Action {
    type V = ActionView;

    open spec fn view(&self) -> ActionView {
        match self {
            Action::SetIpInfo(r) => ActionView::SetIpInfo(*r),
            Action::GetConfiguration => ActionView::GetConfiguration,
            Action::SetConfiguration(c) => ActionView::SetConfiguration(c@),
            Action::Start => ActionView::Start,
            Action::Connect => ActionView::Connect,
            Action::WaitConnected(s) => ActionView::WaitConnected(*s),
            Action::Succeed => ActionView::Succeed,
            Action::Abort(e) => ActionView::Abort(*e),
        }
    }
}

/// The access point that the configuration asks for, or the default one.
pub open spec fn target_ap(info: WifiInfoView) -> AccessPointConfigView {
    match info.ap_config {
        Some(a) => a,
        None => default_ap_spec(),
    }
}

/// The configuration that brings up the target access point beside an idle station.
pub open spec fn fallback_config(info: WifiInfoView) -> RadioConfigView {
    RadioConfigView::Mixed(default_client_spec(), target_ap(info))
}

/// The configuration applied first, where the mode and the station configuration fix it.
pub open spec fn first_config(info: WifiInfoView) -> RadioConfigView {
    match (info.ap_mode, info.sta_config) {
        (ApMode::NoConnOnBoot, Some(s)) => RadioConfigView::Client(s),
        (ApMode::Always, Some(s)) => RadioConfigView::Mixed(s, target_ap(info)),
        (ApMode::Never, Some(s)) => RadioConfigView::Client(s),
        (ApMode::Always, None) => fallback_config(info),
        _ => RadioConfigView::Off,
    }
}

/// The next stage and driver operation of the resolution of `info`, after `event`.
pub open spec fn step_spec(info: WifiInfoView, stage: Stage, event: Event) -> (Stage, ActionView) {
    match (stage, event) {
        (_, Event::Failed) => (Stage::Finished, ActionView::Abort(RadioError::Driver)),
        (Stage::Begin, Event::Begin) => (
            Stage::IpSet,
            ActionView::SetIpInfo(raw_ip_info_spec(info.ip_info)),
        ),
        (Stage::IpSet, Event::Done) => if info.ap_mode == ApMode::NoConnOnBoot
            && info.sta_config is None {
            (Stage::QueryingAp, ActionView::GetConfiguration)
        } else if info.sta_config is Some {
            (Stage::ConfiguredToConnect, ActionView::SetConfiguration(first_config(info)))
        } else if info.ap_mode == ApMode::Always {
            (Stage::ConfiguredToStart, ActionView::SetConfiguration(first_config(info)))
        } else {
            (Stage::Closing, ActionView::SetConfiguration(first_config(info)))
        },
        (Stage::QueryingAp, Event::Current(c)) => if info.ap_mode != ApMode::NoConnOnBoot {
            (Stage::Finished, ActionView::Abort(RadioError::UnexpectedEvent))
        } else if c@.ap() == Some(target_ap(info)) {
            (Stage::Finished, ActionView::Succeed)
        } else {
            (Stage::ConfiguredToStart, ActionView::SetConfiguration(fallback_config(info)))
        },
        (Stage::ConfiguredToStart, Event::Done) => (Stage::Closing, ActionView::Start),
        (Stage::ConfiguredToConnect, Event::Done) => (Stage::Started, ActionView::Start),
        (Stage::Started, Event::Done) => (Stage::Connecting, ActionView::Connect),
        (Stage::Connecting, Event::Done) => if info.ap_mode == ApMode::NoConnOnBoot {
            (Stage::Waiting, ActionView::WaitConnected(CONNECT_TIMEOUT_SECS))
        } else {
            (Stage::Finished, ActionView::Succeed)
        },
        (Stage::Waiting, Event::WaitOutcome(connected)) => if info.ap_mode != ApMode::NoConnOnBoot {
            (Stage::Finished, ActionView::Abort(RadioError::UnexpectedEvent))
        } else if connected {
            (Stage::Finished, ActionView::Succeed)
        } else {
            (Stage::ConfiguredToStart, ActionView::SetConfiguration(fallback_config(info)))
        },
        (Stage::Closing, Event::Done) => (Stage::Finished, ActionView::Succeed),
        _ => (Stage::Finished, ActionView::Abort(RadioError::UnexpectedEvent)),
    }
}

fn target_ap_config(info: &WifiInfo) -> (r: AccessPointConfig)
    ensures
        r@ == target_ap(info@),
{
    match &info.ap_config {
        Some(a) => a.copy(),
        None => default_ap_config(),
    }
}

fn fallback_radio_config(info: &WifiInfo) -> (r: RadioConfig)
    ensures
        r@ == fallback_config(info@),
{
    RadioConfig::Mixed(default_client_config(), target_ap_config(info))
}

fn first_radio_config(info: &WifiInfo) -> (r: RadioConfig)
    ensures
        r@ == first_config(info@),
{
    match (info.ap_mode, &info.sta_config) {
        (ApMode::NoConnOnBoot, Some(s)) => RadioConfig::Client(s.copy()),
        (ApMode::Always, Some(s)) => RadioConfig::Mixed(s.copy(), target_ap_config(info)),
        (ApMode::Never, Some(s)) => RadioConfig::Client(s.copy()),
        (ApMode::Always, None) => fallback_radio_config(info),
        _ => RadioConfig::Off,
    }
}

/// Decides the driver operation that follows `event` in the resolution of `info`.
///
/// The driver loop starts at `Stage::Begin` with `Event::Begin`, performs each action
/// it is handed, reports its outcome as the next event, and stops at `Action::Succeed` or `Action::Abort`.
pub fn step(info: &WifiInfo, stage: Stage, event: &Event) -> (r: (Stage, Action))
    ensures
        (r.0, r.1@) == step_spec(info@, stage, *event),
{
    match (stage, event) {
        (_, Event::Failed) => (Stage::Finished, Action::Abort(RadioError::Driver)),
        (Stage::Begin, Event::Begin) => (Stage::IpSet, Action::SetIpInfo(raw_ip_info(&info.ip_info))),
        (Stage::IpSet, Event::Done) => {
            let no_sta = info.sta_config.is_none();
            if info.ap_mode == ApMode::NoConnOnBoot && no_sta {
                (Stage::QueryingAp, Action::GetConfiguration)
            } else if !no_sta {
                (Stage::ConfiguredToConnect, Action::SetConfiguration(first_radio_config(info)))
            } else if info.ap_mode == ApMode::Always {
                (Stage::ConfiguredToStart, Action::SetConfiguration(first_radio_config(info)))
            } else {
                (Stage::Closing, Action::SetConfiguration(first_radio_config(info)))
            }
        },
        (Stage::QueryingAp, Event::Current(c)) => {
            if info.ap_mode != ApMode::NoConnOnBoot {
                return (Stage::Finished, Action::Abort(RadioError::UnexpectedEvent));
            }
            let target = target_ap_config(info);
            let unchanged = match c.ap_ref() {
                Some(current) => current.same_as(&target),
                None => false,
            };
            if unchanged {
                (Stage::Finished, Action::Succeed)
            } else {
                (Stage::ConfiguredToStart, Action::SetConfiguration(fallback_radio_config(info)))
            }
        },
        (Stage::ConfiguredToStart, Event::Done) => (Stage::Closing, Action::Start),
        (Stage::ConfiguredToConnect, Event::Done) => (Stage::Started, Action::Start),
        (Stage::Started, Event::Done) => (Stage::Connecting, Action::Connect),
        (Stage::Connecting, Event::Done) => {
            if info.ap_mode == ApMode::NoConnOnBoot {
                (Stage::Waiting, Action::WaitConnected(CONNECT_TIMEOUT_SECS))
            } else {
                (Stage::Finished, Action::Succeed)
            }
        },
        (Stage::Waiting, Event::WaitOutcome(connected)) => {
            if info.ap_mode != ApMode::NoConnOnBoot {
                (Stage::Finished, Action::Abort(RadioError::UnexpectedEvent))
            } else if *connected {
                (Stage::Finished, Action::Succeed)
            } else {
                (Stage::ConfiguredToStart, Action::SetConfiguration(fallback_radio_config(info)))
            }
        },
        (Stage::Closing, Event::Done) => (Stage::Finished, Action::Succeed),
        _ => (Stage::Finished, Action::Abort(RadioError::UnexpectedEvent)),
    }
}

/// In mode `Never` no step applies a configuration that brings up an access point.
pub proof fn lemma_never_mode_has_no_ap(info: WifiInfoView, stage: Stage, event: Event)
    requires
        info.ap_mode == ApMode::Never,
    ensures
        step_spec(info, stage, event).1 matches ActionView::SetConfiguration(c) ==> c.ap() is None,
{
}

/// In mode `Always` every configuration that a step applies brings up an access point.
pub proof fn lemma_always_mode_has_ap(info: WifiInfoView, stage: Stage, event: Event)
    requires
        info.ap_mode == ApMode::Always,
    ensures
        step_spec(info, stage, event).1 matches ActionView::SetConfiguration(c) ==> c.ap() is Some,
{
}

/// Only mode `NoConnOnBoot` waits for a connection, and it waits 15 seconds.
pub proof fn lemma_only_no_conn_on_boot_waits(info: WifiInfoView, stage: Stage, event: Event)
    ensures
        step_spec(info, stage, event).1 matches ActionView::WaitConnected(secs) ==> info.ap_mode
            == ApMode::NoConnOnBoot && secs == 15,
{
}

} // verus!
