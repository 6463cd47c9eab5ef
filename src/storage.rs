use vstd::prelude::*;
use crate::model::{ApMode, IpInfo, IpInfoView, WifiInfo, WifiInfoView};
use crate::codec::{CodecError, decode, decoding, encode, encoding, fields_valid, strings_fit};

verus! {

/// Key under which the configuration is persisted.
pub const SETTINGS_KEY: &'static str = "settings";

/// Mask width of the configuration used when none is stored.
pub const DEFAULT_MASK_WIDTH: u8 = 24;

/// Why the stored configuration could not be read or written.
#[derive(Debug, Clone, Copy, PartialEq, Eq, Structural)]
pub enum StoreError {
    /// The key/value store failed.
    Storage,
    /// The configuration does not fit the stored record.
    EncodeOverflow,
    /// The configuration's mask width is over 32, or one of its strings is not UTF-8.
    InvalidField,
    /// The stored record is truncated or malformed.
    DecodeError,
}

/// The configuration in effect while none is stored: unspecified addresses, mask width 24,
/// no station, no access point, mode `NoConnOnBoot`.
pub open spec fn default_info_spec() -> WifiInfoView {
    WifiInfoView {
        ip_info: IpInfoView {
            ip: seq![0u8, 0, 0, 0],
            gateway: seq![0u8, 0, 0, 0],
            mask: DEFAULT_MASK_WIDTH,
            dns: None,
            secondary_dns: None,
        },
        sta_config: None,
        ap_config: None,
        ap_mode: ApMode::NoConnOnBoot,
    }
}

pub fn default_info() -> (r: WifiInfo)
    ensures
        r@ == default_info_spec(),
{
    let r = WifiInfo {
        ip_info: IpInfo {
            ip: [0u8, 0, 0, 0],
            gateway: [0u8, 0, 0, 0],
            mask: DEFAULT_MASK_WIDTH,
            dns: None,
            secondary_dns: None,
        },
        sta_config: None,
        ap_config: None,
        ap_mode: ApMode::NoConnOnBoot,
    };
    assert(r.ip_info.ip@ =~= seq![0u8, 0, 0, 0]);
    assert(r.ip_info.gateway@ =~= seq![0u8, 0, 0, 0]);
    r
}

/// What the store holds under the settings key: the record, or nothing.
pub struct WifiStorage {
    stored: Option<Vec<u8>>,
}

impl View for WifiStorage {
    type V = Option<Seq<u8>>;

    closed spec fn view(&self) -> Option<Seq<u8>> {
        match self.stored {
            Some(v) => Some(v@),
            None => None,
        }
    }
}

impl WifiStorage {
    /// A store that holds `stored` under the settings key (`None`: the key is absent).
    pub fn new(stored: Option<Vec<u8>>) -> (r: WifiStorage)
        ensures
            r@ == match stored {
                Some(v) => Some(v@),
                None => None::<Seq<u8>>,
            },
    {
        WifiStorage { stored }
    }

    /// The record held under the settings key, to be written out; `None` when the key is absent.
    pub fn stored(&self) -> (r: Option<&Vec<u8>>)
        ensures
            match r {
                Some(v) => self@ == Some(v@),
                None => self@ is None,
            },
    {
        match &self.stored {
            Some(v) => Some(v),
            None => None,
        }
    }

    /// The stored configuration, or the default one when the key is absent.
    pub fn get_info(&self) -> (r: Result<WifiInfo, StoreError>)
        ensures
            match self@ {
                None => r matches Ok(c) && c@ == default_info_spec(),
                Some(b) => match decoding(b) {
                    Some(c) => r matches Ok(x) && x@ == c,
                    None => r == Err::<WifiInfo, StoreError>(StoreError::DecodeError),
                },
            },
            r matches Ok(c) ==> strings_fit(c@) && fields_valid(c@),
    {
        match &self.stored {
            None => Ok(default_info()),
            Some(b) => match decode(b.as_slice()) {
                Ok(c) => Ok(c),
                Err(_) => Err(StoreError::DecodeError),
            },
        }
    }

    /// Stores the encoding of `config`, or removes the key when `config` is `None`.
    /// Removing an absent key succeeds. On failure the store is left as it was.
    pub fn set_info(&mut self, config: Option<&WifiInfo>) -> (r: Result<(), StoreError>)
        ensures
            match config {
                None => r is Ok && final(self)@ is None,
                Some(c) => if !strings_fit(c@) {
                    r == Err::<(), StoreError>(StoreError::EncodeOverflow) && final(self)@ == old(
                        self,
                    )@
                } else if !fields_valid(c@) {
                    r == Err::<(), StoreError>(StoreError::InvalidField) && final(self)@ == old(
                        self,
                    )@
                } else {
                    r is Ok && final(self)@ == Some(encoding(c@))
                },
            },
    {
        match config {
            None => {
                self.stored = None;
                Ok(())
            },
            Some(c) => match encode(c) {
                Ok(bytes) => {
                    self.stored = Some(bytes);
                    Ok(())
                },
                Err(CodecError::EncodeOverflow) => Err(StoreError::EncodeOverflow),
                Err(_) => Err(StoreError::InvalidField),
            },
        }
    }
}

} // verus!
