use vstd::prelude::*;
use crate::model::{
    AccessPointConfig, AccessPointConfigView, ApMode, AuthMethod, ClientConfig, ClientConfigView,
    IpInfo, IpInfoView, WifiInfo, WifiInfoView, PASSWORD_MAX, SSID_MAX,
};
use crate::text::{check_utf8, is_utf8};

verus! {

// The stored record: the IP assignment (address, gateway, mask width, two optional DNS
// addresses), then the optional station and access-point configurations, each behind a
// tag byte, then the mode's code. A string is its length in one byte and its bytes; an
// optional value is a tag byte 0 or 1, followed by the value under 1; `max_connections`
// is two little-endian bytes. This layout is the library's own: it is not serde's
// postcard layout, and records written in that layout do not decode.

/// Largest number of bytes that an encoded configuration may take.
pub const CAPACITY: usize = 240;

/// Why a configuration could not be encoded or decoded.
#[derive(Debug, Clone, Copy, PartialEq, Eq, Structural)]
pub enum CodecError {
    /// The encoding would not fit: an ssid or a password is too long.
    EncodeOverflow,
    /// A mask width is over 32, or an ssid or a password is not UTF-8.
    InvalidField,
    /// The bytes are truncated, malformed or followed by more bytes.
    DecodeError,
}

// ----- the encoding -----

pub open spec fn enc_u8(x: u8) -> Seq<u8> {
    seq![x]
}

pub open spec fn enc_bool(x: bool) -> Seq<u8> {
    seq![if x { 1u8 } else { 0u8 }]
}

/// A string: its length in one byte, then its bytes.
pub open spec fn enc_str(s: Seq<u8>) -> Seq<u8> {
    seq![s.len() as u8] + s
}

pub open spec fn enc_opt_bytes(o: Option<Seq<u8>>) -> Seq<u8> {
    match o {
        Some(b) => seq![1u8] + b,
        None => seq![0u8],
    }
}

pub open spec fn enc_opt_u8(o: Option<u8>) -> Seq<u8> {
    match o {
        Some(x) => seq![1u8, x],
        None => seq![0u8],
    }
}

/// Little-endian, two bytes.
pub open spec fn enc_u16(x: u16) -> Seq<u8> {
    seq![(x % 256) as u8, (x / 256) as u8]
}

pub open spec fn enc_ip(i: IpInfoView) -> Seq<u8> {
    i.ip + i.gateway + enc_u8(i.mask) + enc_opt_bytes(i.dns) + enc_opt_bytes(i.secondary_dns)
}

pub open spec fn enc_client(c: ClientConfigView) -> Seq<u8> {
    enc_str(c.ssid) + enc_opt_bytes(c.bssid) + enc_u8(c.auth_method.code_spec()) + enc_str(
        c.password,
    ) + enc_opt_u8(c.channel)
}

pub open spec fn enc_ap(a: AccessPointConfigView) -> Seq<u8> {
    enc_str(a.ssid) + enc_bool(a.ssid_hidden) + enc_u8(a.channel) + enc_opt_u8(a.secondary_channel)
        + enc_u8(a.protocols) + enc_u8(a.auth_method.code_spec()) + enc_str(a.password) + enc_u16(a.max_connections)
}

pub open spec fn enc_opt_client(o: Option<ClientConfigView>) -> Seq<u8> {
    match o {
        Some(c) => seq![1u8] + enc_client(c),
        None => seq![0u8],
    }
}

pub open spec fn enc_opt_ap(o: Option<AccessPointConfigView>) -> Seq<u8> {
    match o {
        Some(a) => seq![1u8] + enc_ap(a),
        None => seq![0u8],
    }
}

/// The bytes that stand for a configuration.
pub open spec fn encoding(c: WifiInfoView) -> Seq<u8> {
    enc_ip(c.ip_info) + enc_opt_client(c.sta_config) + enc_opt_ap(c.ap_config) + enc_u8(
        c.ap_mode.code_spec(),
    )
}

/// Every ssid and password within its bound.
pub open spec fn strings_fit(c: WifiInfoView) -> bool {
    &&& (c.sta_config matches Some(s) ==> s.ssid.len() <= SSID_MAX && s.password.len()
        <= PASSWORD_MAX)
    &&& (c.ap_config matches Some(a) ==> a.ssid.len() <= SSID_MAX && a.password.len()
        <= PASSWORD_MAX)
}

/// A mask width of at most 32, and every ssid and password in UTF-8.
pub open spec fn fields_valid(c: WifiInfoView) -> bool {
    &&& c.ip_info.mask <= 32
    &&& (c.sta_config matches Some(s) ==> is_utf8(s.ssid) && is_utf8(s.password))
    &&& (c.ap_config matches Some(a) ==> is_utf8(a.ssid) && is_utf8(a.password))
}

/// Addresses of the lengths that their types give.
pub open spec fn shaped(c: WifiInfoView) -> bool {
    &&& c.ip_info.ip.len() == 4
    &&& c.ip_info.gateway.len() == 4
    &&& (c.ip_info.dns matches Some(d) ==> d.len() == 4)
    &&& (c.ip_info.secondary_dns matches Some(d) ==> d.len() == 4)
    &&& (c.sta_config matches Some(s) ==> (s.bssid matches Some(b) ==> b.len() == 6))
}

// ----- parsing, from position `p` -----

pub open spec fn parse_u8(b: Seq<u8>, p: int) -> Option<(u8, int)> {
    if 0 <= p < b.len() {
        Some((b[p], p + 1))
    } else {
        None
    }
}

pub open spec fn parse_bytes(b: Seq<u8>, p: int, n: int) -> Option<(Seq<u8>, int)> {
    if 0 <= p && 0 <= n && p + n <= b.len() {
        Some((b.subrange(p, p + n), p + n))
    } else {
        None
    }
}

pub open spec fn parse_bool(b: Seq<u8>, p: int) -> Option<(bool, int)> {
    match parse_u8(b, p) {
        Some((x, q)) => if x == 0 {
            Some((false, q))
        } else if x == 1 {
            Some((true, q))
        } else {
            None
        },
        None => None,
    }
}

pub open spec fn parse_str(b: Seq<u8>, p: int, max: int) -> Option<(Seq<u8>, int)> {
    match parse_u8(b, p) {
        Some((n, q)) => if n <= max {
            match parse_bytes(b, q, n as int) {
                Some((v, r)) => if is_utf8(v) {
                    Some((v, r))
                } else {
                    None
                },
                None => None,
            }
        } else {
            None
        },
        None => None,
    }
}

pub open spec fn parse_opt_bytes(b: Seq<u8>, p: int, n: int) -> Option<(Option<Seq<u8>>, int)> {
    match parse_u8(b, p) {
        Some((t, q)) => if t == 0 {
            Some((None, q))
        } else if t == 1 {
            match parse_bytes(b, q, n) {
                Some((v, r)) => Some((Some(v), r)),
                None => None,
            }
        } else {
            None
        },
        None => None,
    }
}

pub open spec fn parse_opt_u8(b: Seq<u8>, p: int) -> Option<(Option<u8>, int)> {
    match parse_u8(b, p) {
        Some((t, q)) => if t == 0 {
            Some((None, q))
        } else if t == 1 {
            match parse_u8(b, q) {
                Some((v, r)) => Some((Some(v), r)),
                None => None,
            }
        } else {
            None
        },
        None => None,
    }
}

pub open spec fn parse_auth(b: Seq<u8>, p: int) -> Option<(AuthMethod, int)> {
    match parse_u8(b, p) {
        Some((x, q)) => match AuthMethod::from_code_spec(x) {
            Some(a) => Some((a, q)),
            None => None,
        },
        None => None,
    }
}

pub open spec fn parse_mode(b: Seq<u8>, p: int) -> Option<(ApMode, int)> {
    match parse_u8(b, p) {
        Some((x, q)) => match ApMode::from_code_spec(x) {
            Some(m) => Some((m, q)),
            None => None,
        },
        None => None,
    }
}

pub open spec fn parse_u16(b: Seq<u8>, p: int) -> Option<(u16, int)> {
    if 0 <= p && p + 2 <= b.len() {
        Some(((b[p] as int + 256 * b[p + 1] as int) as u16, p + 2))
    } else {
        None
    }
}

// ----- lemmas on single pieces -----

/// A piece of an encoding found at position `p` of `b`.
pub open spec fn at(b: Seq<u8>, p: int, e: Seq<u8>) -> bool {
    0 <= p && p + e.len() <= b.len() && b.subrange(p, p + e.len()) == e
}

proof fn lemma_at_split(b: Seq<u8>, p: int, x: Seq<u8>, y: Seq<u8>)
    requires
        at(b, p, x + y),
    ensures
        at(b, p, x),
        at(b, p + x.len(), y),
{
    assert(b.subrange(p, p + x.len()) =~= (x + y).subrange(0, x.len() as int));
    assert(b.subrange(p + x.len(), p + x.len() + y.len()) =~= (x + y).subrange(
        x.len() as int,
        (x + y).len() as int,
    ));
    assert((x + y).subrange(0, x.len() as int) =~= x);
    assert((x + y).subrange(x.len() as int, (x + y).len() as int) =~= y);
}

proof fn lemma_parse_u8(b: Seq<u8>, p: int, x: u8)
    requires
        at(b, p, enc_u8(x)),
    ensures
        parse_u8(b, p) == Some((x, p + 1)),
{
    assert(b.subrange(p, p + 1)[0] == b[p]);
}

proof fn lemma_parse_bytes(b: Seq<u8>, p: int, v: Seq<u8>)
    requires
        at(b, p, v),
    ensures
        parse_bytes(b, p, v.len() as int) == Some((v, p + v.len())),
{
}

proof fn lemma_parse_str(b: Seq<u8>, p: int, s: Seq<u8>, max: int)
    requires
        at(b, p, enc_str(s)),
        s.len() <= max,
        max <= 255,
        is_utf8(s),
    ensures
        parse_str(b, p, max) == Some((s, p + enc_str(s).len())),
{
    lemma_at_split(b, p, seq![s.len() as u8], s);
    lemma_parse_u8(b, p, s.len() as u8);
    lemma_parse_bytes(b, p + 1, s);
}

proof fn lemma_parse_bool(b: Seq<u8>, p: int, x: bool)
    requires
        at(b, p, enc_bool(x)),
    ensures
        parse_bool(b, p) == Some((x, p + 1)),
{
    lemma_parse_u8(b, p, if x { 1u8 } else { 0u8 });
}

proof fn lemma_parse_opt_bytes(b: Seq<u8>, p: int, o: Option<Seq<u8>>, n: int)
    requires
        at(b, p, enc_opt_bytes(o)),
        o matches Some(v) ==> v.len() == n,
        0 <= n,
    ensures
        parse_opt_bytes(b, p, n) == Some((o, p + enc_opt_bytes(o).len())),
{
    match o {
        Some(v) => {
            lemma_at_split(b, p, seq![1u8], v);
            lemma_parse_u8(b, p, 1u8);
            lemma_parse_bytes(b, p + 1, v);
        },
        None => {
            lemma_parse_u8(b, p, 0u8);
        },
    }
}

proof fn lemma_parse_opt_u8(b: Seq<u8>, p: int, o: Option<u8>)
    requires
        at(b, p, enc_opt_u8(o)),
    ensures
        parse_opt_u8(b, p) == Some((o, p + enc_opt_u8(o).len())),
{
    match o {
        Some(v) => {
            assert(seq![1u8, v] =~= seq![1u8] + seq![v]);
            lemma_at_split(b, p, seq![1u8], seq![v]);
            lemma_parse_u8(b, p, 1u8);
            lemma_parse_u8(b, p + 1, v);
        },
        None => {
            lemma_parse_u8(b, p, 0u8);
        },
    }
}

proof fn lemma_parse_auth(b: Seq<u8>, p: int, a: AuthMethod)
    requires
        at(b, p, enc_u8(a.code_spec())),
    ensures
        parse_auth(b, p) == Some((a, p + 1)),
{
    lemma_parse_u8(b, p, a.code_spec());
}

proof fn lemma_parse_mode(b: Seq<u8>, p: int, m: ApMode)
    requires
        at(b, p, enc_u8(m.code_spec())),
    ensures
        parse_mode(b, p) == Some((m, p + 1)),
{
    lemma_parse_u8(b, p, m.code_spec());
}

proof fn lemma_parse_u16(b: Seq<u8>, p: int, x: u16)
    requires
        at(b, p, enc_u16(x)),
    ensures
        parse_u16(b, p) == Some((x, p + 2)),
{
    assert(b.subrange(p, p + 2)[0] == b[p]);
    assert(b.subrange(p, p + 2)[1] == b[p + 1]);
}

// ----- parsing of records -----

pub open spec fn parse_ip(b: Seq<u8>, p: int) -> Option<(IpInfoView, int)> {
    match parse_bytes(b, p, 4) {
        Some((ip, p1)) => match parse_bytes(b, p1, 4) {
            Some((gateway, p2)) => match parse_u8(b, p2) {
                Some((mask, p3)) => if mask > 32 {
                    None
                } else {
                    match parse_opt_bytes(b, p3, 4) {
                        Some((dns, p4)) => match parse_opt_bytes(b, p4, 4) {
                            Some((secondary_dns, p5)) => Some(
                                (IpInfoView { ip, gateway, mask, dns, secondary_dns }, p5),
                            ),
                            None => None,
                        },
                        None => None,
                    }
                },
                None => None,
            },
            None => None,
        },
        None => None,
    }
}

pub open spec fn parse_client(b: Seq<u8>, p: int) -> Option<(ClientConfigView, int)> {
    match parse_str(b, p, SSID_MAX as int) {
        Some((ssid, p1)) => match parse_opt_bytes(b, p1, 6) {
            Some((bssid, p2)) => match parse_auth(b, p2) {
                Some((auth_method, p3)) => match parse_str(b, p3, PASSWORD_MAX as int) {
                    Some((password, p4)) => match parse_opt_u8(b, p4) {
                        Some((channel, p5)) => Some(
                            (ClientConfigView { ssid, bssid, auth_method, password, channel }, p5),
                        ),
                        None => None,
                    },
                    None => None,
                },
                None => None,
            },
            None => None,
        },
        None => None,
    }
}

pub open spec fn parse_ap(b: Seq<u8>, p: int) -> Option<(AccessPointConfigView, int)> {
    match parse_str(b, p, SSID_MAX as int) {
        Some((ssid, p1)) => match parse_bool(b, p1) {
            Some((ssid_hidden, p2)) => match parse_u8(b, p2) {
                Some((channel, p3)) => match parse_opt_u8(b, p3) {
                    Some((secondary_channel, p4)) => match parse_u8(b, p4) {
                        Some((protocols, p5)) => match parse_auth(b, p5) {
                            Some((auth_method, p6)) => match parse_str(b, p6, PASSWORD_MAX as int) {
                                Some((password, p7)) => match parse_u16(b, p7) {
                                    Some((max_connections, p8)) => Some(
                                        (
                                            AccessPointConfigView {
                                                ssid,
                                                ssid_hidden,
                                                channel,
                                                secondary_channel,
                                                protocols,
                                                auth_method,
                                                password,
                                                max_connections,
                                            },
                                            p8,
                                        ),
                                    ),
                                    None => None,
                                },
                                None => None,
                            },
                            None => None,
                        },
                        None => None,
                    },
                    None => None,
                },
                None => None,
            },
            None => None,
        },
        None => None,
    }
}

pub open spec fn parse_opt_client(b: Seq<u8>, p: int) -> Option<(Option<ClientConfigView>, int)> {
    match parse_u8(b, p) {
        Some((t, q)) => if t == 0 {
            Some((None, q))
        } else if t == 1 {
            match parse_client(b, q) {
                Some((c, r)) => Some((Some(c), r)),
                None => None,
            }
        } else {
            None
        },
        None => None,
    }
}

pub open spec fn parse_opt_ap(b: Seq<u8>, p: int) -> Option<(Option<AccessPointConfigView>, int)> {
    match parse_u8(b, p) {
        Some((t, q)) => if t == 0 {
            Some((None, q))
        } else if t == 1 {
            match parse_ap(b, q) {
                Some((a, r)) => Some((Some(a), r)),
                None => None,
            }
        } else {
            None
        },
        None => None,
    }
}

pub open spec fn parse_info(b: Seq<u8>, p: int) -> Option<(WifiInfoView, int)> {
    match parse_ip(b, p) {
        Some((ip_info, p1)) => match parse_opt_client(b, p1) {
            Some((sta_config, p2)) => match parse_opt_ap(b, p2) {
                Some((ap_config, p3)) => match parse_mode(b, p3) {
                    Some((ap_mode, p4)) => Some(
                        (WifiInfoView { ip_info, sta_config, ap_config, ap_mode }, p4),
                    ),
                    None => None,
                },
                None => None,
            },
            None => None,
        },
        None => None,
    }
}

/// The configuration that `b` stands for, where all of `b` is one encoding.
pub open spec fn decoding(b: Seq<u8>) -> Option<WifiInfoView> {
    match parse_info(b, 0) {
        Some((c, q)) => if q == b.len() {
            Some(c)
        } else {
            None
        },
        None => None,
    }
}

// ----- lemmas on records -----

proof fn lemma_parse_ip(b: Seq<u8>, p: int, i: IpInfoView)
    requires
        at(b, p, enc_ip(i)),
        i.ip.len() == 4,
        i.gateway.len() == 4,
        i.mask <= 32,
        i.dns matches Some(d) ==> d.len() == 4,
        i.secondary_dns matches Some(d) ==> d.len() == 4,
    ensures
        parse_ip(b, p) == Some((i, p + enc_ip(i).len())),
{
    let a = i.ip;
    let g = i.gateway;
    let m = enc_u8(i.mask);
    let d = enc_opt_bytes(i.dns);
    let e = enc_opt_bytes(i.secondary_dns);
    lemma_at_split(b, p, a + g + m + d, e);
    lemma_at_split(b, p, a + g + m, d);
    lemma_at_split(b, p, a + g, m);
    lemma_at_split(b, p, a, g);
    lemma_parse_bytes(b, p, a);
    lemma_parse_bytes(b, p + 4, g);
    lemma_parse_u8(b, p + 8, i.mask);
    lemma_parse_opt_bytes(b, p + 9, i.dns, 4);
    lemma_parse_opt_bytes(b, p + 9 + d.len(), i.secondary_dns, 4);
}

proof fn lemma_parse_client(b: Seq<u8>, p: int, c: ClientConfigView)
    requires
        at(b, p, enc_client(c)),
        c.ssid.len() <= SSID_MAX,
        c.password.len() <= PASSWORD_MAX,
        is_utf8(c.ssid),
        is_utf8(c.password),
        c.bssid matches Some(x) ==> x.len() == 6,
    ensures
        parse_client(b, p) == Some((c, p + enc_client(c).len())),
{
    let s = enc_str(c.ssid);
    let x = enc_opt_bytes(c.bssid);
    let a = enc_u8(c.auth_method.code_spec());
    let w = enc_str(c.password);
    let h = enc_opt_u8(c.channel);
    lemma_at_split(b, p, s + x + a + w, h);
    lemma_at_split(b, p, s + x + a, w);
    lemma_at_split(b, p, s + x, a);
    lemma_at_split(b, p, s, x);
    lemma_parse_str(b, p, c.ssid, SSID_MAX as int);
    lemma_parse_opt_bytes(b, p + s.len(), c.bssid, 6);
    lemma_parse_auth(b, p + s.len() + x.len(), c.auth_method);
    lemma_parse_str(b, p + s.len() + x.len() + 1, c.password, PASSWORD_MAX as int);
    lemma_parse_opt_u8(b, p + s.len() + x.len() + 1 + w.len(), c.channel);
}

proof fn lemma_parse_ap(b: Seq<u8>, p: int, c: AccessPointConfigView)
    requires
        at(b, p, enc_ap(c)),
        c.ssid.len() <= SSID_MAX,
        c.password.len() <= PASSWORD_MAX,
        is_utf8(c.ssid),
        is_utf8(c.password),
    ensures
        parse_ap(b, p) == Some((c, p + enc_ap(c).len())),
{
    let s = enc_str(c.ssid);
    let h = enc_bool(c.ssid_hidden);
    let ch = enc_u8(c.channel);
    let sc = enc_opt_u8(c.secondary_channel);
    let pr = enc_u8(c.protocols);
    let a = enc_u8(c.auth_method.code_spec());
    let w = enc_str(c.password);
    let m = enc_u16(c.max_connections);
    lemma_at_split(b, p, s + h + ch + sc + pr + a + w, m);
    lemma_at_split(b, p, s + h + ch + sc + pr + a, w);
    lemma_at_split(b, p, s + h + ch + sc + pr, a);
    lemma_at_split(b, p, s + h + ch + sc, pr);
    lemma_at_split(b, p, s + h + ch, sc);
    lemma_at_split(b, p, s + h, ch);
    lemma_at_split(b, p, s, h);
    lemma_parse_str(b, p, c.ssid, SSID_MAX as int);
    lemma_parse_bool(b, p + s.len(), c.ssid_hidden);
    lemma_parse_u8(b, p + s.len() + 1, c.channel);
    lemma_parse_opt_u8(b, p + s.len() + 2, c.secondary_channel);
    lemma_parse_u8(b, p + s.len() + 2 + sc.len(), c.protocols);
    lemma_parse_auth(b, p + s.len() + 3 + sc.len(), c.auth_method);
    lemma_parse_str(b, p + s.len() + 4 + sc.len(), c.password, PASSWORD_MAX as int);
    lemma_parse_u16(b, p + s.len() + 4 + sc.len() + w.len(), c.max_connections);
}

proof fn lemma_parse_info(b: Seq<u8>, p: int, c: WifiInfoView)
    requires
        at(b, p, encoding(c)),
        strings_fit(c),
        fields_valid(c),
        shaped(c),
    ensures
        parse_info(b, p) == Some((c, p + encoding(c).len())),
{
    let i = enc_ip(c.ip_info);
    let s = enc_opt_client(c.sta_config);
    let a = enc_opt_ap(c.ap_config);
    let m = enc_u8(c.ap_mode.code_spec());
    lemma_at_split(b, p, i + s + a, m);
    lemma_at_split(b, p, i + s, a);
    lemma_at_split(b, p, i, s);
    lemma_parse_ip(b, p, c.ip_info);
    let p1 = p + i.len();
    match c.sta_config {
        Some(sc) => {
            lemma_at_split(b, p1, seq![1u8], enc_client(sc));
            lemma_parse_u8(b, p1, 1u8);
            lemma_parse_client(b, p1 + 1, sc);
        },
        None => {
            lemma_parse_u8(b, p1, 0u8);
        },
    }
    let p2 = p1 + s.len();
    match c.ap_config {
        Some(ac) => {
            lemma_at_split(b, p2, seq![1u8], enc_ap(ac));
            lemma_parse_u8(b, p2, 1u8);
            lemma_parse_ap(b, p2 + 1, ac);
        },
        None => {
            lemma_parse_u8(b, p2, 0u8);
        },
    }
    lemma_parse_mode(b, p2 + a.len(), c.ap_mode);
}

/// Decoding the encoding of a valid configuration whose strings fit gives that
/// configuration back.
pub proof fn lemma_round_trip(c: WifiInfoView)
    requires
        strings_fit(c),
        fields_valid(c),
        shaped(c),
    ensures
        decoding(encoding(c)) == Some(c),
{
    let e = encoding(c);
    assert(e.subrange(0, e.len() as int) =~= e);
    lemma_parse_info(e, 0, c);
}

/// The encoding of a configuration whose strings fit stays within the capacity.
pub proof fn lemma_encoding_len(c: WifiInfoView)
    requires
        strings_fit(c),
        shaped(c),
    ensures
        encoding(c).len() <= CAPACITY,
{
    match c.sta_config {
        Some(sc) => {
            assert(enc_opt_client(c.sta_config).len() <= 1 + 33 + 7 + 1 + 65 + 2);
        },
        None => {},
    }
    match c.ap_config {
        Some(ac) => {
            assert(enc_opt_ap(c.ap_config).len() <= 1 + 33 + 1 + 1 + 2 + 1 + 1 + 65 + 2);
        },
        None => {},
    }
    assert(enc_ip(c.ip_info).len() <= 19);
}

// ----- writing -----

fn push_all(out: &mut Vec<u8>, s: &[u8])
    ensures
        final(out)@ == old(out)@ + s@,
{
    let mut i: usize = 0;
    while i < s.len()
        invariant
            i <= s@.len(),
            out@ == old(out)@ + s@.subrange(0, i as int),
        decreases s@.len() - i,
    {
        out.push(s[i]);
        assert(s@.subrange(0, i + 1) =~= s@.subrange(0, i as int).push(s@[i as int]));
        assert(out@ =~= old(out)@ + s@.subrange(0, i + 1));
        i = i + 1;
    }
    assert(s@.subrange(0, i as int) =~= s@);
}

fn push_str(out: &mut Vec<u8>, s: &Vec<u8>)
    requires
        s@.len() <= 255,
    ensures
        final(out)@ == old(out)@ + enc_str(s@),
{
    out.push(s.len() as u8);
    push_all(out, s.as_slice());
    assert(final(out)@ =~= old(out)@ + enc_str(s@));
}

fn push_opt_addr(out: &mut Vec<u8>, o: &Option<[u8; 4]>)
    ensures
        final(out)@ == old(out)@ + enc_opt_bytes(crate::model::opt_addr_view(*o)),
{
    match o {
        Some(a) => {
            out.push(1);
            push_all(out, a.as_slice());
        },
        None => out.push(0),
    }
    assert(final(out)@ =~= old(out)@ + enc_opt_bytes(crate::model::opt_addr_view(*o)));
}

fn push_opt_u8(out: &mut Vec<u8>, o: Option<u8>)
    ensures
        final(out)@ == old(out)@ + enc_opt_u8(o),
{
    match o {
        Some(x) => {
            out.push(1);
            out.push(x);
        },
        None => out.push(0),
    }
    assert(final(out)@ =~= old(out)@ + enc_opt_u8(o));
}

fn push_ip(out: &mut Vec<u8>, i: &IpInfo)
    ensures
        final(out)@ == old(out)@ + enc_ip(i@),
{
    push_all(out, i.ip.as_slice());
    push_all(out, i.gateway.as_slice());
    out.push(i.mask);
    push_opt_addr(out, &i.dns);
    push_opt_addr(out, &i.secondary_dns);
    assert(final(out)@ =~= old(out)@ + enc_ip(i@));
}

fn push_client(out: &mut Vec<u8>, c: &ClientConfig)
    requires
        c@.ssid.len() <= SSID_MAX,
        c@.password.len() <= PASSWORD_MAX,
    ensures
        final(out)@ == old(out)@ + enc_client(c@),
{
    push_str(out, &c.ssid);
    match &c.bssid {
        Some(b) => {
            out.push(1);
            push_all(out, b.as_slice());
        },
        None => out.push(0),
    }
    out.push(c.auth_method.code());
    push_str(out, &c.password);
    push_opt_u8(out, c.channel);
    assert(final(out)@ =~= old(out)@ + enc_client(c@));
}

fn push_ap(out: &mut Vec<u8>, a: &AccessPointConfig)
    requires
        a@.ssid.len() <= SSID_MAX,
        a@.password.len() <= PASSWORD_MAX,
    ensures
        final(out)@ == old(out)@ + enc_ap(a@),
{
    push_str(out, &a.ssid);
    out.push(if a.ssid_hidden { 1 } else { 0 });
    out.push(a.channel);
    push_opt_u8(out, a.secondary_channel);
    out.push(a.protocols);
    out.push(a.auth_method.code());
    push_str(out, &a.password);
    out.push((a.max_connections % 256) as u8);
    out.push((a.max_connections / 256) as u8);
    assert(final(out)@ =~= old(out)@ + enc_ap(a@));
}

fn push_opt_client(out: &mut Vec<u8>, o: &Option<ClientConfig>)
    requires
        o matches Some(c) ==> c@.ssid.len() <= SSID_MAX && c@.password.len() <= PASSWORD_MAX,
    ensures
        final(out)@ == old(out)@ + enc_opt_client(crate::model::opt_client_view(*o)),
{
    match o {
        Some(c) => {
            out.push(1);
            push_client(out, c);
        },
        None => out.push(0),
    }
    assert(final(out)@ =~= old(out)@ + enc_opt_client(crate::model::opt_client_view(*o)));
}

fn push_opt_ap(out: &mut Vec<u8>, o: &Option<AccessPointConfig>)
    requires
        o matches Some(a) ==> a@.ssid.len() <= SSID_MAX && a@.password.len() <= PASSWORD_MAX,
    ensures
        final(out)@ == old(out)@ + enc_opt_ap(crate::model::opt_ap_view(*o)),
{
    match o {
        Some(a) => {
            out.push(1);
            push_ap(out, a);
        },
        None => out.push(0),
    }
    assert(final(out)@ =~= old(out)@ + enc_opt_ap(crate::model::opt_ap_view(*o)));
}

/// Whether every ssid and password of `info` is within its bound.
pub fn fits(info: &WifiInfo) -> (r: bool)
    ensures
        r == strings_fit(info@),
{
    let sta_ok = match &info.sta_config {
        Some(c) => c.ssid.len() <= SSID_MAX && c.password.len() <= PASSWORD_MAX,
        None => true,
    };
    let ap_ok = match &info.ap_config {
        Some(a) => a.ssid.len() <= SSID_MAX && a.password.len() <= PASSWORD_MAX,
        None => true,
    };
    sta_ok && ap_ok
}

/// Whether the mask width of `info` is at most 32 and its ssids and passwords are UTF-8.
pub fn valid_fields(info: &WifiInfo) -> (r: bool)
    ensures
        r == fields_valid(info@),
{
    let sta_ok = match &info.sta_config {
        Some(c) => check_utf8(c.ssid.as_slice()) && check_utf8(c.password.as_slice()),
        None => true,
    };
    let ap_ok = match &info.ap_config {
        Some(a) => check_utf8(a.ssid.as_slice()) && check_utf8(a.password.as_slice()),
        None => true,
    };
    info.ip_info.mask <= 32 && sta_ok && ap_ok
}

/// The bytes that stand for `info`; `EncodeOverflow` where an ssid or a password is too
/// long, else `InvalidField` where the mask width is over 32 or a string is not UTF-8.
pub fn encode(info: &WifiInfo) -> (r: Result<Vec<u8>, CodecError>)
    ensures
        match r {
            Ok(v) => strings_fit(info@) && fields_valid(info@) && v@ == encoding(info@) && v@.len()
                <= CAPACITY,
            Err(e) => if !strings_fit(info@) {
                e == CodecError::EncodeOverflow
            } else {
                !fields_valid(info@) && e == CodecError::InvalidField
            },
        },
{
    if !fits(info) {
        return Err(CodecError::EncodeOverflow);
    }
    if !valid_fields(info) {
        return Err(CodecError::InvalidField);
    }
    let mut out: Vec<u8> = Vec::new();
    push_ip(&mut out, &info.ip_info);
    push_opt_client(&mut out, &info.sta_config);
    push_opt_ap(&mut out, &info.ap_config);
    out.push(info.ap_mode.code());
    assert(out@ =~= encoding(info@));
    proof {
        lemma_encoding_len(info@);
    }
    Ok(out)
}

// ----- reading -----

fn read_u8(b: &[u8], p: usize) -> (r: Option<(u8, usize)>)
    ensures
        match r {
            Some((x, q)) => parse_u8(b@, p as int) == Some((x, q as int)),
            None => parse_u8(b@, p as int) is None,
        },
{
    if p < b.len() {
        Some((b[p], p + 1))
    } else {
        None
    }
}

fn read_bytes(b: &[u8], p: usize, n: usize) -> (r: Option<(Vec<u8>, usize)>)
    ensures
        match r {
            Some((v, q)) => parse_bytes(b@, p as int, n as int) == Some((v@, q as int)),
            None => parse_bytes(b@, p as int, n as int) is None,
        },
{
    if p > b.len() || n > b.len() - p {
        return None;
    }
    let end: usize = p + n;
    let mut v: Vec<u8> = Vec::new();
    let mut i: usize = 0;
    while i < n
        invariant
            i <= n,
            end == p + n,
            p + n <= b@.len(),
            v@ == b@.subrange(p as int, p + i),
        decreases n - i,
    {
        v.push(b[p + i]);
        assert(v@ =~= b@.subrange(p as int, p + i + 1));
        i = i + 1;
    }
    Some((v, end))
}

fn read_addr(b: &[u8], p: usize) -> (r: Option<([u8; 4], usize)>)
    ensures
        match r {
            Some((v, q)) => parse_bytes(b@, p as int, 4) == Some((v@, q as int)),
            None => parse_bytes(b@, p as int, 4) is None,
        },
{
    if p > b.len() || 4 > b.len() - p {
        return None;
    }
    let v = [b[p], b[p + 1], b[p + 2], b[p + 3]];
    assert(v@ =~= b@.subrange(p as int, p + 4));
    Some((v, p + 4))
}

fn read_bssid(b: &[u8], p: usize) -> (r: Option<([u8; 6], usize)>)
    ensures
        match r {
            Some((v, q)) => parse_bytes(b@, p as int, 6) == Some((v@, q as int)),
            None => parse_bytes(b@, p as int, 6) is None,
        },
{
    if p > b.len() || 6 > b.len() - p {
        return None;
    }
    let v = [b[p], b[p + 1], b[p + 2], b[p + 3], b[p + 4], b[p + 5]];
    assert(v@ =~= b@.subrange(p as int, p + 6));
    Some((v, p + 6))
}

fn read_bool(b: &[u8], p: usize) -> (r: Option<(bool, usize)>)
    ensures
        match r {
            Some((x, q)) => parse_bool(b@, p as int) == Some((x, q as int)),
            None => parse_bool(b@, p as int) is None,
        },
{
    match read_u8(b, p) {
        Some((x, q)) => if x == 0 {
            Some((false, q))
        } else if x == 1 {
            Some((true, q))
        } else {
            None
        },
        None => None,
    }
}

fn read_str(b: &[u8], p: usize, max: usize) -> (r: Option<(Vec<u8>, usize)>)
    ensures
        match r {
            Some((v, q)) => parse_str(b@, p as int, max as int) == Some((v@, q as int)),
            None => parse_str(b@, p as int, max as int) is None,
        },
{
    match read_u8(b, p) {
        Some((n, q)) => if n as usize <= max {
            match read_bytes(b, q, n as usize) {
                Some((v, r)) => if check_utf8(v.as_slice()) {
                    Some((v, r))
                } else {
                    None
                },
                None => None,
            }
        } else {
            None
        },
        None => None,
    }
}

fn read_opt_addr(b: &[u8], p: usize) -> (r: Option<(Option<[u8; 4]>, usize)>)
    ensures
        match r {
            Some((v, q)) => parse_opt_bytes(b@, p as int, 4) == Some(
                (crate::model::opt_addr_view(v), q as int),
            ),
            None => parse_opt_bytes(b@, p as int, 4) is None,
        },
{
    match read_u8(b, p) {
        Some((t, q)) => if t == 0 {
            Some((None, q))
        } else if t == 1 {
            match read_addr(b, q) {
                Some((v, r)) => Some((Some(v), r)),
                None => None,
            }
        } else {
            None
        },
        None => None,
    }
}

fn read_opt_bssid(b: &[u8], p: usize) -> (r: Option<(Option<[u8; 6]>, usize)>)
    ensures
        match r {
            Some((v, q)) => parse_opt_bytes(b@, p as int, 6) == Some(
                (
                    match v {
                        Some(x) => Some(x@),
                        None => None,
                    },
                    q as int,
                ),
            ),
            None => parse_opt_bytes(b@, p as int, 6) is None,
        },
{
    match read_u8(b, p) {
        Some((t, q)) => if t == 0 {
            Some((None, q))
        } else if t == 1 {
            match read_bssid(b, q) {
                Some((v, r)) => Some((Some(v), r)),
                None => None,
            }
        } else {
            None
        },
        None => None,
    }
}

fn read_opt_u8(b: &[u8], p: usize) -> (r: Option<(Option<u8>, usize)>)
    ensures
        match r {
            Some((v, q)) => parse_opt_u8(b@, p as int) == Some((v, q as int)),
            None => parse_opt_u8(b@, p as int) is None,
        },
{
    match read_u8(b, p) {
        Some((t, q)) => if t == 0 {
            Some((None, q))
        } else if t == 1 {
            match read_u8(b, q) {
                Some((v, r)) => Some((Some(v), r)),
                None => None,
            }
        } else {
            None
        },
        None => None,
    }
}

fn read_auth(b: &[u8], p: usize) -> (r: Option<(AuthMethod, usize)>)
    ensures
        match r {
            Some((x, q)) => parse_auth(b@, p as int) == Some((x, q as int)),
            None => parse_auth(b@, p as int) is None,
        },
{
    match read_u8(b, p) {
        Some((x, q)) => match AuthMethod::from_code(x) {
            Some(a) => Some((a, q)),
            None => None,
        },
        None => None,
    }
}

fn read_mode(b: &[u8], p: usize) -> (r: Option<(ApMode, usize)>)
    ensures
        match r {
            Some((x, q)) => parse_mode(b@, p as int) == Some((x, q as int)),
            None => parse_mode(b@, p as int) is None,
        },
{
    match read_u8(b, p) {
        Some((x, q)) => match ApMode::from_code(x) {
            Some(m) => Some((m, q)),
            None => None,
        },
        None => None,
    }
}

fn read_u16(b: &[u8], p: usize) -> (r: Option<(u16, usize)>)
    ensures
        match r {
            Some((x, q)) => parse_u16(b@, p as int) == Some((x, q as int)),
            None => parse_u16(b@, p as int) is None,
        },
{
    if p > b.len() || 2 > b.len() - p {
        return None;
    }
    let x = b[p] as u16 + 256 * (b[p + 1] as u16);
    Some((x, p + 2))
}

fn read_ip(b: &[u8], p: usize) -> (r: Option<(IpInfo, usize)>)
    ensures
        match r {
            Some((x, q)) => parse_ip(b@, p as int) == Some((x@, q as int)),
            None => parse_ip(b@, p as int) is None,
        },
{
    let (ip, p1) = match read_addr(b, p) {
        Some(x) => x,
        None => return None,
    };
    let (gateway, p2) = match read_addr(b, p1) {
        Some(x) => x,
        None => return None,
    };
    let (mask, p3) = match read_u8(b, p2) {
        Some(x) => x,
        None => return None,
    };
    if mask > 32 {
        return None;
    }
    let (dns, p4) = match read_opt_addr(b, p3) {
        Some(x) => x,
        None => return None,
    };
    let (secondary_dns, p5) = match read_opt_addr(b, p4) {
        Some(x) => x,
        None => return None,
    };
    Some((IpInfo { ip, gateway, mask, dns, secondary_dns }, p5))
}

fn read_client(b: &[u8], p: usize) -> (r: Option<(ClientConfig, usize)>)
    ensures
        match r {
            Some((x, q)) => parse_client(b@, p as int) == Some((x@, q as int)),
            None => parse_client(b@, p as int) is None,
        },
{
    let (ssid, p1) = match read_str(b, p, SSID_MAX) {
        Some(x) => x,
        None => return None,
    };
    let (bssid, p2) = match read_opt_bssid(b, p1) {
        Some(x) => x,
        None => return None,
    };
    let (auth_method, p3) = match read_auth(b, p2) {
        Some(x) => x,
        None => return None,
    };
    let (password, p4) = match read_str(b, p3, PASSWORD_MAX) {
        Some(x) => x,
        None => return None,
    };
    let (channel, p5) = match read_opt_u8(b, p4) {
        Some(x) => x,
        None => return None,
    };
    Some((ClientConfig { ssid, bssid, auth_method, password, channel }, p5))
}

fn read_ap(b: &[u8], p: usize) -> (r: Option<(AccessPointConfig, usize)>)
    ensures
        match r {
            Some((x, q)) => parse_ap(b@, p as int) == Some((x@, q as int)),
            None => parse_ap(b@, p as int) is None,
        },
{
    let (ssid, p1) = match read_str(b, p, SSID_MAX) {
        Some(x) => x,
        None => return None,
    };
    let (ssid_hidden, p2) = match read_bool(b, p1) {
        Some(x) => x,
        None => return None,
    };
    let (channel, p3) = match read_u8(b, p2) {
        Some(x) => x,
        None => return None,
    };
    let (secondary_channel, p4) = match read_opt_u8(b, p3) {
        Some(x) => x,
        None => return None,
    };
    let (protocols, p5) = match read_u8(b, p4) {
        Some(x) => x,
        None => return None,
    };
    let (auth_method, p6) = match read_auth(b, p5) {
        Some(x) => x,
        None => return None,
    };
    let (password, p7) = match read_str(b, p6, PASSWORD_MAX) {
        Some(x) => x,
        None => return None,
    };
    let (max_connections, p8) = match read_u16(b, p7) {
        Some(x) => x,
        None => return None,
    };
    Some(
        (
            AccessPointConfig {
                ssid,
                ssid_hidden,
                channel,
                secondary_channel,
                protocols,
                auth_method,
                password,
                max_connections,
            },
            p8,
        ),
    )
}

fn read_opt_client(b: &[u8], p: usize) -> (r: Option<(Option<ClientConfig>, usize)>)
    ensures
        match r {
            Some((x, q)) => parse_opt_client(b@, p as int) == Some(
                (crate::model::opt_client_view(x), q as int),
            ),
            None => parse_opt_client(b@, p as int) is None,
        },
{
    match read_u8(b, p) {
        Some((t, q)) => if t == 0 {
            Some((None, q))
        } else if t == 1 {
            match read_client(b, q) {
                Some((c, r)) => Some((Some(c), r)),
                None => None,
            }
        } else {
            None
        },
        None => None,
    }
}

fn read_opt_ap(b: &[u8], p: usize) -> (r: Option<(Option<AccessPointConfig>, usize)>)
    ensures
        match r {
            Some((x, q)) => parse_opt_ap(b@, p as int) == Some(
                (crate::model::opt_ap_view(x), q as int),
            ),
            None => parse_opt_ap(b@, p as int) is None,
        },
{
    match read_u8(b, p) {
        Some((t, q)) => if t == 0 {
            Some((None, q))
        } else if t == 1 {
            match read_ap(b, q) {
                Some((a, r)) => Some((Some(a), r)),
                None => None,
            }
        } else {
            None
        },
        None => None,
    }
}

/// The configuration that `bytes` stand for; `DecodeError` where they are truncated,
/// malformed or followed by more bytes.
pub fn decode(bytes: &[u8]) -> (r: Result<WifiInfo, CodecError>)
    ensures
        match r {
            Ok(c) => decoding(bytes@) == Some(c@) && strings_fit(c@) && fields_valid(c@),
            Err(e) => decoding(bytes@) is None && e == CodecError::DecodeError,
        },
{
    let (ip_info, p1) = match read_ip(bytes, 0) {
        Some(x) => x,
        None => return Err(CodecError::DecodeError),
    };
    let (sta_config, p2) = match read_opt_client(bytes, p1) {
        Some(x) => x,
        None => return Err(CodecError::DecodeError),
    };
    let (ap_config, p3) = match read_opt_ap(bytes, p2) {
        Some(x) => x,
        None => return Err(CodecError::DecodeError),
    };
    let (ap_mode, p4) = match read_mode(bytes, p3) {
        Some(x) => x,
        None => return Err(CodecError::DecodeError),
    };
    if p4 != bytes.len() {
        return Err(CodecError::DecodeError);
    }
    let r = WifiInfo { ip_info, sta_config, ap_config, ap_mode };
    proof {
        lemma_parsed_valid(bytes@, 0);
    }
    Ok(r)
}

/// What parses is a configuration whose strings fit and whose fields are valid.
pub proof fn lemma_parsed_valid(b: Seq<u8>, p: int)
    ensures
        parse_info(b, p) matches Some((c, _)) ==> strings_fit(c) && fields_valid(c),
{
}

} // verus!
