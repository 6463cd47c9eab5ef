use vstd::prelude::*;
use crate::model::{IpInfo, IpInfoView};

verus! {

/// An IPv4 assignment in the form the network interface takes: three 32-bit words.
#[derive(Debug, Clone, Copy, PartialEq, Eq, Structural)]
pub struct RawIpInfo {
    pub ip: u32,
    pub netmask: u32,
    pub gw: u32,
}

/// The big-endian value of the first four bytes of `b`.
pub open spec fn be_u32(b: Seq<u8>) -> u32 {
    ((b[0] as u32) << 24u32) | ((b[1] as u32) << 16u32) | ((b[2] as u32) << 8u32) | (b[3] as u32)
}

/// The four big-endian bytes of `x`.
pub open spec fn be_bytes(x: u32) -> Seq<u8> {
    seq![(x >> 24u32) as u8, (x >> 16u32) as u8, (x >> 8u32) as u8, x as u8]
}

/// The number of one bits among the lowest `n` bits of `x`.
pub open spec fn ones_below(x: u32, n: nat) -> nat
    decreases n,
{
    if n == 0 {
        0
    } else {
        ones_below(x, (n - 1) as nat) + if (x >> ((n - 1) as u32)) & 1 == 1 {
            1nat
        } else {
            0nat
        }
    }
}

/// The number of one bits of `x`.
pub open spec fn popcount(x: u32) -> nat {
    ones_below(x, 32)
}

/// The subnet mask with `w` leading one bits; a width over 32 counts as 32.
pub open spec fn mask_spec(w: u8) -> u32 {
    if w >= 32 {
        0xFFFF_FFFFu32
    } else {
        !(0xFFFF_FFFFu32 >> (w as u32))
    }
}

pub open spec fn raw_ip_info_spec(info: IpInfoView) -> RawIpInfo {
    RawIpInfo { ip: be_u32(info.ip), netmask: mask_spec(info.mask), gw: be_u32(info.gateway) }
}

pub fn be_u32_of(b: [u8; 4]) -> (r: u32)
    ensures
        r == be_u32(b@),
{
    ((b[0] as u32) << 24u32) | ((b[1] as u32) << 16u32) | ((b[2] as u32) << 8u32) | (b[3] as u32)
}

pub fn mask_from_width(w: u8) -> (r: u32)
    ensures
        r == mask_spec(w),
{
    if w >= 32 {
        0xFFFF_FFFF
    } else {
        !(0xFFFF_FFFFu32 >> (w as u32))
    }
}

pub fn raw_ip_info(info: &IpInfo) -> (r: RawIpInfo)
    ensures
        r == raw_ip_info_spec(info@),
{
    RawIpInfo { ip: be_u32_of(info.ip), netmask: mask_from_width(info.mask), gw: be_u32_of(info.gateway) }
}

pub fn be_bytes_of(x: u32) -> (r: [u8; 4])
    ensures
        r@ == be_bytes(x),
{
    let r = [(x >> 24u32) as u8, (x >> 16u32) as u8, (x >> 8u32) as u8, x as u8];
    assert(r@ =~= be_bytes(x));
    r
}

/// The number of one bits of `x`.
pub fn count_ones(x: u32) -> (r: u8)
    ensures
        r as nat == popcount(x),
{
    let mut count: u8 = 0;
    let mut i: u32 = 0;
    while i < 32
        invariant
            i <= 32,
            count as nat == ones_below(x, i as nat),
            count <= i,
        decreases 32 - i,
    {
        let bit = (x >> i) & 1;
        if bit == 1 {
            count = count + 1;
        }
        i = i + 1;
    }
    count
}

proof fn lemma_mask_bit(w: u32, i: u32)
    requires
        w < 32,
        i < 32,
    ensures
        ((!(0xFFFF_FFFFu32 >> w)) >> i) & 1 == (if i >= 32 - w { 1u32 } else { 0u32 }),
{
    assert(((!(0xFFFF_FFFFu32 >> w)) >> i) & 1 == (if i >= 32 - w { 1u32 } else { 0u32 }))
        by (bit_vector)
        requires
            w < 32,
            i < 32,
    ;
}

proof fn lemma_ones_below_mask(w: u8, n: nat)
    requires
        w <= 32,
        n <= 32,
    ensures
        ones_below(mask_spec(w), n) == if n + w >= 32 { (n + w - 32) as nat } else { 0nat },
    decreases n,
{
    if n > 0 {
        lemma_ones_below_mask(w, (n - 1) as nat);
        let i = (n - 1) as u32;
        if w == 32 {
            assert((0xFFFF_FFFFu32 >> i) & 1 == 1) by (bit_vector)
                requires
                    i < 32,
            ;
        } else {
            lemma_mask_bit(w as u32, i);
        }
    }
}

/// Every width from 0 to 32 gives a mask with exactly that many one bits.
pub proof fn lemma_mask_popcount(w: u8)
    requires
        w <= 32,
    ensures
        popcount(mask_spec(w)) == w,
{
    lemma_ones_below_mask(w, 32);
}

/// The big-endian bytes of a word read back as that word.
pub proof fn lemma_be_round_trip(x: u32)
    ensures
        be_u32(be_bytes(x)) == x,
{
    let b = be_bytes(x);
    assert(((((x >> 24u32) as u8) as u32) << 24u32) | ((((x >> 16u32) as u8) as u32) << 16u32)
        | ((((x >> 8u32) as u8) as u32) << 8u32) | ((x as u8) as u32) == x) by (bit_vector);
}

/// A width from 0 to 32, written as mask bytes and read back by counting bits, is recovered.
pub proof fn lemma_mask_width_round_trip(w: u8)
    requires
        w <= 32,
    ensures
        popcount(be_u32(be_bytes(mask_spec(w)))) == w,
{
    lemma_be_round_trip(mask_spec(w));
    lemma_mask_popcount(w);
}

} // verus!
