use vstd::prelude::*;

verus! {

pub open spec fn is_cont(x: u8) -> bool {
    0x80 <= x <= 0xBF
}

/// The width of the well-formed UTF-8 sequence that starts at `i` of `s`, or 0 where none does
/// (overlong forms, surrogates and code points above U+10FFFF are not well-formed).
pub open spec fn utf8_width(s: Seq<u8>, i: int) -> int {
    let n = s.len() - i;
    let b0 = s[i];
    if b0 < 0x80 {
        1
    } else if 0xC2 <= b0 <= 0xDF {
        if n >= 2 && is_cont(s[i + 1]) { 2 } else { 0 }
    } else if 0xE0 <= b0 <= 0xEF {
        let lo: u8 = if b0 == 0xE0 { 0xA0 } else { 0x80 };
        let hi: u8 = if b0 == 0xED { 0x9F } else { 0xBF };
        if n >= 3 && lo <= s[i + 1] <= hi && is_cont(s[i + 2]) { 3 } else { 0 }
    } else if 0xF0 <= b0 <= 0xF4 {
        let lo: u8 = if b0 == 0xF0 { 0x90 } else { 0x80 };
        let hi: u8 = if b0 == 0xF4 { 0x8F } else { 0xBF };
        if n >= 4 && lo <= s[i + 1] <= hi && is_cont(s[i + 2]) && is_cont(s[i + 3]) { 4 } else { 0 }
    } else {
        0
    }
}

/// Whether `s` from position `i` on is a sequence of well-formed UTF-8 characters.
pub open spec fn utf8_from(s: Seq<u8>, i: int) -> bool
    decreases s.len() - i,
{
    if i < 0 || i >= s.len() {
        true
    } else {
        let w = utf8_width(s, i);
        w > 0 && utf8_from(s, i + w)
    }
}

/// Whether `s` is well-formed UTF-8.
#[verifier::opaque]
pub open spec fn is_utf8(s: Seq<u8>) -> bool {
    utf8_from(s, 0)
}

fn width_at(s: &[u8], i: usize) -> (r: usize)
    requires
        i < s@.len(),
    ensures
        r as int == utf8_width(s@, i as int),
{
    let n = s.len() - i;
    let b0 = s[i];
    if b0 < 0x80 {
        1
    } else if 0xC2 <= b0 && b0 <= 0xDF {
        if n >= 2 && 0x80 <= s[i + 1] && s[i + 1] <= 0xBF { 2 } else { 0 }
    } else if 0xE0 <= b0 && b0 <= 0xEF {
        let lo: u8 = if b0 == 0xE0 { 0xA0 } else { 0x80 };
        let hi: u8 = if b0 == 0xED { 0x9F } else { 0xBF };
        if n >= 3 && lo <= s[i + 1] && s[i + 1] <= hi && 0x80 <= s[i + 2] && s[i + 2] <= 0xBF {
            3
        } else {
            0
        }
    } else if 0xF0 <= b0 && b0 <= 0xF4 {
        let lo: u8 = if b0 == 0xF0 { 0x90 } else { 0x80 };
        let hi: u8 = if b0 == 0xF4 { 0x8F } else { 0xBF };
        if n >= 4 && lo <= s[i + 1] && s[i + 1] <= hi && 0x80 <= s[i + 2] && s[i + 2] <= 0xBF
            && 0x80 <= s[i + 3] && s[i + 3] <= 0xBF {
            4
        } else {
            0
        }
    } else {
        0
    }
}

/// Whether `s` is well-formed UTF-8.
pub fn check_utf8(s: &[u8]) -> (r: bool)
    ensures
        r == is_utf8(s@),
{
    proof {
        reveal(is_utf8);
    }
    let mut i: usize = 0;
    while i < s.len()
        invariant
            i <= s@.len(),
            utf8_from(s@, i as int) == is_utf8(s@),
        decreases s@.len() - i,
    {
        let w = width_at(s, i);
        if w == 0 {
            return false;
        }
        i = i + w;
    }
    true
}

} // verus!
