//! Packing two 16-bit words into a 32-bit value and taking them apart again,
//! and the `windowsx.h` crackers for scroll bar messages.

#![allow(non_snake_case)]

use vstd::prelude::*;
use crate::types::{c_int, DWORD, LPARAM, WORD, WPARAM};

verus! {

/// The low-order word of a 32-bit value.
pub open spec fn low_word(v: int) -> int {
    v % 0x10000
}

/// The high-order word of a 32-bit value.
pub open spec fn high_word(v: int) -> int {
    (v / 0x10000) % 0x10000
}

/// The 32-bit value whose low word is `lo` and whose high word is `hi`.
pub open spec fn packed_words(lo: int, hi: int) -> int {
    lo + 0x10000 * hi
}

/// A 32-bit pattern (0 to 2^32 - 1) read as a two's complement `i32`.
pub open spec fn signed_32(v: int) -> int {
    if v < 0x8000_0000 {
        v
    } else {
        v - 0x1_0000_0000
    }
}

/// A 32-bit pattern (0 to 2^32 - 1) zero-extended into a pointer-sized signed
/// value: unchanged where it fits, wrapped where `isize` has 32 bits only.
pub open spec fn dword_to_long_ptr(v: int) -> int {
    if v <= isize::MAX {
        v
    } else {
        v - 0x1_0000_0000
    }
}

/// A pointer-sized signed value read as the unsigned value of the same bits.
pub open spec fn long_ptr_to_uint_ptr(v: int) -> int {
    if v >= 0 {
        v
    } else {
        v + usize::MAX + 1
    }
}

/// The low 32 bits of a pointer-sized unsigned value.
pub open spec fn low_dword(v: int) -> int {
    v % 0x1_0000_0000
}

/// The `LPARAM` that `MAKELPARAM(lo, hi)` yields.
pub open spec fn lparam_of_words(lo: int, hi: int) -> int {
    dword_to_long_ptr(packed_words(lo, hi))
}

/// `LOWORD`: the low-order word of `l`.
pub fn lo_word(l: DWORD) -> (r: WORD)
    ensures
        r == low_word(l as int),
{
    assert(l & 0xffff == l % 0x10000) by (bit_vector);
    (l & 0xffff) as WORD
}

/// `HIWORD`: the high-order word of `l`.
pub fn hi_word(l: DWORD) -> (r: WORD)
    ensures
        r == high_word(l as int),
{
    assert((l >> 16) & 0xffff == (l / 0x10000) % 0x10000) by (bit_vector);
    ((l >> 16) & 0xffff) as WORD
}

/// `MAKELONG`: the 32-bit `LONG` whose low word is `a` and whose high word
/// is `b`.
pub fn make_long(a: WORD, b: WORD) -> (r: i32)
    ensures
        r == signed_32(packed_words(a as int, b as int)),
{
    let v: DWORD = (a as DWORD) | ((b as DWORD) << 16);
    assert((a as u32) | ((b as u32) << 16) == a + 0x10000 * b) by (bit_vector);
    assert(((a + 0x10000 * b) as u32) as i32 == signed_32(a + 0x10000 * b)) by (bit_vector);
    v as i32
}

/// `MAKELPARAM`: an `LPARAM` whose low word is `l` and whose high word is
/// `h`. The packed 32 bits are zero-extended, so on 64-bit Windows the result
/// is never negative.
pub fn MAKELPARAM(l: WORD, h: WORD) -> (r: LPARAM)
    ensures
        r == lparam_of_words(l as int, h as int),
{
    let long = make_long(l, h);
    let d: DWORD = long as DWORD;
    assert(long as u32 == l + 0x10000 * h) by (bit_vector)
        requires
            long == signed_32(l + 0x10000 * h),
    ;
    proof {
        if usize::BITS == 64 {
            assert(d as isize == d as int) by (bit_vector)
                requires
                    usize::BITS == 64,
            ;
        } else {
            assert(d as isize == (if d < 0x8000_0000 { d as int } else { d - 0x1_0000_0000 }))
                by (bit_vector)
                requires
                    usize::BITS == 32,
            ;
        }
    }
    d as LPARAM
}

/// The low 32 bits of a `WPARAM`, as `wp as DWORD` gives them.
fn wparam_low_dword(wp: WPARAM) -> (r: DWORD)
    ensures
        r == low_dword(wp as int),
{
    let ghost w: u64 = wp as u64;
    assert(w == wp) by (bit_vector)
        requires
            w == wp as u64,
    ;
    assert(wp as u32 == w % 0x1_0000_0000) by (bit_vector)
        requires
            w == wp as u64,
    ;
    wp as DWORD
}

/// `GET_WM_HSCROLL_CODE`: the scroll bar request of a `WM_HSCROLL` message,
/// held in the low word of `wp`.
pub fn GET_WM_HSCROLL_CODE(wp: WPARAM, _lp: LPARAM) -> (r: c_int)
    ensures
        r == low_word(low_dword(wp as int)),
{
    lo_word(wparam_low_dword(wp)) as c_int
}

/// `GET_WM_HSCROLL_POS`: the thumb position of a `WM_HSCROLL` message, held
/// in the high word of `wp`. Only 16 bits of position fit there; newer code
/// asks the scroll bar with `GetScrollInfo` instead.
pub fn GET_WM_HSCROLL_POS(wp: WPARAM, _lp: LPARAM) -> (r: c_int)
    ensures
        r == high_word(low_dword(wp as int)),
{
    hi_word(wparam_low_dword(wp)) as c_int
}

/// `GET_WM_VSCROLL_CODE`: the scroll bar request of a `WM_VSCROLL` message,
/// held in the low word of `wp`.
pub fn GET_WM_VSCROLL_CODE(wp: WPARAM, _lp: LPARAM) -> (r: c_int)
    ensures
        r == low_word(low_dword(wp as int)),
{
    lo_word(wparam_low_dword(wp)) as c_int
}

/// `GET_WM_VSCROLL_POS`: the thumb position of a `WM_VSCROLL` message, held
/// in the high word of `wp`. Only 16 bits of position fit there; newer code
/// asks the scroll bar with `GetScrollInfo` instead.
pub fn GET_WM_VSCROLL_POS(wp: WPARAM, _lp: LPARAM) -> (r: c_int)
    ensures
        r == high_word(low_dword(wp as int)),
{
    hi_word(wparam_low_dword(wp)) as c_int
}

/// Two words packed into 32 bits come apart again as the same two words.
pub proof fn lemma_words_round_trip(lo: WORD, hi: WORD)
    ensures
        0 <= packed_words(lo as int, hi as int) < 0x1_0000_0000,
        low_word(packed_words(lo as int, hi as int)) == lo,
        high_word(packed_words(lo as int, hi as int)) == hi,
{
}

/// `MAKELPARAM` zero-extends: on 64-bit Windows its result is the packed
/// 32-bit value itself and never negative.
pub proof fn lemma_lparam_of_words_64(lo: WORD, hi: WORD)
    requires
        usize::BITS == 64,
    ensures
        lparam_of_words(lo as int, hi as int) == packed_words(lo as int, hi as int),
        0 <= lparam_of_words(lo as int, hi as int) < 0x1_0000_0000,
{
}

/// A message parameter built with `MAKELPARAM(lo, hi)` and passed on as a
/// `WPARAM` cracks back into `lo` (the code) and `hi` (the position), on
/// 32-bit and 64-bit Windows alike.
pub proof fn lemma_scroll_params_round_trip(lo: WORD, hi: WORD)
    ensures
        low_word(low_dword(long_ptr_to_uint_ptr(lparam_of_words(lo as int, hi as int)))) == lo,
        high_word(low_dword(long_ptr_to_uint_ptr(lparam_of_words(lo as int, hi as int)))) == hi,
{
    lemma_words_round_trip(lo, hi);
    let p = packed_words(lo as int, hi as int);
    assert(low_dword(long_ptr_to_uint_ptr(lparam_of_words(lo as int, hi as int))) == p);
}

/// How two words travel in an `LPARAM`: `lo` in the low word and `hi` in the
/// high word of its low 32 bits, the value being `lo + 65536 * hi` itself
/// wherever `isize` has 64 bits.
pub open spec fn carries_words(l: int, lo: int, hi: int) -> bool {
    &&& isize::MIN <= l <= isize::MAX
    &&& l % 0x1_0000_0000 == lo + 0x10000 * hi
    &&& (usize::BITS == 64 ==> l == lo + 0x10000 * hi)
}

/// `LOWORD` and `HIWORD` split a 32-bit value into two 16-bit words, the
/// value being the low word plus 65536 times the high word.
pub proof fn lemma_word_split(v: int)
    requires
        0 <= v < 0x1_0000_0000,
    ensures
        0 <= low_word(v) < 0x10000,
        0 <= high_word(v) < 0x10000,
        low_word(v) + 0x10000 * high_word(v) == v,
{
}

/// `MAKELONG(a, b)` is the `LONG` whose bits are `a + 65536 * b`: equal to it
/// modulo 2^32 and within the range of `i32`.
pub proof fn lemma_make_long(a: WORD, b: WORD)
    ensures
        i32::MIN <= signed_32(packed_words(a as int, b as int)) <= i32::MAX,
        signed_32(packed_words(a as int, b as int)) % 0x1_0000_0000 == a + 0x10000 * b,
{
}

/// `MAKELPARAM(l, h)` carries `l` in the low word and `h` in the high word.
pub proof fn lemma_makelparam(l: WORD, h: WORD)
    ensures
        carries_words(lparam_of_words(l as int, h as int), l as int, h as int),
{
}

/// The scroll crackers split the low 32 bits of `wp` into the code (low word)
/// and the position (high word): `code + 65536 * pos` is `wp` modulo 2^32.
pub proof fn lemma_scroll_cracking(wp: WPARAM)
    ensures
        0 <= low_word(low_dword(wp as int)) < 0x10000,
        0 <= high_word(low_dword(wp as int)) < 0x10000,
        low_word(low_dword(wp as int)) + 0x10000 * high_word(low_dword(wp as int))
            == wp as int % 0x1_0000_0000,
{
    lemma_word_split(low_dword(wp as int));
}

} // verus!
