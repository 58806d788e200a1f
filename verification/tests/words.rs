use extras::types::WPARAM;
use extras::window::{SB_LINEDOWN, SB_THUMBTRACK};
use extras::words::{
    hi_word, lo_word, make_long, GET_WM_HSCROLL_CODE, GET_WM_HSCROLL_POS, GET_WM_VSCROLL_CODE,
    GET_WM_VSCROLL_POS, MAKELPARAM,
};

#[test]
fn lo_and_hi_word_split_a_dword() {
    assert_eq!(lo_word(0x1234_5678), 0x5678);
    assert_eq!(hi_word(0x1234_5678), 0x1234);
    assert_eq!(lo_word(0), 0);
    assert_eq!(hi_word(0xFFFF_FFFF), 0xFFFF);
}

#[test]
fn make_long_packs_and_may_be_negative() {
    assert_eq!(make_long(0x5678, 0x1234), 0x1234_5678);
    assert_eq!(make_long(0xFFFF, 0xFFFF), -1);
    assert_eq!(make_long(0, 0x8000), i32::MIN);
}

#[test]
fn makelparam_packs_low_then_high() {
    assert_eq!(MAKELPARAM(3, 5), 0x0005_0003);
    assert_eq!(MAKELPARAM(0, 0), 0);
}

#[test]
fn makelparam_zero_extends_on_64_bit() {
    // The packed bits 0xFFFFFFFF stay a positive LPARAM where isize has 64 bits.
    if isize::BITS == 64 {
        assert_eq!(MAKELPARAM(0xFFFF, 0xFFFF), 0xFFFF_FFFF);
        assert!(MAKELPARAM(0, 0x8000) > 0);
    } else {
        assert_eq!(MAKELPARAM(0xFFFF, 0xFFFF), -1);
    }
}

#[test]
fn words_round_trip() {
    for &(lo, hi) in &[(0u16, 0u16), (1, 2), (0xFFFF, 0), (0, 0xFFFF), (0xABCD, 0x1234)] {
        let packed = make_long(lo, hi) as u32;
        assert_eq!(lo_word(packed), lo);
        assert_eq!(hi_word(packed), hi);
    }
}

#[test]
fn scroll_crackers_read_code_and_position() {
    let wp = MAKELPARAM(SB_THUMBTRACK as u16, 120) as WPARAM;
    assert_eq!(GET_WM_HSCROLL_CODE(wp, 0), SB_THUMBTRACK);
    assert_eq!(GET_WM_HSCROLL_POS(wp, 0), 120);
    assert_eq!(GET_WM_VSCROLL_CODE(wp, 99), SB_THUMBTRACK);
    assert_eq!(GET_WM_VSCROLL_POS(wp, -1), 120);
}

#[test]
fn scroll_crackers_round_trip_every_high_word() {
    for &(code, pos) in &[(0u16, 0u16), (SB_LINEDOWN as u16, 0xFFFF), (0xFFFF, 0x8000), (7, 1)] {
        let wp = MAKELPARAM(code, pos) as WPARAM;
        assert_eq!(GET_WM_HSCROLL_CODE(wp, 0), code as i32);
        assert_eq!(GET_WM_HSCROLL_POS(wp, 0), pos as i32);
        assert_eq!(GET_WM_VSCROLL_CODE(wp, 0), code as i32);
        assert_eq!(GET_WM_VSCROLL_POS(wp, 0), pos as i32);
    }
}

#[test]
fn scroll_crackers_ignore_bits_above_32() {
    if usize::BITS == 64 {
        let wp: WPARAM = (0xDEAD_BEEF_u64 << 32) as WPARAM | 0x0002_0001;
        assert_eq!(GET_WM_HSCROLL_CODE(wp, 0), 1);
        assert_eq!(GET_WM_HSCROLL_POS(wp, 0), 2);
    }
}
