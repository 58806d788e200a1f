use extras::wide::to_wstr;

#[test]
fn empty_string_is_just_the_terminator() {
    assert_eq!(to_wstr(""), vec![0u16]);
}

#[test]
fn ascii_is_one_unit_per_character() {
    assert_eq!(to_wstr("Hello"), vec![72u16, 101, 108, 108, 111, 0]);
}

#[test]
fn basic_multilingual_plane_is_one_unit() {
    assert_eq!(to_wstr("é€"), vec![0x00E9u16, 0x20AC, 0]);
}

#[test]
fn supplementary_characters_are_surrogate_pairs() {
    assert_eq!(to_wstr("😀"), vec![0xD83Du16, 0xDE00, 0]);
    assert_eq!(to_wstr("\u{10FFFF}"), vec![0xDBFFu16, 0xDFFF, 0]);
    assert_eq!(to_wstr("\u{10000}"), vec![0xD800u16, 0xDC00, 0]);
}

#[test]
fn agrees_with_std_utf16_and_decodes_back() {
    let s = "Petzold: Programming Windows — 𝔚𝔦𝔫𝔡𝔬𝔴𝔰 ✓";
    let w = to_wstr(s);
    let mut expected: Vec<u16> = s.encode_utf16().collect();
    expected.push(0);
    assert_eq!(w, expected);
    assert_eq!(String::from_utf16(&w[..w.len() - 1]).unwrap(), s);
}

#[test]
fn no_interior_nul_without_nul_characters() {
    let w = to_wstr("abc😀def");
    assert_eq!(w.last(), Some(&0));
    assert!(w[..w.len() - 1].iter().all(|&u| u != 0));
}

#[test]
fn a_nul_character_stays_in_place() {
    assert_eq!(to_wstr("a\0b"), vec![97u16, 0, 98, 0]);
}
