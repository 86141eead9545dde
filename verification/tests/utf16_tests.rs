use gdi_rs::UTF16String;

fn buffer<const N: usize>(units: &[u16]) -> [u16; N] {
    let mut a = [0u16; N];
    a[..units.len()].copy_from_slice(units);
    a
}

fn wide(s: &str) -> Vec<u16> {
    s.encode_utf16().collect()
}

#[test]
fn to_string_reads_up_to_the_first_nul() {
    let s = UTF16String::<32>(buffer(&wide("Arial")));
    assert_eq!(s.to_string(), "Arial");
    assert_eq!(s.try_to_string(), Some("Arial".to_string()));
}

#[test]
fn to_string_ignores_units_after_the_nul() {
    let mut a = buffer::<32>(&wide("MS Gothic"));
    a[9] = 0;
    a[10] = 'X' as u16;
    a[11] = 'Y' as u16;
    assert_eq!(UTF16String(a).to_string(), "MS Gothic");
}

#[test]
fn to_string_of_an_empty_buffer() {
    assert_eq!(UTF16String([0u16; 32]).to_string(), "");
}

#[test]
fn to_string_without_a_nul_takes_the_whole_buffer() {
    let a = [0x41u16; 4];
    assert_eq!(UTF16String(a).to_string(), "AAAA");
}

#[test]
fn to_string_decodes_non_ascii_and_surrogate_pairs() {
    let s = UTF16String::<32>(buffer(&wide("ＭＳ 明朝")));
    assert_eq!(s.to_string(), "ＭＳ 明朝");
    let s = UTF16String::<8>(buffer(&[0xD83D, 0xDE00, 0x41]));
    assert_eq!(s.to_string(), "\u{1F600}A");
}

#[test]
fn try_to_string_refuses_unpaired_surrogates() {
    assert_eq!(UTF16String::<8>(buffer(&[0x41, 0xD800])).try_to_string(), None);
    assert_eq!(UTF16String::<8>(buffer(&[0xDC00, 0x41])).try_to_string(), None);
    assert_eq!(UTF16String::<8>(buffer(&[0xD800, 0xD800, 0xDC00])).try_to_string(), None);
}

#[test]
fn equal_buffers_compare_equal() {
    let a = UTF16String::<32>(buffer(&wide("Meiryo")));
    let b = UTF16String::<32>(buffer(&wide("Meiryo")));
    let c = UTF16String::<32>(buffer(&wide("Meiryo UI")));
    assert!(a == b);
    assert!(a != c);
}

#[test]
fn to_string_gives_back_nul_free_text() {
    for text in ["", "A", "Segoe UI", "游ゴシック", "\u{1F600}\u{10FFFF}x", "\u{FFFF}\u{E000}"] {
        let units = wide(text);
        assert!(units.len() < 32);
        let s = UTF16String::<32>(buffer(&units));
        assert_eq!(s.to_string(), text);
    }
}
