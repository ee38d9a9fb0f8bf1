use webview2_callback::wide::{string_from_utf16, text_len, WideString, REPLACEMENT};

fn terminated(text: &str) -> Vec<u16> {
    let mut units: Vec<u16> = text.encode_utf16().collect();
    units.push(0);
    units
}

#[test]
fn terminated_text_is_decoded() {
    let raw = WideString::from_units(vec![0x64, 0x6F, 0x6E, 0x65, 0]);
    assert_eq!(raw.into_string(), "done");
}

#[test]
fn null_is_the_empty_text() {
    let raw = WideString::null();
    assert!(raw.is_null());
    assert_eq!(raw.into_string(), "");
}

#[test]
fn empty_buffer_is_the_empty_text() {
    let raw = WideString::from_units(Vec::new());
    assert!(!raw.is_null());
    assert_eq!(raw.into_string(), "");
}

#[test]
fn lone_terminator_is_the_empty_text() {
    assert_eq!(WideString::from_units(vec![0]).into_string(), "");
}

#[test]
fn text_stops_at_the_first_terminator() {
    let raw = WideString::from_units(vec![0x61, 0x62, 0, 0x63, 0x64, 0]);
    assert_eq!(raw.into_string(), "ab");
}

#[test]
fn buffer_without_terminator_is_text_to_its_end() {
    let raw = WideString::from_units(vec![0x61, 0x62, 0x63]);
    assert_eq!(raw.into_string(), "abc");
}

#[test]
fn text_len_counts_the_units_before_the_terminator() {
    assert_eq!(text_len(&[]), 0);
    assert_eq!(text_len(&[0]), 0);
    assert_eq!(text_len(&[0x61, 0x62, 0, 0x63]), 2);
    assert_eq!(text_len(&[0x61, 0x62, 0x63]), 3);
    assert_eq!(text_len(&[0xD834, 0xDD1E, 0]), 2);
}

#[test]
fn surrogate_pair_is_one_character() {
    assert_eq!(string_from_utf16(&[0xD834, 0xDD1E]), "\u{1D11E}");
    assert_eq!(string_from_utf16(&[0xD800, 0xDC00]), "\u{10000}");
    assert_eq!(string_from_utf16(&[0xDBFF, 0xDFFF]), "\u{10FFFF}");
    assert_eq!(string_from_utf16(&[0x61, 0xD83D, 0xDE00, 0x62]), "a\u{1F600}b");
}

#[test]
fn units_next_to_the_surrogates_are_characters() {
    assert_eq!(string_from_utf16(&[0xD7FF]), "\u{D7FF}");
    assert_eq!(string_from_utf16(&[0xE000]), "\u{E000}");
    assert_eq!(string_from_utf16(&[0xFFFF]), "\u{FFFF}");
}

#[test]
fn lone_surrogates_become_the_replacement() {
    let replaced: String = REPLACEMENT.to_string();
    assert_eq!(REPLACEMENT, '\u{FFFD}');
    assert_eq!(string_from_utf16(&[0xD800]), replaced);
    assert_eq!(string_from_utf16(&[0xDC00]), replaced);
    assert_eq!(string_from_utf16(&[0xDFFF]), replaced);
    assert_eq!(string_from_utf16(&[0xD834, 0x61]), "\u{FFFD}a");
    assert_eq!(string_from_utf16(&[0xDD1E, 0xD834]), "\u{FFFD}\u{FFFD}");
    assert_eq!(string_from_utf16(&[0xD834, 0xD834, 0xDD1E]), "\u{FFFD}\u{1D11E}");
    assert_eq!(string_from_utf16(&[0x61, 0xD800]), "a\u{FFFD}");
}

#[test]
fn high_surrogate_before_the_terminator_is_replaced() {
    let raw = WideString::from_units(vec![0x61, 0xD834, 0, 0xDD1E]);
    assert_eq!(raw.into_string(), "a\u{FFFD}");
}

#[test]
fn decoding_agrees_with_the_standard_lossy_decoding() {
    let samples: [&[u16]; 10] = [
        &[],
        &[0x68, 0x69],
        &[0xD834, 0xDD1E, 0x006D, 0x0075, 0xD800, 0x0069, 0x0063],
        &[0xD800, 0xD800, 0xDC00, 0xDC00],
        &[0xDBFF, 0xDBFF, 0xDFFF],
        &[0xDC00, 0x0041, 0xD800],
        &[0xFFFD, 0xFFFE, 0xFFFF],
        &[0x0001, 0x007F, 0x0080, 0x07FF, 0x0800],
        &[0x3042, 0x3044, 0x3046],
        &[0xD83D, 0xDE00, 0xD83D, 0xDE01, 0xD83D],
    ];
    for units in samples {
        assert_eq!(string_from_utf16(units), String::from_utf16_lossy(units));
    }
}

#[test]
fn every_single_unit_agrees_with_the_standard_lossy_decoding() {
    let mut unit: u16 = 0;
    loop {
        assert_eq!(string_from_utf16(&[unit]), String::from_utf16_lossy(&[unit]));
        if unit == u16::MAX {
            break;
        }
        unit += 1;
    }
}

#[test]
fn encoded_text_comes_back() {
    let texts: [&str; 7] = [
        "",
        "done",
        "h\u{E9}llo w\u{F6}rld",
        "\u{65E5}\u{672C}\u{8A9E}",
        "\u{1D11E} music \u{1F600}",
        "{\"key\": [1, 2, 3]}",
        "\u{FFFD}\u{10FFFF}\u{1}",
    ];
    for text in texts {
        assert_eq!(WideString::from_units(terminated(text)).into_string(), text);
        let unterminated: Vec<u16> = text.encode_utf16().collect();
        assert_eq!(WideString::from_units(unterminated).into_string(), text);
        let mut followed: Vec<u16> = terminated(text);
        followed.extend_from_slice(&[0x41, 0xD800, 0, 0x42]);
        assert_eq!(WideString::from_units(followed).into_string(), text);
    }
}

#[test]
fn text_with_a_nul_character_is_cut_there() {
    let raw = WideString::from_units(terminated("a\0b"));
    assert_eq!(raw.into_string(), "a");
}
