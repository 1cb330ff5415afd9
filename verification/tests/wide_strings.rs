use rustclr::wide::{decode_utf16_z, encode_utf16_z, str_ends_with, str_eq, WinStr};

#[test]
fn encodes_ascii_with_terminator() {
    assert_eq!(encode_utf16_z("ab"), vec![0x61, 0x62, 0]);
    assert_eq!(encode_utf16_z(""), vec![0]);
}

#[test]
fn encodes_supplementary_characters_as_surrogate_pairs() {
    assert_eq!(encode_utf16_z("\u{1F600}"), vec![0xD83D, 0xDE00, 0]);
}

#[test]
fn to_bstr_matches_encoder() {
    assert_eq!("ok".to_bstr(), vec![0x6F, 0x6B, 0]);
    assert_eq!(String::from("ok").to_bstr(), vec![0x6F, 0x6B, 0]);
}

#[test]
fn decodes_until_first_zero_unit() {
    assert_eq!(decode_utf16_z(&[0x48, 0x00, 0x49]), String::from("H"));
    assert_eq!(decode_utf16_z(&[]), String::new());
    assert_eq!(decode_utf16_z(&[0x00]), String::new());
}

#[test]
fn decodes_surrogate_pairs() {
    assert_eq!(
        decode_utf16_z(&[0xD83D, 0xDE00, 0x21, 0x00]),
        String::from("\u{1F600}!")
    );
}

#[test]
fn replaces_lone_surrogates() {
    assert_eq!(
        decode_utf16_z(&[0xD83D, 0x41, 0x00]),
        String::from("\u{FFFD}A")
    );
    assert_eq!(decode_utf16_z(&[0xDE00, 0x00]), String::from("\u{FFFD}"));
}

#[test]
fn round_trips_through_both_directions() {
    let text = "hosted \u{1F600} runtime";
    let mut units = encode_utf16_z(text);
    units.push(0x7A); // text past the terminator is not part of the string
    assert_eq!(decode_utf16_z(&units), String::from(text));
}

#[test]
fn suffix_tests() {
    assert!(str_ends_with("Void Main()", "Main()"));
    assert!(str_ends_with("Main()", "Main()"));
    assert!(!str_ends_with("Void Main(System.String[])", "Main()"));
    assert!(!str_ends_with("in()", "Main()"));
    assert!(str_ends_with("anything", ""));
}

#[test]
fn equality_tests() {
    assert!(str_eq("Void Run()", "Void Run()"));
    assert!(!str_eq("Void Run()", "Void Run(Int32)"));
    assert!(!str_eq("a", "b"));
    assert!(str_eq("", ""));
}
