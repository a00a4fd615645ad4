use cgevent::utf16::{encode_utf16, push_utf16};

#[test]
fn empty_text_has_no_units() {
    assert_eq!(encode_utf16(""), Vec::<u16>::new());
}

#[test]
fn ascii_text_is_one_unit_per_character() {
    assert_eq!(encode_utf16("hi"), vec![0x68, 0x69]);
    assert_eq!(encode_utf16("Z"), vec![0x5A]);
}

#[test]
fn characters_below_the_surrogates_are_their_own_number() {
    assert_eq!(encode_utf16("\u{e9}"), vec![0x00E9]);
    assert_eq!(encode_utf16("\u{20ac}"), vec![0x20AC]);
    assert_eq!(encode_utf16("\u{d7ff}"), vec![0xD7FF]);
    assert_eq!(encode_utf16("\u{e000}"), vec![0xE000]);
    assert_eq!(encode_utf16("\u{ffff}"), vec![0xFFFF]);
}

#[test]
fn characters_from_0x10000_are_a_surrogate_pair() {
    assert_eq!(encode_utf16("\u{10000}"), vec![0xD800, 0xDC00]);
    assert_eq!(encode_utf16("\u{1F600}"), vec![0xD83D, 0xDE00]);
    assert_eq!(encode_utf16("\u{10FFFF}"), vec![0xDBFF, 0xDFFF]);
}

#[test]
fn mixed_text_keeps_the_order() {
    assert_eq!(encode_utf16("a\u{1F600}b"), vec![0x61, 0xD83D, 0xDE00, 0x62]);
}

#[test]
fn encoding_agrees_with_the_standard_library() {
    let samples = [
        "",
        "hello world",
        "na\u{ef}ve caf\u{e9}",
        "\u{65e5}\u{672c}\u{8a9e}",
        "\u{1F600}\u{1F680}\u{10000}\u{10FFFF}",
        "\u{0}\u{7f}\u{80}\u{7ff}\u{800}\u{ffff}",
    ];
    for s in samples {
        let expected: Vec<u16> = s.encode_utf16().collect();
        assert_eq!(encode_utf16(s), expected);
    }
}

#[test]
fn unit_count_is_between_one_and_two_per_character() {
    let s = "a\u{1F600}\u{e9}\u{10000}";
    let units = encode_utf16(s);
    let chars = s.chars().count();
    assert_eq!(units.len(), 6);
    assert!(chars <= units.len() && units.len() <= 2 * chars);
}

#[test]
fn push_appends_to_what_is_there() {
    let mut units: Vec<u16> = vec![1, 2];
    push_utf16(&mut units, 'a');
    assert_eq!(units, vec![1, 2, 0x61]);
    push_utf16(&mut units, '\u{1F600}');
    assert_eq!(units, vec![1, 2, 0x61, 0xD83D, 0xDE00]);
}
