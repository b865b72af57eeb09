use ai_assistant_client::text::{chars_of, decimal_string, owned_strings};
use ai_assistant_client::wide::{wide, wide_text};

#[test]
fn decimal_numerals() {
    assert_eq!(decimal_string(0), "0");
    assert_eq!(decimal_string(7), "7");
    assert_eq!(decimal_string(10), "10");
    assert_eq!(decimal_string(1234567890), "1234567890");
    assert_eq!(decimal_string(usize::MAX), usize::MAX.to_string());
}

#[test]
fn decimal_reads_back() {
    for n in [0usize, 9, 10, 99, 100, 65535, 8192] {
        assert_eq!(decimal_string(n).parse::<usize>().unwrap(), n);
    }
}

#[test]
fn chars_and_owned_strings() {
    assert_eq!(chars_of("aé😀"), vec!['a', 'é', '😀']);
    assert_eq!(owned_strings(vec!["a", "", "b"]), vec!["a".to_string(), String::new(), "b".to_string()]);
}

#[test]
fn wide_text_is_utf16_with_terminator() {
    assert_eq!(wide_text(""), vec![0u16]);
    assert_eq!(wide_text("AI"), vec![65u16, 73, 0]);
    assert_eq!(wide_text("é"), vec![0xE9u16, 0]);
    assert_eq!(wide_text("😀"), vec![0xD83Du16, 0xDE00, 0]);
    let s = "Install path:\r\nC:\\Users\\x · 黑";
    let mut expected: Vec<u16> = s.encode_utf16().collect();
    expected.push(0);
    assert_eq!(wide_text(s), expected);
}

#[test]
fn wide_text_round_trips() {
    let s = "a😀b\u{10FFFF}\u{E000}";
    let w = wide_text(s);
    assert_eq!(w.last(), Some(&0u16));
    assert_eq!(String::from_utf16(&w[..w.len() - 1]).unwrap(), s);
    assert!(w[..w.len() - 1].iter().all(|&u| u != 0));
}

#[test]
fn wide_path_matches_wide_text() {
    let p = "C:\\Users\\me\\AppData\\Local\\Programs\\AI-Assistant-Client\\AI-Assistant-Client.exe";
    let units: Vec<u16> = p.encode_utf16().collect();
    assert_eq!(wide(&units), wide_text(p));
}

#[test]
fn nul_in_text_gives_zero_unit() {
    let w = wide_text("a\0b");
    assert_eq!(w, vec![97u16, 0, 98, 0]);
    assert_eq!(w.iter().filter(|&&u| u == 0).count(), 2);
}

#[test]
fn wide_passes_path_units_through() {
    assert_eq!(wide(&[]), vec![0u16]);
    // an unpaired surrogate, possible in a Windows path, is kept as it is
    assert_eq!(wide(&[0x43, 0xD800, 0x61]), vec![0x43u16, 0xD800, 0x61, 0]);
}
