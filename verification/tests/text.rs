use botbox::ssh::wire::{copied, length_bytes, same_bytes};
use botbox::text::{comes_before, decimal_text, joined, same_text, trim, white_space};

#[test]
fn white_space_is_what_the_standard_library_takes_it_for() {
    for n in 0..=0x10ffffu32 {
        if let Some(c) = char::from_u32(n) {
            assert_eq!(white_space(c), c.is_whitespace(), "U+{n:04X}");
        }
    }
}

#[test]
fn trimming_is_what_the_standard_library_does() {
    for s in [
        "",
        " ",
        "a",
        "  a",
        "a  ",
        " a b ",
        "\t\n\u{3000}x\u{2028}y\u{a0}",
        "\u{200b}z",
    ] {
        assert_eq!(trim(s), s.trim());
        assert_eq!(trim(&trim(s)), trim(s));
    }
}

#[test]
fn numbers_are_rendered_in_decimal() {
    for n in [0u64, 7, 10, 99, 100, 9119, 65535, u64::MAX] {
        assert_eq!(decimal_text(n), n.to_string());
    }
}

#[test]
fn text_order_is_the_order_of_strings() {
    let all = ["", "a", "aa", "b", "B", "\u{e9}", "z", "\u{1F916}", "10.0.0.5", "10.0.0.50"];
    for a in all {
        for b in all {
            assert_eq!(comes_before(a, b), a < b, "{a:?} {b:?}");
            assert_eq!(same_text(a, b), a == b);
        }
    }
}

#[test]
fn texts_are_joined() {
    assert_eq!(joined("ab", "\u{e9}c"), "ab\u{e9}c");
}

#[test]
fn lengths_are_big_endian() {
    assert_eq!(length_bytes(83), vec![0, 0, 0, 83]);
    assert_eq!(length_bytes(0x0102_0304), vec![1, 2, 3, 4]);
    assert_eq!(length_bytes(0xffff_ffff), vec![255, 255, 255, 255]);
}

#[test]
fn bytes_are_copied_and_compared() {
    assert_eq!(copied(&[1, 2, 3]), vec![1, 2, 3]);
    assert!(same_bytes(&[1, 2], &[1, 2]));
    assert!(!same_bytes(&[1, 2], &[1, 3]));
    assert!(!same_bytes(&[1, 2], &[1, 2, 3]));
}
