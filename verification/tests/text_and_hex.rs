use uat::hex::{hex_encode_lower, hex_lower_padded};
use uat::text::{chars_of, concat3, replace_every, text_eq};

#[test]
fn padded_hex_of_zero_is_all_zeros() {
    assert_eq!(hex_lower_padded(0, 30), "0".repeat(30));
}

#[test]
fn padded_hex_matches_std_formatting() {
    for n in [1u128, 15, 16, 255, 4096, 0xdead_beef, u64::MAX as u128, u128::MAX - 1, u128::MAX] {
        assert_eq!(hex_lower_padded(n, 30), format!("{:030x}", n));
    }
}

#[test]
fn padded_hex_exact_values() {
    assert_eq!(hex_lower_padded(255, 30), "0000000000000000000000000000ff");
    assert_eq!(hex_lower_padded(u128::MAX - 1, 30), "fffffffffffffffffffffffffffffffe");
    assert_eq!(hex_lower_padded(0xabc, 2), "abc");
    assert_eq!(hex_lower_padded(0xabc, 5), "00abc");
}

#[test]
fn hex_of_bytes_two_digits_each() {
    assert_eq!(hex_encode_lower(&[10, 20, 30]), "0a141e");
    assert_eq!(hex_encode_lower(&[]), "");
    assert_eq!(hex_encode_lower(&[0, 255, 16]), "00ff10");
}

#[test]
fn replace_every_occurrence() {
    assert_eq!(replace_every("a{{x}}b{{x}}", "{{x}}", "Y"), "aYbY");
    assert_eq!(replace_every("aaa", "aa", "b"), "ba");
    assert_eq!(replace_every("no match here", "zz", "q"), "no match here");
    assert_eq!(replace_every("", "a", "b"), "");
    assert_eq!(replace_every("ab", "abc", "x"), "ab");
    assert_eq!(replace_every("αβγβ", "β", "δδ"), "αδδγδδ");
}

#[test]
fn replace_every_agrees_with_std() {
    let cases = [
        ("Hello {{username}}, {{username}}!", "{{username}}", "Ann"),
        ("{{token}}{{token}}", "{{token}}", "{{token}}"),
        ("xxxx", "xx", "x"),
        ("请确认您的电邮", "电", "雷"),
    ];
    for (s, p, r) in cases {
        assert_eq!(replace_every(s, p, r), s.replace(p, r));
    }
}

#[test]
fn text_equality_and_concatenation() {
    assert!(text_eq("en", "en"));
    assert!(!text_eq("en", "e"));
    assert!(!text_eq("zh_cn", "zh_hk"));
    assert_eq!(concat3("a", "bc", "d"), "abcd");
    assert_eq!(chars_of("héllo"), vec!['h', 'é', 'l', 'l', 'o']);
}
