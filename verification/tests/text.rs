use signet::text::join;
use signet::text::same;
use signet::text::starts_with;
use signet::text::to_hex;

#[test]
fn hex_is_lowercase_two_digits_per_byte() {
    assert_eq!(to_hex(&[]), "");
    assert_eq!(to_hex(&[0]), "00");
    assert_eq!(to_hex(&[1, 2, 3, 15, 16]), "0102030f10");
    assert_eq!(to_hex(&[0xde, 0xad, 0xbe, 0xef]), "deadbeef");
    assert_eq!(to_hex(&[0x0a, 0xa0, 0xff, 0x7f, 0x80]), "0aa0ff7f80");
    assert_eq!(to_hex(b"Hello world!"), "48656c6c6f20776f726c6421");
}

#[test]
fn hex_of_thirty_two_bytes_is_sixty_four_digits() {
    let bytes: Vec<u8> = (0u8..32).map(|n| n.wrapping_mul(37)).collect();
    let text = to_hex(&bytes);
    assert_eq!(text.len(), 64);
    assert!(text.chars().all(|c| matches!(c, '0'..='9' | 'a'..='f')));
    assert_eq!(&text[..8], "00254a6f");
}

#[test]
fn starts_with_compares_from_the_beginning() {
    assert!(starts_with("abcdef", ""));
    assert!(starts_with("abcdef", "abc"));
    assert!(starts_with("abcdef", "abcdef"));
    assert!(!starts_with("abcdef", "abcdefg"));
    assert!(!starts_with("abcdef", "bcd"));
    assert!(!starts_with("abcdef", "Abc"));
    assert!(starts_with("", ""));
    assert!(!starts_with("", "a"));
    assert!(starts_with("\u{e9}t\u{e9}", "\u{e9}"));
}

#[test]
fn same_is_equality_of_texts() {
    assert!(same("", ""));
    assert!(same("default", "default"));
    assert!(!same("default", "defaul"));
    assert!(!same("defaul", "default"));
    assert!(!same("default", "Default"));
}

#[test]
fn join_puts_one_separator_between_root_and_rest() {
    assert_eq!(join("vault", "signet.yml"), "vault/signet.yml");
    assert_eq!(join("vault/", "signet.yml"), "vault/signet.yml");
    assert_eq!(join("/", "signet.yml"), "/signet.yml");
    assert_eq!(join("", "signet.yml"), "signet.yml");
    assert_eq!(join("/home/me/.config/signet", "chains/default.yml"), "/home/me/.config/signet/chains/default.yml");
    assert_eq!(join("vault", ""), "vault/");
}
