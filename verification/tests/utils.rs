use lib_auth::utils::b64::{b64u_encode, B64U_DIGITS};
use lib_auth::utils::email::{is_valid_email, plain};

#[test]
fn addresses_that_are_valid() {
    for email in [
        "a@b.c",
        "admin01@email.com",
        "jane.doe@example.com",
        "jane+tag@mail.example.co.uk",
        ".@x.y",
        "a@b..c",
        "a@.b.c",
        "a@b.c.",
        "a@b...",
        "#$%&'*+-/=?^_`{|}~@[1.2.3.4]",
        "ü@ö.de",
        "名前@例え.jp",
    ] {
        assert!(is_valid_email(email), "{email:?}");
    }
}

#[test]
fn addresses_that_are_not() {
    for email in [
        "",
        "a",
        "@",
        ".",
        "a@",
        "@b.c",
        "a@b",
        "a@.",
        "a@.c",
        "a@b.",
        "a@..",
        "ab.c",
        "a.b@c",
        "a@b@c.d",
        "a@@b.c",
        "a@b.c@",
        "a b@c.d",
        " a@b.c",
        "a@b.c ",
        "a@b .c",
        "a@b.c\n",
        "a\t@b.c",
        "a@b\u{a0}.c",
        "a\u{3000}@b.c",
        "a@b\u{2028}.c",
    ] {
        assert!(!is_valid_email(email), "{email:?}");
    }
}

#[test]
fn plain_characters() {
    for c in ['a', 'Z', '0', '.', '-', '_', '#', 'é', '\0', '\u{200b}'] {
        assert!(plain(c), "{c:?}");
    }
    for c in ['@', ' ', '\t', '\n', '\r', '\u{b}', '\u{c}', '\u{85}', '\u{a0}', '\u{3000}'] {
        assert!(!plain(c), "{c:?}");
    }
}

#[test]
fn base_64_of_bytes() {
    // the test vectors of RFC 4648, without their padding
    assert_eq!(b64u_encode(b""), "");
    assert_eq!(b64u_encode(b"f"), "Zg");
    assert_eq!(b64u_encode(b"fo"), "Zm8");
    assert_eq!(b64u_encode(b"foo"), "Zm9v");
    assert_eq!(b64u_encode(b"foob"), "Zm9vYg");
    assert_eq!(b64u_encode(b"fooba"), "Zm9vYmE");
    assert_eq!(b64u_encode(b"foobar"), "Zm9vYmFy");
}

#[test]
fn base_64_is_safe_in_a_url() {
    assert_eq!(
        B64U_DIGITS,
        "ABCDEFGHIJKLMNOPQRSTUVWXYZabcdefghijklmnopqrstuvwxyz0123456789-_"
    );
    assert_eq!(b64u_encode(&[0xfb, 0xff]), "-_8");
    assert_eq!(b64u_encode(&[0xff, 0xff, 0xff]), "____");
    assert_eq!(b64u_encode(&[0xfb, 0xef, 0xbe]), "----");
    assert_eq!(b64u_encode(&[0x00]), "AA");
    assert_eq!(b64u_encode(&[0x00, 0x00]), "AAA");
    assert_eq!(b64u_encode(&[0x00, 0x00, 0x00]), "AAAA");
    assert_eq!(b64u_encode(&[0x14, 0xfb, 0x9c, 0x03, 0xd9, 0x7e]), "FPucA9l-");
    assert_eq!(b64u_encode(&[0x14, 0xfb, 0x9c, 0x03, 0xd9]), "FPucA9k");
    assert_eq!(b64u_encode(&[0x14, 0xfb, 0x9c, 0x03]), "FPucAw");
}

#[test]
fn base_64_lengths() {
    for n in 0..40usize {
        let bytes = vec![0xa5u8; n];
        let text = b64u_encode(&bytes);
        assert_eq!(text.len(), (4 * n + 2) / 3, "{n}");
        assert!(text.chars().all(|c| B64U_DIGITS.contains(c)));
    }
}
