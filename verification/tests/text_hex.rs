use alkahest::hex::hex_encode_prefixed;
use alkahest::text::{replace_all, strip_0x_prefixes, trim};

#[test]
fn trim_matches_std() {
    for s in ["  abc  ", "\t\n x \u{a0}", "", "   ", "\u{3000}y\u{2028}", "no-space"] {
        assert_eq!(trim(s), s.trim());
    }
}

#[test]
fn strip_0x_prefixes_matches_std() {
    for s in ["0x0xab", "0xab", "ab", "0X12", "0x", "0x0"] {
        assert_eq!(strip_0x_prefixes(s), s.trim_start_matches("0x"));
    }
}

#[test]
fn replace_all_matches_std() {
    let cases = [
        ("a{digest}b{digest}", "{digest}", "X"),
        ("{digest}{digest}", "{digest}", "0x12"),
        ("no token", "{digest}", "X"),
        ("aaa", "aa", "b"),
        ("é{t}é", "{t}", "ü"),
        ("abc", "", "X"),
        ("", "", "X"),
        ("éa", "", ""),
    ];
    for (s, pat, rep) in cases {
        assert_eq!(replace_all(s, pat, rep), s.replace(pat, rep));
    }
}

#[test]
fn hex_encode_prefixed_is_lowercase() {
    assert_eq!(hex_encode_prefixed(&[0x00, 0xab, 0x10]), "0x00ab10");
    assert_eq!(hex_encode_prefixed(&[0xff]), "0xff");
    assert_eq!(hex_encode_prefixed(&[]), "0x");
}
