use spotic::auth::request_target;
use spotic::text::{contains, decimal, parse_u8};

#[test]
fn substring_search_matches_std() {
    let cases = [
        ("hello world", "lo w"),
        ("hello", ""),
        ("", ""),
        ("", "a"),
        ("abc", "abcd"),
        ("aaab", "aab"),
        ("ünï", "nï"),
        ("desk", "Desk"),
    ];
    for (hay, needle) in cases {
        assert_eq!(contains(hay, needle), hay.contains(needle), "{:?} in {:?}", needle, hay);
    }
}

#[test]
fn decimal_matches_std() {
    for n in [0u32, 7, 10, 99, 8080, 65535, u32::MAX] {
        assert_eq!(decimal(n), n.to_string());
    }
}

#[test]
fn request_target_matches_std_split() {
    let cases = [
        "GET /callback?code=1 HTTP/1.1\r\nHost: x",
        "GET\t/a\u{3000}b",
        "GET\u{a0}/b c",
        "  one   two three",
        "one\ntwo three",
        "\n",
        "single",
        "",
    ];
    for req in cases {
        let expected = req
            .lines()
            .next()
            .and_then(|line| line.split_whitespace().nth(1))
            .map(|s| s.to_string());
        assert_eq!(request_target(req), expected, "{:?}", req);
    }
}

#[test]
fn byte_parsing_rejects_signs_alone() {
    assert_eq!(parse_u8("+"), None);
    assert_eq!(parse_u8("-"), None);
    assert_eq!(parse_u8("+0"), Some(0));
}
