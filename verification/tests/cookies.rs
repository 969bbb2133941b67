use http::{
    header::{ACCEPT, COOKIE},
    HeaderMap, HeaderValue,
};
use nexus_vpc::cookies::parse_cookies;

#[test]
fn test_parse_cookies_empty_headers() {
    let headers = HeaderMap::new();
    let cookies = parse_cookies(&headers).unwrap();
    assert_eq!(cookies.iter().count(), 0);
}

#[test]
fn test_parse_cookies_one_cookie() {
    let mut headers = HeaderMap::new();
    headers.insert(COOKIE, "session=abc".parse().unwrap());
    let cookies = parse_cookies(&headers).unwrap();

    assert_eq!(cookies.iter().count(), 1);

    let cookie = cookies.get("session").unwrap();
    assert_eq!(cookie.name(), "session");
    assert_eq!(cookie.value(), "abc");
}

#[test]
fn test_parse_cookies_two_cookies() {
    let mut headers = HeaderMap::new();
    headers.insert(COOKIE, "cookie1=abc; cookie2=def".parse().unwrap());
    let cookies = parse_cookies(&headers).unwrap();

    assert_eq!(cookies.iter().count(), 2);

    let cookie1 = cookies.get("cookie1").unwrap();
    assert_eq!(cookie1.name(), "cookie1");
    assert_eq!(cookie1.value(), "abc");

    let cookie2 = cookies.get("cookie2").unwrap();
    assert_eq!(cookie2.name(), "cookie2");
    assert_eq!(cookie2.value(), "def");
}

#[test]
fn test_parse_cookies_two_cookie_headers() {
    let mut headers = HeaderMap::new();
    headers.insert(COOKIE, "cookie1=abc".parse().unwrap());
    headers.append(COOKIE, "cookie2=def".parse().unwrap());

    let cookies = parse_cookies(&headers).unwrap();

    assert_eq!(cookies.iter().count(), 2);

    let cookie1 = cookies.get("cookie1").unwrap();
    assert_eq!(cookie1.name(), "cookie1");
    assert_eq!(cookie1.value(), "abc");

    let cookie2 = cookies.get("cookie2").unwrap();
    assert_eq!(cookie2.name(), "cookie2");
    assert_eq!(cookie2.value(), "def");
}

#[test]
fn test_parse_cookies_two_cookie_headers_same_name() {
    // when two cookies in two separate cookie headers have the same name,
    // the second one should override the first
    let mut headers = HeaderMap::new();
    headers.insert(COOKIE, "cookie=abc".parse().unwrap());
    headers.append(COOKIE, "cookie=def".parse().unwrap());

    let cookies = parse_cookies(&headers).unwrap();

    assert_eq!(cookies.iter().count(), 1);

    let cookie = cookies.get("cookie").unwrap();
    assert_eq!(cookie.name(), "cookie");
    assert_eq!(cookie.value(), "def");
}

#[test]
fn test_parse_cookies_ignore_other_headers() {
    let mut headers = HeaderMap::new();
    headers.insert(COOKIE, "session=abc".parse().unwrap());
    headers.insert(ACCEPT, "application/json".parse().unwrap());

    let cookies = parse_cookies(&headers).unwrap();

    assert_eq!(cookies.iter().count(), 1);

    let cookie = cookies.get("session").unwrap();
    assert_eq!(cookie.name(), "session");
    assert_eq!(cookie.value(), "abc");
}

#[test]
fn test_parse_cookies_passes_over_what_does_not_parse() {
    let mut headers = HeaderMap::new();
    // Parts without a pair, empty parts, and blanks around the parts.
    headers.insert(COOKIE, " \t a=1 ;; nonsense;b = 2\t;=3".parse().unwrap());
    // A header that is not visible ASCII.
    headers.append(COOKIE, HeaderValue::from_bytes(b"c=\xfa").unwrap());
    headers.append(COOKIE, "a=4".parse().unwrap());
    let cookies = parse_cookies(&headers).unwrap();
    assert_eq!(cookies.iter().count(), 2);
    assert_eq!(cookies.get("a").unwrap().value(), "4");
    assert_eq!(cookies.get("b").unwrap().value(), "2");
    assert!(cookies.get("c").is_none());
}
