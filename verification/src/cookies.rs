//! Reading the cookies of a request out of its headers.
//!
//! Every `Cookie` header is taken apart at its semicolons. Each part is
//! trimmed and parsed as one cookie, and the cookies that parse are put
//! into a jar, a later cookie replacing an earlier one of the same name.
//! Headers that are not visible ASCII, and parts that do not parse, are
//! passed over.

use vstd::prelude::*;

verus! {

#[verifier::external_type_specification]
#[verifier::external_body]
#[verifier::reject_recursive_types(T)]
pub struct ExHeaderMap<T>(http::HeaderMap<T>);

#[verifier::external_type_specification]
#[verifier::external_body]
pub struct ExHeaderValue(http::HeaderValue);

#[verifier::external_type_specification]
#[verifier::external_body]
pub struct ExCookieJar(cookie::CookieJar);

#[verifier::external_type_specification]
#[verifier::external_body]
pub struct ExCookie<'c>(cookie::Cookie<'c>);

#[verifier::external_type_specification]
#[verifier::external_body]
pub struct ExParseError(cookie::ParseError);

/// The values of the `Cookie` headers of the map, byte for byte, in the
/// order in which the map holds them.
pub uninterp spec fn cookie_header_values(headers: http::HeaderMap<http::HeaderValue>) -> Seq<
    Seq<u8>,
>;

/// Name and value of the cookie that the text parses as, if it parses.
pub uninterp spec fn parsed_cookie(text: Seq<char>) -> Option<(Seq<char>, Seq<char>)>;

/// Name and value of a cookie.
pub uninterp spec fn cookie_pair(cookie: cookie::Cookie<'static>) -> (Seq<char>, Seq<char>);

/// The original cookies of the jar: the value of each, by its name.
pub uninterp spec fn jar_contents(jar: cookie::CookieJar) -> Map<Seq<char>, Seq<char>>;

/// The values of the `Cookie` headers.
///
/// Calls `HeaderMap::get_all` with the name `Cookie`, walks what it
/// returns, and copies the bytes of each value (`HeaderValue::as_bytes`).
#[verifier::external_body]
fn get_cookie_headers(headers: &http::HeaderMap<http::HeaderValue>) -> (res: Vec<Vec<u8>>)
    ensures
        res@.len() == cookie_header_values(*headers).len(),
        forall|i: int| 0 <= i < res@.len() ==> (#[trigger] res@[i])@ == cookie_header_values(*headers)[i],
{
    headers.get_all("Cookie").iter().map(|value| value.as_bytes().to_vec()).collect()
}

/// The text that the bytes, all ASCII, spell.
///
/// Calls `String::from_utf8`, which accepts every ASCII byte string and
/// gives each byte as one character.
#[verifier::external_body]
fn ascii_text(bytes: Vec<u8>) -> (res: String)
    requires
        forall|i: int| 0 <= i < bytes@.len() ==> #[trigger] bytes@[i] < 128,
    ensures
        res@ == ascii_chars(bytes@),
{
    String::from_utf8(bytes).unwrap()
}

/// Parses one cookie.
///
/// Calls `Cookie::parse`. Whether the text parses, and the name and value
/// of the cookie if it does, are functions of the text alone; they are
/// named, not spelled out.
#[verifier::external_body]
fn parse_cookie(text: String) -> (res: Result<cookie::Cookie<'static>, cookie::ParseError>)
    ensures
        res is Ok <==> parsed_cookie(text@) is Some,
        res matches Ok(cookie) ==> cookie_pair(cookie) == parsed_cookie(text@)->0,
{
    cookie::Cookie::parse(text)
}

/// An empty jar.
///
/// Calls `CookieJar::new`.
#[verifier::external_body]
fn new_jar() -> (res: cookie::CookieJar)
    ensures
        jar_contents(res) == no_cookies(),
{
    cookie::CookieJar::new()
}

/// Puts an original cookie into the jar.
///
/// Calls `CookieJar::add_original`, which replaces the original cookie of
/// the same name if there is one.
#[verifier::external_body]
fn jar_add_original(jar: &mut cookie::CookieJar, cookie: cookie::Cookie<'static>)
    ensures
        jar_contents(*final(jar)) == jar_contents(*old(jar)).insert(
            cookie_pair(cookie).0,
            cookie_pair(cookie).1,
        ),
{
    jar.add_original(cookie)
}

/// No cookies.
pub open spec fn no_cookies() -> Map<Seq<char>, Seq<char>> {
    Map::empty()
}

/// The byte is a visible ASCII character or a tab.
pub open spec fn is_visible_ascii(b: u8) -> bool {
    32 <= b < 127 || b == 9
}

/// Every byte is a visible ASCII character or a tab.
pub open spec fn visible_ascii(bytes: Seq<u8>) -> bool {
    forall|i: int| 0 <= i < bytes.len() ==> is_visible_ascii(#[trigger] bytes[i])
}

/// The characters that ASCII bytes spell.
pub open spec fn ascii_chars(bytes: Seq<u8>) -> Seq<char> {
    Seq::new(bytes.len(), |i: int| bytes[i] as char)
}

/// The byte is a space or a tab: the white space that a header value of
/// visible ASCII can hold.
pub open spec fn is_blank(b: u8) -> bool {
    b == 32 || b == 9
}

/// The bytes without the blanks at their start.
pub open spec fn trim_start(bytes: Seq<u8>) -> Seq<u8>
    decreases bytes.len(),
{
    if bytes.len() > 0 && is_blank(bytes[0]) {
        trim_start(bytes.drop_first())
    } else {
        bytes
    }
}

/// The bytes without the blanks at their end.
pub open spec fn trim_end(bytes: Seq<u8>) -> Seq<u8>
    decreases bytes.len(),
{
    if bytes.len() > 0 && is_blank(bytes.last()) {
        trim_end(bytes.drop_last())
    } else {
        bytes
    }
}

/// The bytes without the blanks at their start and at their end.
pub open spec fn trimmed(bytes: Seq<u8>) -> Seq<u8> {
    trim_end(trim_start(bytes))
}

/// The position of the first semicolon, or the length if there is none.
pub open spec fn first_semicolon(bytes: Seq<u8>) -> int
    decreases bytes.len(),
{
    if bytes.len() == 0 || bytes[0] == 59 {
        0
    } else {
        1 + first_semicolon(bytes.drop_first())
    }
}

/// The cookies after one part of a header: the part is trimmed and parsed,
/// and the cookie, if there is one, replaces the cookie of its name.
pub open spec fn cookies_after_part(cookies: Map<Seq<char>, Seq<char>>, part: Seq<u8>) -> Map<
    Seq<char>,
    Seq<char>,
> {
    match parsed_cookie(ascii_chars(trimmed(part))) {
        Some((name, value)) => cookies.insert(name, value),
        None => cookies,
    }
}

/// The cookies after the parts of a header of visible ASCII, taken apart
/// at its semicolons.
pub open spec fn cookies_after_parts(cookies: Map<Seq<char>, Seq<char>>, value: Seq<u8>) -> Map<
    Seq<char>,
    Seq<char>,
>
    decreases value.len(),
{
    let end = first_semicolon(value);
    let after = cookies_after_part(cookies, value.take(end));
    if 0 <= end < value.len() {
        cookies_after_parts(after, value.skip(end + 1))
    } else {
        after
    }
}

/// The cookies after a header: a header that is not visible ASCII changes
/// nothing.
pub open spec fn cookies_after_header(cookies: Map<Seq<char>, Seq<char>>, value: Seq<u8>) -> Map<
    Seq<char>,
    Seq<char>,
> {
    if visible_ascii(value) {
        cookies_after_parts(cookies, value)
    } else {
        cookies
    }
}

/// The cookies after the first `n` headers.
pub open spec fn cookies_of_headers(values: Seq<Seq<u8>>, n: int) -> Map<Seq<char>, Seq<char>>
    decreases n,
{
    if n <= 0 {
        Map::empty()
    } else {
        cookies_after_header(cookies_of_headers(values, n - 1), values[n - 1])
    }
}

/// A position with a semicolon, and none before it, is the first
/// semicolon; so is the length, if there is no semicolon at all.
pub proof fn lemma_first_semicolon_at(bytes: Seq<u8>, at: int)
    requires
        0 <= at <= bytes.len(),
        forall|i: int| 0 <= i < at ==> #[trigger] bytes[i] != 59,
        at < bytes.len() ==> bytes[at] == 59,
    ensures
        first_semicolon(bytes) == at,
    decreases bytes.len(),
{
    if at > 0 {
        let rest = bytes.drop_first();
        assert(bytes[0] != 59);
        assert forall|i: int| 0 <= i < at - 1 implies #[trigger] rest[i] != 59 by {
            assert(rest[i] == bytes[i + 1]);
        }
        lemma_first_semicolon_at(rest, at - 1);
    }
}

/// Whether every byte is a visible ASCII character or a tab.
#[verifier::loop_isolation(false)]
fn is_visible(bytes: &Vec<u8>) -> (res: bool)
    ensures
        res == visible_ascii(bytes@),
{
    let mut i: usize = 0;
    while i < bytes.len()
        invariant
            i <= bytes.len(),
            forall|j: int| 0 <= j < i ==> is_visible_ascii(#[trigger] bytes@[j]),
        decreases bytes.len() - i,
    {
        let b = bytes[i];
        if !(b >= 32 && b < 127 || b == 9) {
            return false;
        }
        i += 1;
    }
    true
}

/// The bytes from `from` up to `to`, without the blanks at their start and
/// at their end.
#[verifier::loop_isolation(false)]
fn trimmed_part(bytes: &Vec<u8>, from: usize, to: usize) -> (res: Vec<u8>)
    requires
        from <= to <= bytes.len(),
    ensures
        res@ == trimmed(bytes@.subrange(from as int, to as int)),
{
    let ghost part = bytes@.subrange(from as int, to as int);
    let mut a = from;
    assert(bytes@.subrange(a as int, to as int) == part);
    while a < to && (bytes[a] == 32 || bytes[a] == 9)
        invariant
            from <= a <= to,
            trim_start(part) == trim_start(bytes@.subrange(a as int, to as int)),
        decreases to - a,
    {
        assert(bytes@.subrange(a as int, to as int).drop_first() =~= bytes@.subrange(
            a + 1,
            to as int,
        ));
        a += 1;
    }
    assert(trim_start(part) == bytes@.subrange(a as int, to as int));
    let mut b = to;
    while a < b && (bytes[b - 1] == 32 || bytes[b - 1] == 9)
        invariant
            a <= b <= to,
            trimmed(part) == trim_end(bytes@.subrange(a as int, b as int)),
        decreases b - a,
    {
        assert(bytes@.subrange(a as int, b as int).drop_last() =~= bytes@.subrange(
            a as int,
            b - 1,
        ));
        b -= 1;
    }
    assert(trimmed(part) == bytes@.subrange(a as int, b as int));
    let mut res: Vec<u8> = Vec::new();
    let mut i = a;
    while i < b
        invariant
            a <= i <= b,
            res@ == bytes@.subrange(a as int, i as int),
        decreases b - i,
    {
        res.push(bytes[i]);
        assert(bytes@.subrange(a as int, i + 1) =~= bytes@.subrange(a as int, i as int).push(
            bytes@[i as int],
        ));
        i += 1;
    }
    res
}

/// Puts the cookies of one header of visible ASCII into the jar.
#[verifier::loop_isolation(false)]
fn add_header(jar: &mut cookie::CookieJar, value: &Vec<u8>)
    requires
        visible_ascii(value@),
    ensures
        jar_contents(*final(jar)) == cookies_after_parts(jar_contents(*old(jar)), value@),
{
    let ghost goal = cookies_after_parts(jar_contents(*old(jar)), value@);
    let mut start: usize = 0;
    let mut done = false;
    assert(value@.skip(0) =~= value@);
    while !done
        invariant
            start <= value.len(),
            !done ==> goal == cookies_after_parts(jar_contents(*jar), value@.skip(start as int)),
            done ==> goal == jar_contents(*jar),
        decreases
                (if done {
                    0int
                } else {
                    1int
                }),
                value.len() - start,
    {
        let ghost rest = value@.skip(start as int);
        let mut end = start;
        while end < value.len() && value[end] != 59
            invariant
                start <= end <= value.len(),
                forall|i: int| start <= i < end ==> #[trigger] value@[i] != 59,
            decreases value.len() - end,
        {
            end += 1;
        }
        proof {
            assert forall|i: int| 0 <= i < end - start implies #[trigger] rest[i] != 59 by {
                assert(rest[i] == value@[start + i]);
            }
            lemma_first_semicolon_at(rest, end - start);
            assert(rest.take(end - start) =~= value@.subrange(start as int, end as int));
            if end < value.len() {
                assert(rest.skip(end - start + 1) =~= value@.skip(end + 1));
            }
        }
        let part = trimmed_part(value, start, end);
        proof {
            lemma_trimmed_is_part(value@.subrange(start as int, end as int));
            assert forall|i: int| 0 <= i < part@.len() implies #[trigger] part@[i] < 128 by {
                let chunk = value@.subrange(start as int, end as int);
                let w = choose|w: int| 0 <= w < chunk.len() && chunk[w] == #[trigger] part@[i];
                assert(is_visible_ascii(value@[start + w]));
            }
        }
        let text = ascii_text(part);
        match parse_cookie(text) {
            Ok(cookie) => {
                jar_add_original(jar, cookie);
            },
            Err(_) => {},
        }
        if end < value.len() {
            start = end + 1;
        } else {
            done = true;
        }
    }
}

/// Every byte of the trimmed bytes is a byte of the bytes.
pub proof fn lemma_trimmed_is_part(bytes: Seq<u8>)
    ensures
        forall|i: int|
            0 <= i < trimmed(bytes).len() ==> exists|w: int|
                0 <= w < bytes.len() && bytes[w] == #[trigger] trimmed(bytes)[i],
{
    lemma_trim_start_is_part(bytes);
    lemma_trim_end_is_part(trim_start(bytes));
    let mid = trim_start(bytes);
    assert forall|i: int| 0 <= i < trimmed(bytes).len() implies exists|w: int|
        0 <= w < bytes.len() && bytes[w] == #[trigger] trimmed(bytes)[i] by {
        let m = choose|m: int| 0 <= m < mid.len() && mid[m] == trim_end(mid)[i];
        let w = choose|w: int| 0 <= w < bytes.len() && bytes[w] == mid[m];
    }
}

proof fn lemma_trim_start_is_part(bytes: Seq<u8>)
    ensures
        forall|i: int|
            0 <= i < trim_start(bytes).len() ==> exists|w: int|
                0 <= w < bytes.len() && bytes[w] == #[trigger] trim_start(bytes)[i],
    decreases bytes.len(),
{
    if bytes.len() > 0 && is_blank(bytes[0]) {
        let rest = bytes.drop_first();
        lemma_trim_start_is_part(rest);
        assert forall|i: int| 0 <= i < trim_start(bytes).len() implies exists|w: int|
            0 <= w < bytes.len() && bytes[w] == #[trigger] trim_start(bytes)[i] by {
            let w = choose|w: int| 0 <= w < rest.len() && rest[w] == trim_start(rest)[i];
            assert(bytes[w + 1] == rest[w]);
        }
    } else {
        assert forall|i: int| 0 <= i < trim_start(bytes).len() implies exists|w: int|
            0 <= w < bytes.len() && bytes[w] == #[trigger] trim_start(bytes)[i] by {
            assert(bytes[i] == trim_start(bytes)[i]);
        }
    }
}

proof fn lemma_trim_end_is_part(bytes: Seq<u8>)
    ensures
        forall|i: int|
            0 <= i < trim_end(bytes).len() ==> exists|w: int|
                0 <= w < bytes.len() && bytes[w] == #[trigger] trim_end(bytes)[i],
    decreases bytes.len(),
{
    if bytes.len() > 0 && is_blank(bytes.last()) {
        let rest = bytes.drop_last();
        lemma_trim_end_is_part(rest);
        assert forall|i: int| 0 <= i < trim_end(bytes).len() implies exists|w: int|
            0 <= w < bytes.len() && bytes[w] == #[trigger] trim_end(bytes)[i] by {
            let w = choose|w: int| 0 <= w < rest.len() && rest[w] == trim_end(rest)[i];
            assert(bytes[w] == rest[w]);
        }
    } else {
        assert forall|i: int| 0 <= i < trim_end(bytes).len() implies exists|w: int|
            0 <= w < bytes.len() && bytes[w] == #[trigger] trim_end(bytes)[i] by {
            assert(bytes[i] == trim_end(bytes)[i]);
        }
    }
}

/// The cookies of a request: the jar holds, by name, the cookies that the
/// parts of the `Cookie` headers parse as, the last of each name.
#[verifier::loop_isolation(false)]
pub fn parse_cookies(headers: &http::HeaderMap<http::HeaderValue>) -> (res: Result<
    cookie::CookieJar,
    cookie::ParseError,
>)
    ensures
        res is Ok,
        jar_contents(res->Ok_0) == cookies_of_headers(
            cookie_header_values(*headers),
            cookie_header_values(*headers).len() as int,
        ),
{
    let mut cookies = new_jar();
    let values = get_cookie_headers(headers);
    let ghost all = cookie_header_values(*headers);
    let mut i: usize = 0;
    while i < values.len()
        invariant
            i <= values.len(),
            jar_contents(cookies) == cookies_of_headers(all, i as int),
        decreases values.len() - i,
    {
        assert(values@[i as int]@ == all[i as int]);
        if is_visible(&values[i]) {
            add_header(&mut cookies, &values[i]);
        }
        i += 1;
    }
    Ok(cookies)
}

} // verus!
