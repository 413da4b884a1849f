//! What the cycle reads from a response: its `Content-Type` and `Content-Length`
//! headers, and its body as UTF-8 text.
use vstd::prelude::*;

verus! {

/// What decoding `bytes` as UTF-8 yields: the text, or `None` where `bytes` is not UTF-8.
pub uninterp spec fn utf8_text(bytes: Seq<u8>) -> Option<Seq<char>>;

/// What parsing `s` as a media type yields: its type, its subtype and the value of its
/// `charset` parameter, as the parser stores them; `None` where `s` is no media type.
pub uninterp spec fn media_type_of(s: Seq<char>) -> Option<(Seq<char>, Seq<char>, Option<Seq<char>>)>;

/// The characters of a run of ASCII bytes.
pub open spec fn ascii_chars(bytes: Seq<u8>) -> Seq<char> {
    Seq::new(bytes.len(), |i: int| bytes[i] as char)
}

/// A byte that a header value may hold and still read as text: visible ASCII or a tab.
pub open spec fn is_visible_ascii(b: u8) -> bool {
    (32 <= b && b < 127) || b == 9
}

/// Every byte of `bytes` is visible ASCII.
pub open spec fn all_visible(bytes: Seq<u8>) -> bool {
    forall|i: int| 0 <= i < bytes.len() ==> is_visible_ascii(#[trigger] bytes[i])
}

pub open spec fn opt_view(o: Option<String>) -> Option<Seq<char>> {
    match o {
        Some(s) => Some(s@),
        None => None,
    }
}

/// Relies on `String::from_utf8`: it succeeds exactly on valid UTF-8 and then holds the
/// decoded text; ASCII bytes are valid UTF-8 and decode to the same characters.
#[verifier::external_body]
fn decode_utf8(bytes: Vec<u8>) -> (r: Option<String>)
    ensures
        opt_view(r) == utf8_text(bytes@),
        (forall|i: int| 0 <= i < bytes@.len() ==> #[trigger] bytes@[i] < 128) ==> opt_view(r)
            == Some(ascii_chars(bytes@)),
{
    String::from_utf8(bytes).ok()
}

/// Relies on mime's `FromStr for Mime`, read back through `Mime::type_`, `Mime::subtype`
/// and `Mime::get_param(mime::CHARSET)`.
#[verifier::external_body]
fn parse_media_type(s: &str) -> (r: Option<(String, String, Option<String>)>)
    ensures
        match r {
            None => media_type_of(s@) is None,
            Some((t, sub, cs)) => media_type_of(s@) == Some((t@, sub@, opt_view(cs))),
        },
{
    s.parse::<mime::Mime>().ok().map(
        |m|
            (
                m.type_().as_str().to_owned(),
                m.subtype().as_str().to_owned(),
                m.get_param(mime::CHARSET).map(|c| c.as_str().to_owned()),
            ),
    )
}

/// The body of a response as text: `None` where it is not valid UTF-8.
pub fn body_text(bytes: Vec<u8>) -> (r: Option<String>)
    ensures
        opt_view(r) == utf8_text(bytes@),
{
    decode_utf8(bytes)
}

/// A header value as text, where all of its bytes are visible ASCII.
pub fn header_text(value: Vec<u8>) -> (r: Option<String>)
    ensures
        all_visible(value@) ==> opt_view(r) == Some(ascii_chars(value@)),
        !all_visible(value@) ==> r is None,
{
    let mut i: usize = 0;
    while i < value.len()
        invariant
            0 <= i <= value@.len(),
            forall|j: int| 0 <= j < i ==> is_visible_ascii(#[trigger] value@[j]),
        decreases value@.len() - i,
    {
        let b = value[i];
        if !((32 <= b && b < 127) || b == 9) {
            return None;
        }
        i = i + 1;
    }
    decode_utf8(value)
}

/// How a response's `Content-Type` header compares with `application/json; charset=utf-8`.
#[derive(Clone, Copy, Debug, PartialEq, Eq, Structural)]
pub enum ContentTypeCheck {
    /// The header names JSON in UTF-8.
    Compliant,
    /// The header is a media type, but another one.
    Mismatch,
    /// The header is text, but no media type.
    Unparsable,
    /// The header holds bytes other than visible ASCII.
    NotText,
    /// The response has no such header.
    Missing,
}

/// The verdict on a `Content-Type` header value, `None` where the header is absent.
pub open spec fn content_type_verdict(header: Option<Seq<u8>>) -> ContentTypeCheck {
    match header {
        None => ContentTypeCheck::Missing,
        Some(b) => if !all_visible(b) {
            ContentTypeCheck::NotText
        } else {
            match media_type_of(ascii_chars(b)) {
                None => ContentTypeCheck::Unparsable,
                Some((t, sub, cs)) => if t == "application"@ && sub == "json"@ && cs == Some(
                    "utf-8"@,
                ) {
                    ContentTypeCheck::Compliant
                } else {
                    ContentTypeCheck::Mismatch
                },
            }
        },
    }
}

pub open spec fn opt_bytes(o: Option<Vec<u8>>) -> Option<Seq<u8>> {
    match o {
        Some(v) => Some(v@),
        None => None,
    }
}

/// Checks a `Content-Type` header value, `None` where the header is absent.
pub fn check_content_type(header: Option<Vec<u8>>) -> (r: ContentTypeCheck)
    ensures
        r == content_type_verdict(opt_bytes(header)),
{
    match header {
        None => ContentTypeCheck::Missing,
        Some(value) => match header_text(value) {
            None => ContentTypeCheck::NotText,
            Some(text) => match parse_media_type(text.as_str()) {
                None => ContentTypeCheck::Unparsable,
                Some((t, sub, cs)) => {
                    proof {
                        reveal_strlit("application");
                        reveal_strlit("json");
                        reveal_strlit("utf-8");
                    }
                    let json = t == "application".to_owned() && sub == "json".to_owned();
                    let utf8 = match cs {
                        Some(c) => c == "utf-8".to_owned(),
                        None => false,
                    };
                    if json && utf8 {
                        ContentTypeCheck::Compliant
                    } else {
                        ContentTypeCheck::Mismatch
                    }
                },
            },
        },
    }
}

/// A decimal digit.
pub open spec fn is_digit(b: u8) -> bool {
    48 <= b && b <= 57
}

/// The number that a run of decimal digits writes.
pub open spec fn digits_value(s: Seq<u8>) -> int
    decreases s.len(),
{
    if s.len() == 0 {
        0
    } else {
        digits_value(s.drop_last()) * 10 + (s.last() - 48)
    }
}

/// Every byte of `s` is a decimal digit.
pub open spec fn all_digits(s: Seq<u8>) -> bool {
    forall|i: int| 0 <= i < s.len() ==> is_digit(#[trigger] s[i])
}

/// The digits of a decimal number with an optional leading `+`.
pub open spec fn unsigned_digits(s: Seq<u8>) -> Seq<u8> {
    if s.len() > 0 && s[0] == 43 {
        s.drop_first()
    } else {
        s
    }
}

/// The value of `s` read as an unsigned decimal number that fits in `usize`: an optional
/// `+` and then at least one digit.
pub open spec fn usize_value(s: Seq<u8>) -> Option<usize> {
    let d = unsigned_digits(s);
    if d.len() > 0 && all_digits(d) && digits_value(d) <= usize::MAX {
        Some(digits_value(d) as usize)
    } else {
        None
    }
}

/// The capacity that a `Content-Length` header value suggests for the body, where the
/// value is an unsigned decimal number that fits in `usize`.
pub fn content_length_hint(header: Option<Vec<u8>>) -> (r: Option<usize>)
    ensures
        r == match header {
            None => None,
            Some(v) => usize_value(v@),
        },
{
    let value = match header {
        None => {
            return None;
        },
        Some(v) => v,
    };
    let ghost d = unsigned_digits(value@);
    let start: usize = if value.len() > 0 && value[0] == 43 {
        1
    } else {
        0
    };
    if start >= value.len() {
        return None;
    }
    proof {
        assert(d =~= value@.skip(start as int));
    }
    let mut acc: usize = 0;
    let mut overflow = false;
    let mut i: usize = start;
    while i < value.len()
        invariant
            start <= i <= value@.len(),
            d =~= value@.skip(start as int),
            d == unsigned_digits(value@),
            opt_bytes(header) == Some(value@),
            forall|j: int| 0 <= j < i - start ==> is_digit(#[trigger] d[j]),
            overflow ==> digits_value(d.take(i - start)) > usize::MAX,
            !overflow ==> acc == digits_value(d.take(i - start)),
        decreases value@.len() - i,
    {
        let b = value[i];
        if !(48 <= b && b <= 57) {
            proof {
                assert(d[i - start] == b);
                assert(!is_digit(d[i - start]));
            }
            return None;
        }
        proof {
            assert(d.take(i - start + 1).drop_last() =~= d.take(i - start));
            assert(d.take(i - start + 1).last() == b);
            assert(d[i - start] == b);
        }
        if !overflow {
            match acc.checked_mul(10) {
                Some(m) => match m.checked_add((b - 48) as usize) {
                    Some(n) => {
                        acc = n;
                    },
                    None => {
                        overflow = true;
                    },
                },
                None => {
                    overflow = true;
                },
            }
        }
        i = i + 1;
    }
    proof {
        assert(d.take(d.len() as int) =~= d);
    }
    if overflow {
        None
    } else {
        Some(acc)
    }
}

} // verus!
