//! URL normalization: turning a user-entered address into a navigable URL.
//!
//! Parsing and serialization are delegated to the `url` crate and
//! percent-encoding to the `urlencoding` crate; both are deterministic, so
//! their results are either stated exactly (percent-encoding) or named by
//! uninterpreted spec functions (parsing) that the contracts here build on.

use vstd::prelude::*;
use vstd::utf8::encode_utf8;
use crate::text::{contains_char, trim, trim_spec};

verus! {

/// Whether `Url::parse` accepts `s`.
pub uninterp spec fn url_parse_ok(s: Seq<char>) -> bool;

/// The scheme of the URL that `Url::parse` reads from `s` (lower-case,
/// without the `':'`), meaningful only where parsing succeeds.
pub uninterp spec fn url_scheme(s: Seq<char>) -> Seq<char>;

/// The canonical serialization of the URL that `Url::parse` reads from `s`,
/// meaningful only where parsing succeeds.
pub uninterp spec fn url_canonical(s: Seq<char>) -> Seq<char>;

/// The message with which `Url::parse` rejects `s`, meaningful only where
/// parsing fails.
pub uninterp spec fn url_err_text(s: Seq<char>) -> Seq<char>;

/// `p` is a prefix of `s`.
pub open spec fn has_prefix(s: Seq<char>, p: Seq<char>) -> bool {
    p.len() <= s.len() && s.subrange(0, p.len() as int) == p
}

/// The bytes that percent-encoding passes through unchanged: ASCII
/// alphanumerics and `'-'`, `'.'`, `'_'`, `'~'`.
pub open spec fn is_unreserved_byte(b: u8) -> bool {
    ||| (48 <= b && b <= 57)  // '0' ..= '9'
    ||| (65 <= b && b <= 90)  // 'A' ..= 'Z'
    ||| (97 <= b && b <= 122)  // 'a' ..= 'z'
    ||| b == 45  // '-'
    ||| b == 46  // '.'
    ||| b == 95  // '_'
    ||| b == 126  // '~'
}

/// The upper-case hexadecimal digit for `d` (which must be below sixteen).
pub open spec fn hex_digit(d: u8) -> char {
    if d < 10 {
        crate::label::digit_char(d as nat)
    } else if d == 10 {
        'A'
    } else if d == 11 {
        'B'
    } else if d == 12 {
        'C'
    } else if d == 13 {
        'D'
    } else if d == 14 {
        'E'
    } else {
        'F'
    }
}

/// How percent-encoding writes one byte: unreserved bytes stand as
/// themselves, every other byte as `'%'` and two hex digits.
pub open spec fn encode_byte(b: u8) -> Seq<char> {
    if is_unreserved_byte(b) {
        seq![b as char]
    } else {
        seq!['%', hex_digit(b / 16), hex_digit(b % 16)]
    }
}

pub open spec fn encode_bytes(bs: Seq<u8>) -> Seq<char>
    decreases bs.len(),
{
    if bs.len() == 0 {
        Seq::empty()
    } else {
        encode_byte(bs[0]) + encode_bytes(bs.drop_first())
    }
}

/// The percent-encoding of `s`: each byte of its UTF-8 form, written as
/// `encode_byte` says.
pub open spec fn encoded_of(s: Seq<char>) -> Seq<char> {
    encode_bytes(encode_utf8(s))
}

/// Relies on `urlencoding::encode`: percent-encodes every byte of the UTF-8
/// input except ASCII alphanumerics and `'-'`, `'.'`, `'_'`, `'~'`, writing
/// escapes as `'%'` and two upper-case hex digits.
#[verifier::external_body]
fn percent_encode(s: &str) -> (r: String)
    ensures
        r@ == encoded_of(s@),
{
    urlencoding::encode(s).into_owned()
}

/// A successfully parsed URL, reduced to the two parts this crate reads.
pub struct ParsedUrl {
    /// The scheme, lower-case, without the trailing `':'`.
    pub scheme: String,
    /// The canonical serialization.
    pub canonical: String,
}

/// Relies on `url::Url::parse`, `url::Url::scheme` and `url::Url`'s
/// `Display` impl: whether and how an input parses depends on the input
/// alone; the scheme is the serialization's head, so a serialization with
/// scheme `https` begins with `https://` (`https` is a "special" scheme,
/// whose URLs always carry an authority), and an input that itself begins
/// with `https://` parses, if at all, with scheme `https`.
#[verifier::external_body]
pub(crate) fn parse_url(s: &str) -> (r: Result<ParsedUrl, String>)
    ensures
        r is Ok <==> url_parse_ok(s@),
        r matches Ok(p) ==> p.scheme@ == url_scheme(s@) && p.canonical@ == url_canonical(s@),
        r matches Err(m) ==> m@ == url_err_text(s@),
        r is Ok && has_prefix(s@, "https://"@) ==> url_scheme(s@) == "https"@,
        r is Ok && url_scheme(s@) == "https"@ ==> has_prefix(url_canonical(s@), "https://"@),
{
    match url::Url::parse(s) {
        Ok(u) => {
            let scheme = String::from(u.scheme());
            Ok(ParsedUrl { scheme, canonical: u.to_string() })
        },
        Err(e) => Err(e.to_string()),
    }
}

/// The address parses outright and names a web scheme: it is taken as it
/// stands.
pub open spec fn scheme_ok(t: Seq<char>) -> bool {
    url_parse_ok(t) && (url_scheme(t) == "http"@ || url_scheme(t) == "https"@)
}

pub open spec fn with_https(t: Seq<char>) -> Seq<char> {
    "https://"@ + t
}

/// The address looks like a bare host name: it has a dot and no space.
pub open spec fn host_like(t: Seq<char>) -> bool {
    t.contains('.') && !t.contains(' ')
}

/// The search-engine query URL for free-text input `t`.
pub open spec fn search_url_of(t: Seq<char>) -> Seq<char> {
    "https://www.google.com/search?q="@ + encoded_of(t)
}

/// What normalization returns: the trimmed input's canonical form where it
/// is already a web URL; its canonical form behind `https://` where it looks
/// like a bare host name and parses that way; else a search query for it.
pub open spec fn normalized_url(input: Seq<char>) -> Seq<char> {
    let t = trim_spec(input);
    if scheme_ok(t) {
        url_canonical(t)
    } else if host_like(t) && url_parse_ok(with_https(t)) {
        url_canonical(with_https(t))
    } else {
        search_url_of(t)
    }
}

/// A search-engine query URL is the query prefix followed by exactly the
/// percent-encoding of the free-text input: the encoded input is what
/// stands after the prefix, nothing more.
pub proof fn lemma_search_url_carries_encoded_input(t: Seq<char>)
    ensures
        has_prefix(search_url_of(t), "https://www.google.com/search?q="@),
        search_url_of(t).len() == "https://www.google.com/search?q="@.len() + encoded_of(t).len(),
        search_url_of(t).subrange(
            "https://www.google.com/search?q="@.len() as int,
            search_url_of(t).len() as int,
        ) == encoded_of(t),
{
    let p = "https://www.google.com/search?q="@;
    assert(search_url_of(t).subrange(0, p.len() as int) =~= p);
    assert(search_url_of(t).subrange(p.len() as int, search_url_of(t).len() as int) =~= encoded_of(
        t,
    ));
}

/// Validates and normalizes a user-entered address.
///
/// Every input that is not already a web URL comes back as an `https://`
/// URL: either the input read as a host name, or a search query for it.
pub fn normalize_url(input: &str) -> (r: String)
    ensures
        r@ == normalized_url(input@),
        !scheme_ok(trim_spec(input@)) ==> has_prefix(r@, "https://"@),
        !scheme_ok(trim_spec(input@)) && !(host_like(trim_spec(input@)) && url_parse_ok(
            with_https(trim_spec(input@)),
        )) ==> r@ == search_url_of(trim_spec(input@)),
{
    let t = trim(input);
    match parse_url(t) {
        Ok(p) => {
            let http = String::from_str("http");
            let https = String::from_str("https");
            if p.scheme == http || p.scheme == https {
                return p.canonical;
            }
        },
        Err(_) => {},
    }
    if contains_char(t, '.') && !contains_char(t, ' ') {
        let candidate = String::from_str("https://").concat(t);
        match parse_url(candidate.as_str()) {
            Ok(p) => {
                proof {
                    reveal_strlit("https://");
                    assert(candidate@.subrange(0, 8) =~= "https://"@);
                }
                return p.canonical;
            },
            Err(_) => {},
        }
    }
    let encoded = percent_encode(t);
    let r = String::from_str("https://www.google.com/search?q=").concat(encoded.as_str());
    proof {
        reveal_strlit("https://www.google.com/search?q=");
        reveal_strlit("https://");
        assert(r@.subrange(0, 8) =~= "https://"@);
    }
    r
}

} // verus!
