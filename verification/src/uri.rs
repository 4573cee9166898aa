//! What the relay reads out of a URI: its host, its domain and the last
//! segment of its path.
use vstd::prelude::*;
use vstd::utf8::encode_utf8;

verus! {

/// The parts of a parsed URI that the relay looks at.
pub struct UriParts {
    /// The host as it is written in the URI: a domain or an address.
    pub host: Option<String>,
    /// The host, where it is a domain name and not an address.
    pub domain: Option<String>,
    /// The last segment of the path, where the path starts with a slash.
    pub last_segment: Option<String>,
}

/// The mathematical value of [`UriParts`].
pub struct UriPartsView {
    pub host: Option<Seq<char>>,
    pub domain: Option<Seq<char>>,
    pub last_segment: Option<Seq<char>>,
}

/// The characters of an optional string.
pub open spec fn opt_text(s: Option<String>) -> Option<Seq<char>> {
    match s {
        Some(t) => Some(t@),
        None => None,
    }
}

impl View for UriParts {
    type V = UriPartsView;

    open spec fn view(&self) -> UriPartsView {
        UriPartsView {
            host: opt_text(self.host),
            domain: opt_text(self.domain),
            last_segment: opt_text(self.last_segment),
        }
    }
}

/// The view of an optional [`UriParts`].
pub open spec fn opt_parts(p: Option<UriParts>) -> Option<UriPartsView> {
    match p {
        Some(parts) => Some(parts@),
        None => None,
    }
}

/// What parsing `uri` as a URL gives: `None` where it is no URL, else the
/// host, the domain and the last path segment of the parsed URL.
pub uninterp spec fn parsed_uri(uri: Seq<char>) -> Option<UriPartsView>;

/// The lowercase form of `s`, as the standard library computes it.
pub uninterp spec fn lowercased(s: Seq<char>) -> Seq<char>;

/// The host of `uri`, where it parses and has one.
pub open spec fn uri_host(uri: Seq<char>) -> Option<Seq<char>> {
    match parsed_uri(uri) {
        Some(parts) => parts.host,
        None => None,
    }
}

/// The lowercased domain of `uri`, where it parses and its host is a domain.
pub open spec fn uri_domain(uri: Seq<char>) -> Option<Seq<char>> {
    match parsed_uri(uri) {
        Some(parts) => match parts.domain {
            Some(d) => Some(lowercased(d)),
            None => None,
        },
        None => None,
    }
}

/// The last path segment of `uri`, where it parses and has path segments.
pub open spec fn uri_last_segment(uri: Seq<char>) -> Option<Seq<char>> {
    match parsed_uri(uri) {
        Some(parts) => parts.last_segment,
        None => None,
    }
}

/// Calls `reqwest::Url::parse` and reads `host_str`, `domain` and the last
/// item of `path_segments` from the result. Trusted: the outcome is the value
/// that [`parsed_uri`] names for these characters.
#[verifier::external_body]
pub(crate) fn parse_uri(uri: &str) -> (parts: Option<UriParts>)
    ensures
        opt_parts(parts) == parsed_uri(uri@),
{
    match reqwest::Url::parse(uri) {
        Ok(url) => Some(UriParts {
            host: url.host_str().map(String::from),
            domain: url.domain().map(String::from),
            last_segment: url.path_segments().and_then(|segments| segments.last()).map(String::from),
        }),
        Err(_) => None,
    }
}

/// Calls `str::to_lowercase`. Trusted: the result is the value that
/// [`lowercased`] names for these characters.
#[verifier::external_body]
pub(crate) fn lowercase(s: &str) -> (lower: String)
    ensures
        lower@ == lowercased(s@),
{
    s.to_lowercase()
}

/// The lowercased domain held in `parts`.
pub fn domain_of(parts: &Option<UriParts>) -> (domain: Option<String>)
    ensures
        opt_text(domain) == match opt_parts(*parts) {
            Some(p) => match p.domain {
                Some(d) => Some(lowercased(d)),
                None => None,
            },
            None => None,
        },
{
    match parts {
        Some(p) => match &p.domain {
            Some(d) => Some(lowercase(d.as_str())),
            None => None,
        },
        None => None,
    }
}

/// The lowercased domain of `uri`: `None` where `uri` is no URL or its host
/// is no domain name.
pub fn host_of(uri: &str) -> (host: Option<String>)
    ensures
        opt_text(host) == uri_domain(uri@),
{
    let parts = parse_uri(uri);
    domain_of(&parts)
}

/// The last path segment of `uri`: `None` where `uri` is no URL or has no
/// path segments.
pub fn last_segment_of(uri: &str) -> (segment: Option<String>)
    ensures
        opt_text(segment) == uri_last_segment(uri@),
{
    match parse_uri(uri) {
        Some(parts) => parts.last_segment,
        None => None,
    }
}

/// Whether a byte stands for itself in a percent-encoded text: the ASCII
/// letters and digits, and `-`, `.`, `_`, `~`.
pub open spec fn is_unreserved(b: u8) -> bool {
    (0x30 <= b <= 0x39) || (0x41 <= b <= 0x5a) || (0x61 <= b <= 0x7a) || b == 0x2d || b == 0x2e
        || b == 0x5f || b == 0x7e
}

/// The upper-case hexadecimal digit for a value below 16.
pub open spec fn hex_digit(d: u8) -> char {
    if d < 10 {
        ((0x30 + d) as u8) as char
    } else {
        ((0x41 + d - 10) as u8) as char
    }
}

/// The percent-encoded form of a byte.
pub open spec fn encoded_byte(b: u8) -> Seq<char> {
    if is_unreserved(b) {
        seq![b as char]
    } else {
        seq!['%', hex_digit(b / 16), hex_digit(b % 16)]
    }
}

/// The percent-encoded form of `bytes`: each byte that is not unreserved is
/// written as `%` and two hexadecimal digits.
pub open spec fn percent_encoded(bytes: Seq<u8>) -> Seq<char>
    decreases bytes.len(),
{
    if bytes.len() == 0 {
        Seq::empty()
    } else {
        encoded_byte(bytes[0]) + percent_encoded(bytes.drop_first())
    }
}

/// Calls `urlencoding::encode`. Trusted: the result is the percent-encoded
/// form of the UTF-8 bytes of `s`, in which only ASCII letters, digits and
/// `-`, `.`, `_`, `~` stay as they are.
#[verifier::external_body]
pub(crate) fn percent_encode(s: &str) -> (encoded: String)
    ensures
        encoded@ == percent_encoded(encode_utf8(s@)),
{
    urlencoding::encode(s).into_owned()
}

/// Whether two optional strings hold the same characters, or are both absent.
pub fn same_text(a: &Option<String>, b: &Option<String>) -> (same: bool)
    ensures
        same == (opt_text(*a) == opt_text(*b)),
{
    match (a, b) {
        (Some(x), Some(y)) => crate::text::str_eq(x.as_str(), y.as_str()),
        (None, None) => true,
        _ => false,
    }
}

} // verus!
