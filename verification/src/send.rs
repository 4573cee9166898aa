//! Building the signed request that posts an activity to an inbox, and
//! judging the answer.
use vstd::prelude::*;
use crate::error::{Error, ErrorView};
use crate::post::seconds_since_epoch;
use crate::signature::{signable, signature_of, signature_text};
use crate::text::join2;
use crate::uri::{UriParts, UriPartsView, opt_parts, parse_uri, parsed_uri};

verus! {

/// One header of a request.
#[derive(Debug, PartialEq, Eq)]
pub struct Header {
    pub name: String,
    pub value: String,
}

/// A request to post `body` to `uri`.
#[derive(Debug, PartialEq, Eq)]
pub struct Envelope {
    pub method: String,
    pub uri: String,
    pub headers: Vec<Header>,
    pub body: Vec<u8>,
}

/// The mathematical value of a [`Envelope`]: its headers are pairs of a name
/// and a value.
pub struct EnvelopeView {
    pub method: Seq<char>,
    pub uri: Seq<char>,
    pub headers: Seq<(Seq<char>, Seq<char>)>,
    pub body: Seq<u8>,
}

/// The names and values of a list of headers.
pub open spec fn header_views(headers: Seq<Header>) -> Seq<(Seq<char>, Seq<char>)> {
    Seq::new(headers.len(), |i: int| (headers[i].name@, headers[i].value@))
}

impl View for Envelope {
    type V = EnvelopeView;

    open spec fn view(&self) -> EnvelopeView {
        EnvelopeView {
            method: self.method@,
            uri: self.uri@,
            headers: header_views(self.headers@),
            body: self.body@,
        }
    }
}

/// The SHA-256 hash of `bytes`.
pub uninterp spec fn sha256_of(bytes: Seq<u8>) -> Seq<u8>;

/// The base64 digit for a value below 64, in the standard alphabet.
pub open spec fn base64_digit(v: int) -> char {
    if v < 26 {
        ((0x41 + v) as u8) as char
    } else if v < 52 {
        ((0x61 + v - 26) as u8) as char
    } else if v < 62 {
        ((0x30 + v - 52) as u8) as char
    } else if v == 62 {
        '+'
    } else {
        '/'
    }
}

/// The standard base64 encoding of `bytes`, with padding: each group of
/// three bytes gives four digits of six bits, and a last group of one or two
/// bytes is filled up with `=`.
pub open spec fn base64_of(bytes: Seq<u8>) -> Seq<char>
    decreases bytes.len(),
{
    if bytes.len() == 0 {
        Seq::empty()
    } else {
        let a = bytes[0] as int;
        if bytes.len() == 1 {
            seq![base64_digit(a / 4), base64_digit((a % 4) * 16), '=', '=']
        } else {
            let b = bytes[1] as int;
            if bytes.len() == 2 {
                seq![
                    base64_digit(a / 4),
                    base64_digit((a % 4) * 16 + b / 16),
                    base64_digit((b % 16) * 4),
                    '=',
                ]
            } else {
                let c = bytes[2] as int;
                seq![
                    base64_digit(a / 4),
                    base64_digit((a % 4) * 16 + b / 16),
                    base64_digit((b % 16) * 4 + c / 64),
                    base64_digit(c % 64),
                ] + base64_of(bytes.skip(3))
            }
        }
    }
}

/// The text `s` with every occurrence of `from` replaced by `to`. The
/// occurrences are looked for from the start of `s`, and one that overlaps
/// an earlier one does not count.
pub open spec fn replaced(s: Seq<char>, from: Seq<char>, to: Seq<char>) -> Seq<char>
    decreases s.len(),
{
    if from.len() == 0 || s.len() < from.len() {
        s
    } else if s.subrange(0, from.len() as int) == from {
        to + replaced(s.skip(from.len() as int), from, to)
    } else {
        seq![s[0]] + replaced(s.drop_first(), from, to)
    }
}

/// Calls `sha2::Sha256::digest`. Trusted: the result is the SHA-256 hash of
/// `bytes`, which is 32 bytes long.
#[verifier::external_body]
pub(crate) fn sha256(bytes: &[u8]) -> (hash: Vec<u8>)
    ensures
        hash@ == sha256_of(bytes@),
        hash@.len() == 32,
{
    <sha2::Sha256 as sha2::Digest>::digest(bytes).to_vec()
}

/// Calls `encode` of base64's `STANDARD` engine, which panics only where
/// the length of the encoding overflows. Trusted: the result is the standard
/// base64 encoding of `bytes`.
#[verifier::external_body]
pub(crate) fn base64(bytes: &[u8]) -> (encoded: String)
    requires
        bytes@.len() <= 0x1000_0000,
    ensures
        encoded@ == base64_of(bytes@),
{
    base64::Engine::encode(&base64::engine::general_purpose::STANDARD, bytes)
}

/// Calls `str::replace` with a pattern that is not empty. Trusted: the
/// result is `s` with every occurrence of `from` replaced by `to`, the
/// occurrences taken from the start and without overlap.
#[verifier::external_body]
pub(crate) fn replace(s: &str, from: &str, to: &str) -> (out: String)
    requires
        from@.len() > 0,
    ensures
        out@ == replaced(s@, from@, to@),
{
    s.replace(from, to)
}

/// The last second that a date of four-digit year holds, counted from the
/// Unix epoch: the end of the year 9999.
pub const LAST_SECOND: i64 = 253_402_300_799;

/// The time `seconds` after the Unix epoch in the form of RFC 2822, at the
/// offset `+0000`.
pub uninterp spec fn rfc2822_text(seconds: int) -> Seq<char>;

/// Makes the time `seconds` after the Unix epoch with
/// `chrono::DateTime::from_timestamp` and writes it with `to_rfc2822`, which
/// panics for a year of more than four digits; the bounds rule that out.
/// Trusted: the result is the text that [`rfc2822_text`] names.
#[verifier::external_body]
pub(crate) fn rfc2822(seconds: i64) -> (text: String)
    requires
        0 <= seconds <= LAST_SECOND,
    ensures
        text@ == rfc2822_text(seconds as int),
{
    match chrono::DateTime::from_timestamp(seconds, 0) {
        Some(time) => time.to_rfc2822(),
        None => String::new(),
    }
}

/// The second that a request is dated with, for a clock reading: the
/// seconds read, cut off at the last second of the year 9999, or 0 where the
/// clock stands before the epoch.
pub open spec fn dated_second(reading: Option<u64>) -> int {
    match reading {
        Some(seconds) => if seconds <= LAST_SECOND {
            seconds as int
        } else {
            LAST_SECOND as int
        },
        None => 0,
    }
}

/// The time that a request is dated with, for a clock reading, in the form
/// of RFC 2822.
pub fn date_of_reading(reading: Option<u64>) -> (date: String)
    ensures
        date@ == rfc2822_text(dated_second(reading)),
{
    let seconds: i64 = match reading {
        Some(seconds) => if seconds <= 253_402_300_799 {
            seconds as i64
        } else {
            LAST_SECOND
        },
        None => 0,
    };
    rfc2822(seconds)
}

/// The value of the `digest` header for a body.
pub open spec fn digest_text(body: Seq<u8>) -> Seq<char> {
    "SHA-256="@ + base64_of(sha256_of(body))
}

/// The value of the `date` header for a time in the form of RFC 2822: the
/// offset `+0000` is written as `GMT`.
pub open spec fn date_text(rfc2822: Seq<char>) -> Seq<char> {
    replaced(rfc2822, "+0000"@, "GMT"@)
}

/// The headers that a delivery carries before it is signed.
pub open spec fn delivery_headers(host: Seq<char>, date: Seq<char>, body: Seq<u8>) -> Seq<
    (Seq<char>, Seq<char>),
> {
    seq![
        ("host"@, host),
        ("content-type"@, "application/activity+json"@),
        ("date"@, date_text(date)),
        ("digest"@, digest_text(body)),
    ]
}

/// The request that posts `body` to `uri` at the time `date`, given what
/// parsing `uri` gave: there is none where `uri` is no URL or has no host.
pub open spec fn delivery_request(
    uri: Seq<char>,
    parts: Option<UriPartsView>,
    body: Seq<u8>,
    date: Seq<char>,
) -> Option<EnvelopeView> {
    match parts {
        Some(p) => match p.host {
            Some(host) => Some(
                EnvelopeView {
                    method: "POST"@,
                    uri: uri,
                    headers: delivery_headers(host, date, body),
                    body: body,
                },
            ),
            None => None,
        },
        None => None,
    }
}

/// The headers that a signed request for a document carries before it is
/// signed.
pub open spec fn fetch_headers(host: Seq<char>, date: Seq<char>) -> Seq<(Seq<char>, Seq<char>)> {
    seq![
        ("host"@, host),
        ("content-type"@, "application/activity+json"@),
        ("date"@, date_text(date)),
        ("accept"@, "application/activity+json"@),
        ("digest"@, digest_text(Seq::empty())),
    ]
}

/// The request that reads the document at `uri` at the time `date`, given
/// what parsing `uri` gave: there is none where `uri` is no URL or has no
/// host.
pub open spec fn fetch_request(uri: Seq<char>, parts: Option<UriPartsView>, date: Seq<char>) -> Option<
    EnvelopeView,
> {
    match parts {
        Some(p) => match p.host {
            Some(host) => Some(
                EnvelopeView {
                    method: "GET"@,
                    uri: uri,
                    headers: fetch_headers(host, date),
                    body: Seq::empty(),
                },
            ),
            None => None,
        },
        None => None,
    }
}

/// The value of the `digest` header for `body`: the name of the hash and
/// the hash of the body in base64.
pub fn digest_header(body: &Vec<u8>) -> (value: String)
    ensures
        value@ == digest_text(body@),
{
    let hash = sha256(body.as_slice());
    let encoded = base64(hash.as_slice());
    join2("SHA-256=", encoded.as_str())
}

/// The value of the `date` header for a time in the form of RFC 2822.
pub fn http_date(rfc2822: &str) -> (value: String)
    ensures
        value@ == date_text(rfc2822@),
{
    proof {
        reveal_strlit("+0000");
    }
    replace(rfc2822, "+0000", "GMT")
}

/// The unsigned request that posts `body` to `uri` at the time `date`,
/// given what parsing `uri` gave, or `InvalidUri` where `uri` is no URL or
/// has no host.
pub fn build(uri: &str, parts: &Option<UriParts>, body: Vec<u8>, date: &str) -> (request: Result<
    Envelope,
    Error,
>)
    ensures
        match request {
            Ok(r) => delivery_request(uri@, opt_parts(*parts), body@, date@) == Some(r@),
            Err(e) => delivery_request(uri@, opt_parts(*parts), body@, date@) is None && e@
                == ErrorView::InvalidUri,
        },
{
    let host = match parts {
        Some(p) => match &p.host {
            Some(h) => h.clone(),
            None => return Err(Error::InvalidUri),
        },
        None => return Err(Error::InvalidUri),
    };
    let mut headers: Vec<Header> = Vec::new();
    headers.push(Header { name: String::from_str("host"), value: host });
    headers.push(
        Header {
            name: String::from_str("content-type"),
            value: String::from_str("application/activity+json"),
        },
    );
    headers.push(Header { name: String::from_str("date"), value: http_date(date) });
    headers.push(Header { name: String::from_str("digest"), value: digest_header(&body) });
    let request = Envelope {
        method: String::from_str("POST"),
        uri: String::from_str(uri),
        headers,
        body,
    };
    assert(request@.headers =~= delivery_headers(
        opt_parts(*parts).unwrap().host.unwrap(),
        date@,
        request@.body,
    ));
    Ok(request)
}

/// The unsigned request that reads the document at `uri` at the time
/// `date`, given what parsing `uri` gave, or `InvalidUri` where `uri` is no
/// URL or has no host.
pub fn build_fetch(uri: &str, parts: &Option<UriParts>, date: &str) -> (request: Result<Envelope, Error>)
    ensures
        match request {
            Ok(r) => fetch_request(uri@, opt_parts(*parts), date@) == Some(r@),
            Err(e) => fetch_request(uri@, opt_parts(*parts), date@) is None && e@
                == ErrorView::InvalidUri,
        },
{
    let host = match parts {
        Some(p) => match &p.host {
            Some(h) => h.clone(),
            None => return Err(Error::InvalidUri),
        },
        None => return Err(Error::InvalidUri),
    };
    let body: Vec<u8> = Vec::new();
    let json = "application/activity+json";
    let mut headers: Vec<Header> = Vec::new();
    headers.push(Header { name: String::from_str("host"), value: host });
    headers.push(Header { name: String::from_str("content-type"), value: String::from_str(json) });
    headers.push(Header { name: String::from_str("date"), value: http_date(date) });
    headers.push(Header { name: String::from_str("accept"), value: String::from_str(json) });
    headers.push(Header { name: String::from_str("digest"), value: digest_header(&body) });
    let request = Envelope {
        method: String::from_str("GET"),
        uri: String::from_str(uri),
        headers,
        body,
    };
    assert(request@.headers =~= fetch_headers(opt_parts(*parts).unwrap().host.unwrap(), date@));
    Ok(request)
}

/// The request with one more header, `signature`, of the given value.
pub open spec fn with_signature(request: EnvelopeView, signature: Seq<char>) -> EnvelopeView {
    EnvelopeView { headers: request.headers.push(("signature"@, signature)), ..request }
}

/// Adds the header `signature` with the given value to `request`.
pub fn attach_signature(request: Envelope, signature: String) -> (signed: Envelope)
    ensures
        signed@ == with_signature(request@, signature@),
{
    let mut signed = request;
    signed.headers.push(Header { name: String::from_str("signature"), value: signature });
    assert(signed@.headers =~= request@.headers.push(("signature"@, signature@)));
    signed
}

/// The values of a result that holds a request.
pub open spec fn outcome_view(r: Result<Envelope, Error>) -> Result<EnvelopeView, ErrorView> {
    match r {
        Ok(request) => Ok(request@),
        Err(e) => Err(e@),
    }
}

/// What signing `request` with `key` in the name of `key_id` gives: the
/// request with one more header, `signature`. A request that carries too
/// many headers or cannot be built is an `HttpReq` error, one that cannot be
/// signed a `Signature` error.
pub open spec fn signed(request: EnvelopeView, key: sigh::PrivateKey, key_id: Seq<char>) -> Result<
    EnvelopeView,
    ErrorView,
> {
    if !signable(request) {
        Err(ErrorView::HttpReq)
    } else {
        match signature_text(key, key_id, request.method, request.uri, request.headers) {
            Some(signature) => Ok(with_signature(request, signature)),
            None => Err(ErrorView::Signature),
        }
    }
}

/// What signing an unsigned request gives, where there is one; where there
/// is none, the address was no URL or had no host, and the error is
/// `InvalidUri`.
pub open spec fn signed_or_invalid(
    unsigned: Option<EnvelopeView>,
    key: sigh::PrivateKey,
    key_id: Seq<char>,
) -> Result<EnvelopeView, ErrorView> {
    match unsigned {
        Some(request) => signed(request, key, key_id),
        None => Err(ErrorView::InvalidUri),
    }
}

/// Signs `request` in the name of `key_id`: the request comes back with one
/// more header, `signature`. A request that carries too many headers or
/// cannot be built gives `HttpReq`, one that cannot be signed gives
/// `Signature`.
pub fn sign(request: Envelope, key_id: &str, private_key: &sigh::PrivateKey) -> (done: Result<
    Envelope,
    Error,
>)
    ensures
        outcome_view(done) == signed(request@, *private_key, key_id@),
{
    match signature_of(&request, key_id, private_key) {
        Ok(signature) => Ok(attach_signature(request, signature)),
        Err(e) => Err(e),
    }
}

/// The signed request that posts `body` to `uri` at the time `date` in the
/// name of `key_id`, given what parsing `uri` gave.
pub fn prepare(
    uri: &str,
    parts: &Option<UriParts>,
    key_id: &str,
    private_key: &sigh::PrivateKey,
    body: Vec<u8>,
    date: &str,
) -> (request: Result<Envelope, Error>)
    ensures
        outcome_view(request) == signed_or_invalid(
            delivery_request(uri@, opt_parts(*parts), body@, date@),
            *private_key,
            key_id@,
        ),
{
    match build(uri, parts, body, date) {
        Ok(unsigned) => sign(unsigned, key_id, private_key),
        Err(e) => Err(e),
    }
}

/// Whether `done` is what posting `body` to `uri` in the name of `key_id`
/// gives at some second from the Unix epoch to the end of the year 9999.
pub open spec fn is_delivery(
    uri: Seq<char>,
    key: sigh::PrivateKey,
    key_id: Seq<char>,
    body: Seq<u8>,
    done: Result<EnvelopeView, ErrorView>,
) -> bool {
    exists|second: int|
        0 <= second <= LAST_SECOND && done == signed_or_invalid(
            delivery_request(uri, parsed_uri(uri), body, #[trigger] rfc2822_text(second)),
            key,
            key_id,
        )
}

/// The signed request that posts `body` to `uri` now, in the name of
/// `key_id`: the request is dated with what the system clock reads. An
/// address that is no URL or has no host gives `InvalidUri`; a request that
/// cannot be built gives `HttpReq`, one that cannot be signed gives
/// `Signature`.
pub fn send_raw(uri: &str, key_id: &str, private_key: &sigh::PrivateKey, body: Vec<u8>) -> (request:
    Result<Envelope, Error>)
    ensures
        is_delivery(uri@, *private_key, key_id@, body@, outcome_view(request)),
{
    let parts = parse_uri(uri);
    let reading = seconds_since_epoch();
    let now = date_of_reading(reading);
    assert(now@ == rfc2822_text(dated_second(reading)));
    prepare(uri, &parts, key_id, private_key, body, now.as_str())
}

/// Whether `done` is what asking for the document at `uri` in the name of
/// `key_id` gives at some second from the Unix epoch to the end of the year
/// 9999.
pub open spec fn is_fetch(
    uri: Seq<char>,
    key: sigh::PrivateKey,
    key_id: Seq<char>,
    done: Result<EnvelopeView, ErrorView>,
) -> bool {
    exists|second: int|
        0 <= second <= LAST_SECOND && done == signed_or_invalid(
            fetch_request(uri, parsed_uri(uri), #[trigger] rfc2822_text(second)),
            key,
            key_id,
        )
}

/// The signed request that reads the document at `uri` now, in the name of
/// `key_id`: the request is dated with what the system clock reads. An
/// address that is no URL or has no host gives `InvalidUri`; a request that
/// cannot be built gives `HttpReq`, one that cannot be signed gives
/// `Signature`.
pub fn fetch(uri: &str, key_id: &str, private_key: &sigh::PrivateKey) -> (request: Result<Envelope, Error>)
    ensures
        is_fetch(uri@, *private_key, key_id@, outcome_view(request)),
{
    let parts = parse_uri(uri);
    let reading = seconds_since_epoch();
    let now = date_of_reading(reading);
    assert(now@ == rfc2822_text(dated_second(reading)));
    match build_fetch(uri, &parts, now.as_str()) {
        Ok(unsigned) => sign(unsigned, key_id, private_key),
        Err(e) => Err(e),
    }
}

/// Whether a status code reports success: the codes from 200 up to 299.
pub open spec fn is_success(status: u16) -> bool {
    200 <= status < 300
}

/// What the answer to a delivery means: a status in the 2xx range is
/// success, any other is a `Response` error that carries the body of the
/// answer.
pub fn outcome(status: u16, response: String) -> (done: Result<(), Error>)
    ensures
        match done {
            Ok(_) => is_success(status),
            Err(e) => !is_success(status) && e@ == ErrorView::Response(response@),
        },
{
    if 200 <= status && status < 300 {
        Ok(())
    } else {
        Err(Error::Response(response))
    }
}

} // verus!
