//! Signing HTTP requests and checking their signatures: the trusted calls,
//! and what the relay makes of their results.
use vstd::prelude::*;
use crate::error::{Error, ErrorView};
use crate::send::{Envelope, EnvelopeView, Header, digest_header, digest_text, header_views};
use crate::text::str_eq;
use crate::uri::{lowercase, lowercased, opt_text};

verus! {

/// A private key of the `sigh` crate.
#[verifier::external_type_specification]
#[verifier::external_body]
pub struct ExPrivateKey(sigh::PrivateKey);

/// A public key of the `sigh` crate.
#[verifier::external_type_specification]
#[verifier::external_body]
pub struct ExPublicKey(sigh::PublicKey);

/// The most headers that a request may carry to be signed. The table of
/// headers of the `http` crate cannot grow without end, and a request that
/// is signed gets one header more.
pub const MAX_HEADERS: usize = 1024;

/// Whether `http::request::Builder` makes a request of this method, this
/// address and these headers, or refuses one of them.
pub uninterp spec fn http_accepts(
    method: Seq<char>,
    uri: Seq<char>,
    headers: Seq<(Seq<char>, Seq<char>)>,
) -> bool;

/// What signing a request of this method, this address and these headers
/// with `key` in the name of `key_id` gives, under the algorithm
/// `rsa-sha256`: the value of the `signature` header, or nothing where there
/// is no such request or it cannot be signed.
pub uninterp spec fn signature_text(
    key: sigh::PrivateKey,
    key_id: Seq<char>,
    method: Seq<char>,
    uri: Seq<char>,
    headers: Seq<(Seq<char>, Seq<char>)>,
) -> Option<Seq<char>>;

/// What `sigh::Signature::key_id` reads out of a request with these
/// headers: the `keyId` of its `Signature` header, or nothing where the
/// headers make no request, hold no such header, or the header names no key.
pub uninterp spec fn signer_key_id(headers: Seq<(Seq<char>, Seq<char>)>) -> Option<Seq<char>>;

/// Whether the `Signature` header of a request of this method, this address
/// and these headers verifies against the public key that `pem` holds.
/// There is no verdict where `pem` holds no key, where there is no such
/// request, or where the header cannot be read.
pub uninterp spec fn signature_verdict(
    pem: Seq<char>,
    method: Seq<char>,
    uri: Seq<char>,
    headers: Seq<(Seq<char>, Seq<char>)>,
) -> Option<bool>;

/// The PEM form of a public key, or nothing where the key cannot be
/// written.
pub uninterp spec fn key_pem(key: sigh::PublicKey) -> Option<Seq<char>>;

/// Whether a text in PEM form holds a public key.
pub uninterp spec fn pem_holds_key(pem: Seq<char>) -> bool;

/// Asks `http::request::Builder` for a request without a body, of the
/// method, the address and the headers of `request`. Trusted: the answer is
/// whether the builder accepts every part, which [`http_accepts`] names.
#[verifier::external_body]
pub(crate) fn http_builds(request: &Envelope) -> (builds: bool)
    ensures
        builds == http_accepts(request@.method, request@.uri, request@.headers),
{
    let mut builder = http::Request::builder().method(request.method.as_str()).uri(
        request.uri.as_str(),
    );
    for header in request.headers.iter() {
        builder = builder.header(header.name.as_str(), header.value.as_str());
    }
    builder.body(()).is_ok()
}

/// Builds an `http::Request` from `request`, signs it in the name of
/// `key_id` with `sigh::SigningConfig::sign` under the algorithm
/// `rsa-sha256`, and reads the `signature` header that the signing adds. The
/// signing adds a header to the table and panics where the table cannot
/// grow, which the bound on the headers rules out. Trusted: the result is
/// the value that [`signature_text`] names.
#[verifier::external_body]
pub(crate) fn signature_header(
    request: &Envelope,
    key_id: &str,
    private_key: &sigh::PrivateKey,
) -> (signature: Option<String>)
    requires
        request@.headers.len() <= MAX_HEADERS,
    ensures
        opt_text(signature) == signature_text(
            *private_key,
            key_id@,
            request@.method,
            request@.uri,
            request@.headers,
        ),
{
    let mut builder = http::Request::builder().method(request.method.as_str()).uri(
        request.uri.as_str(),
    );
    for header in request.headers.iter() {
        builder = builder.header(header.name.as_str(), header.value.as_str());
    }
    let mut built = builder.body(()).ok()?;
    sigh::SigningConfig::new(sigh::alg::RsaSha256, private_key, key_id).sign(&mut built).ok()?;
    built.headers().get("signature")?.to_str().ok().map(String::from)
}

/// Builds an `http::Request` that carries `headers` and reads the `keyId`
/// of its `Signature` header with `sigh::Signature::key_id`. Trusted: the
/// result is the value that [`signer_key_id`] names for these headers.
#[verifier::external_body]
pub(crate) fn signature_key_id(headers: &Vec<Header>) -> (key_id: Option<String>)
    ensures
        opt_text(key_id) == signer_key_id(header_views(headers@)),
{
    let mut builder = http::Request::builder();
    for header in headers.iter() {
        builder = builder.header(header.name.as_str(), header.value.as_str());
    }
    let built = builder.body(()).ok()?;
    sigh::Signature::from(&built).key_id().map(String::from)
}

/// Reads the public key out of `pem` with `from_pem` of `sigh::Key`, builds
/// an `http::Request` from `request` and checks its `Signature` header
/// against the key with `sigh::Signature::verify`. Trusted: the result is
/// the verdict that [`signature_verdict`] names.
#[verifier::external_body]
pub(crate) fn verdict_on(request: &Envelope, pem: &str) -> (verdict: Option<bool>)
    ensures
        verdict == signature_verdict(pem@, request@.method, request@.uri, request@.headers),
{
    let key = <sigh::PublicKey as sigh::Key>::from_pem(pem.as_bytes()).ok()?;
    let mut builder = http::Request::builder().method(request.method.as_str()).uri(
        request.uri.as_str(),
    );
    for header in request.headers.iter() {
        builder = builder.header(header.name.as_str(), header.value.as_str());
    }
    let built = builder.body(()).ok()?;
    sigh::Signature::from(&built).verify(&key).ok()
}

/// Reads a public key in PEM form with `from_pem` of `sigh::Key`. Trusted:
/// there is a key exactly where the text holds one, which [`pem_holds_key`]
/// names. Nothing else is promised of the key.
#[verifier::external_body]
pub(crate) fn public_key_from_pem(pem: &str) -> (key: Option<sigh::PublicKey>)
    ensures
        key is Some <==> pem_holds_key(pem@),
{
    <sigh::PublicKey as sigh::Key>::from_pem(pem.as_bytes()).ok()
}

/// Writes a public key in PEM form with `to_pem` of `sigh::Key`. Trusted:
/// the result is the text that [`key_pem`] names for the key.
#[verifier::external_body]
pub(crate) fn public_key_pem(key: &sigh::PublicKey) -> (pem: Option<String>)
    ensures
        opt_text(pem) == key_pem(*key),
{
    sigh::Key::to_pem(key).ok()
}

/// What there is, or a `Signature` error where there is nothing: the
/// error for a key, a signature or a header that could not be made or read.
pub fn or_signature_error<T>(found: Option<T>) -> (done: Result<T, Error>)
    ensures
        match found {
            Some(value) => done == Ok::<T, Error>(value),
            None => done matches Err(e) && e@ == ErrorView::Signature,
        },
{
    match found {
        Some(value) => Ok(value),
        None => Err(Error::Signature),
    }
}

/// Whether a request can be signed: it carries no more headers than
/// [`MAX_HEADERS`], and its method, its address and its headers make a
/// request.
pub open spec fn signable(request: EnvelopeView) -> bool {
    request.headers.len() <= MAX_HEADERS && http_accepts(
        request.method,
        request.uri,
        request.headers,
    )
}

/// The value of the `signature` header with which `request` is signed in
/// the name of `key_id`. A request that carries too many headers or cannot
/// be built gives `HttpReq`, and only such a request does; one that cannot
/// be signed gives `Signature`.
pub fn signature_of(request: &Envelope, key_id: &str, private_key: &sigh::PrivateKey) -> (signature:
    Result<String, Error>)
    ensures
        match signature {
            Ok(s) => signable(request@) && signature_text(
                *private_key,
                key_id@,
                request@.method,
                request@.uri,
                request@.headers,
            ) == Some(s@),
            Err(e) => if signable(request@) {
                e@ == ErrorView::Signature && signature_text(
                    *private_key,
                    key_id@,
                    request@.method,
                    request@.uri,
                    request@.headers,
                ) is None
            } else {
                e@ == ErrorView::HttpReq
            },
        },
{
    assert(request@.headers.len() == request.headers@.len());
    if request.headers.len() > MAX_HEADERS || !http_builds(request) {
        return Err(Error::HttpReq);
    }
    or_signature_error(signature_header(request, key_id, private_key))
}

/// The public key of `pem`, or `Signature` where `pem` holds none.
pub fn read_public_key(pem: &str) -> (key: Result<sigh::PublicKey, Error>)
    ensures
        match key {
            Ok(_) => pem_holds_key(pem@),
            Err(e) => !pem_holds_key(pem@) && e@ == ErrorView::Signature,
        },
{
    or_signature_error(public_key_from_pem(pem))
}

/// The key in PEM form, or `Signature` where it cannot be written.
pub fn write_public_key(key: &sigh::PublicKey) -> (pem: Result<String, Error>)
    ensures
        match pem {
            Ok(text) => key_pem(*key) == Some(text@),
            Err(e) => key_pem(*key) is None && e@ == ErrorView::Signature,
        },
{
    or_signature_error(public_key_pem(key))
}

/// What a verdict on a signature means: a signature that verifies is fine,
/// one that does not is a `SignatureFail`, and a signature that could not be
/// checked at all is a `Signature` error.
pub fn judge(verdict: Option<bool>) -> (done: Result<(), Error>)
    ensures
        match verdict {
            Some(true) => done is Ok,
            Some(false) => done matches Err(e) && e@ == ErrorView::SignatureFail,
            None => done matches Err(e) && e@ == ErrorView::Signature,
        },
{
    match verdict {
        Some(true) => Ok(()),
        Some(false) => Err(Error::SignatureFail),
        None => Err(Error::Signature),
    }
}

/// The address of the key that `request` says it is signed with: the
/// `keyId` of its `Signature` header, which is the address of the document
/// in which the signer publishes that key. There is none where the headers
/// make no request, hold no such header, or the header names no key.
pub fn key_id(request: &Envelope) -> (key_id: Option<String>)
    ensures
        opt_text(key_id) == signer_key_id(request@.headers),
{
    signature_key_id(&request.headers)
}

/// The value of the first of `headers` that is named `digest`, in whatever
/// case the name is written.
pub open spec fn digest_named(headers: Seq<(Seq<char>, Seq<char>)>) -> Option<Seq<char>>
    decreases headers.len(),
{
    if headers.len() == 0 {
        None
    } else if lowercased(headers[0].0) == "digest"@ {
        Some(headers[0].1)
    } else {
        digest_named(headers.drop_first())
    }
}

/// Whether the `digest` header of a request is the digest of its body.
pub open spec fn covers_body(request: EnvelopeView) -> bool {
    digest_named(request.headers) == Some(digest_text(request.body))
}

/// Whether the `digest` header of `request` is the digest of its body. A
/// request without such a header does not cover its body.
pub fn body_is_covered(request: &Envelope) -> (covered: bool)
    ensures
        covered == covers_body(request@),
{
    let ghost all = request@.headers;
    let mut i: usize = 0;
    assert(all.skip(0) =~= all);
    while i < request.headers.len()
        invariant
            i <= request.headers.len(),
            all == request@.headers,
            digest_named(all.skip(i as int)) == digest_named(all),
        decreases request.headers.len() - i,
    {
        proof {
            assert(all.skip(i as int).drop_first() =~= all.skip(i + 1));
            assert(all.skip(i as int)[0] == all[i as int]);
        }
        let name = lowercase(request.headers[i].name.as_str());
        if str_eq(name.as_str(), "digest") {
            let digest = digest_header(&request.body);
            return str_eq(request.headers[i].value.as_str(), digest.as_str());
        }
        i += 1;
    }
    false
}

/// What checking a request against the public key in `pem` gives. A request
/// that cannot be built is an `HttpReq` error. Of a request that can be
/// built, the signature has to verify and the `digest` header has to be the
/// digest of the body; where either fails the error is `SignatureFail`, and
/// where the key or the signature cannot be read it is `Signature`.
pub open spec fn checked(request: EnvelopeView, pem: Seq<char>) -> Result<(), ErrorView> {
    if !http_accepts(request.method, request.uri, request.headers) {
        Err(ErrorView::HttpReq)
    } else {
        match signature_verdict(pem, request.method, request.uri, request.headers) {
            None => Err(ErrorView::Signature),
            Some(false) => Err(ErrorView::SignatureFail),
            Some(true) => if covers_body(request) {
                Ok(())
            } else {
                Err(ErrorView::SignatureFail)
            },
        }
    }
}

/// Checks `request` against the public key that the signer publishes,
/// given in PEM form: the signature over its headers, and the `digest`
/// header against its body.
pub fn verify(request: &Envelope, public_key_pem: &str) -> (done: Result<(), Error>)
    ensures
        match done {
            Ok(_) => checked(request@, public_key_pem@) is Ok,
            Err(e) => checked(request@, public_key_pem@) == Err::<(), ErrorView>(e@),
        },
{
    if !http_builds(request) {
        return Err(Error::HttpReq);
    }
    match judge(verdict_on(request, public_key_pem)) {
        Ok(_) => if body_is_covered(request) {
            Ok(())
        } else {
            Err(Error::SignatureFail)
        },
        Err(e) => Err(e),
    }
}

} // verus!
