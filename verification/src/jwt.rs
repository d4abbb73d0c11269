//! JWT SVIDs and the key set they verify under: the texts of header,
//! payload and key set, and what an ES256 key signs and publishes.

use vstd::prelude::*;
use vstd::string::*;
use vstd::utf8::encode_utf8;
use crate::encoding::{
    base64_fits, base64url_encode, base64url_text, json_pretty_text, json_segment, json_string,
    json_string_text,
};
use crate::svid::SvidError;
use crate::text::{signed_decimal_digits, signed_decimal_string};

verus! {

/// Makes a P-256 signing key with `p256::ecdsa::SigningKey::random` on the
/// operating system's generator and hands out its secret scalar, as
/// `to_bytes` serialises it.
#[verifier::external_body]
pub(crate) fn generate_es256_key() -> Vec<u8> {
    let key = p256::ecdsa::SigningKey::random(&mut p256::elliptic_curve::rand_core::OsRng);
    key.to_bytes().to_vec()
}

/// The ES256 signature that the key with secret scalar `secret` gives
/// `message`, as the 64 bytes of `r` and `s`; `None` where the scalar is no
/// key or no signature comes about. Signing is deterministic (RFC 6979).
pub uninterp spec fn es256_signature(secret: Seq<u8>, message: Seq<u8>) -> Option<Seq<u8>>;

/// The affine coordinates of the public point of the key with secret scalar
/// `secret`, each as big-endian bytes; `None` where the scalar is no key.
pub uninterp spec fn es256_public_point(secret: Seq<u8>) -> Option<(Seq<u8>, Seq<u8>)>;

/// Signs with `p256::ecdsa::SigningKey`: the key is read back with
/// `from_slice`, the message is signed with `Signer::try_sign`, and the
/// signature is handed out as `to_bytes` gives it. The result is
/// `es256_signature` of the two arguments.
#[verifier::external_body]
pub(crate) fn es256_sign(secret: &[u8], message: &[u8]) -> (signature: Option<Vec<u8>>)
    ensures
        match es256_signature(secret@, message@) {
            Some(bytes) => signature matches Some(s) && s@ == bytes,
            None => signature is None,
        },
{
    let key = p256::ecdsa::SigningKey::from_slice(secret).ok()?;
    let signed: Result<p256::ecdsa::Signature, _> = p256::ecdsa::signature::Signer::try_sign(
        &key,
        message,
    );
    Some(signed.ok()?.to_bytes().to_vec())
}

/// Reads a `p256::ecdsa::SigningKey` back with `from_slice` and hands out
/// the `x` and `y` of its verifying key's uncompressed encoded point. The
/// result is `es256_public_point` of the scalar.
#[verifier::external_body]
pub(crate) fn es256_point(secret: &[u8]) -> (point: Option<(Vec<u8>, Vec<u8>)>)
    ensures
        match es256_public_point(secret@) {
            Some((x, y)) => point matches Some((px, py)) && px@ == x && py@ == y,
            None => point is None,
        },
{
    let key = p256::ecdsa::SigningKey::from_slice(secret).ok()?;
    let encoded = key.verifying_key().to_encoded_point(false);
    Some((encoded.x()?.to_vec(), encoded.y()?.to_vec()))
}

/// A JWT SVID as the Workload API hands it out.
pub struct JwtSvid {
    pub spiffe_id: String,
    /// The compact token: header, payload and signature, joined by dots.
    pub svid: String,
    pub hint: String,
}

/// What a `JwtSvid` holds.
pub struct JwtSvidView {
    pub spiffe_id: Seq<char>,
    pub svid: Seq<char>,
    pub hint: Seq<char>,
}

impl View for JwtSvid {
    type V = JwtSvidView;

    open spec fn view(&self) -> JwtSvidView {
        JwtSvidView { spiffe_id: self.spiffe_id@, svid: self.svid@, hint: self.hint@ }
    }
}

/// The view of a JWT issuance.
pub open spec fn jwt_result_view(result: Result<JwtSvid, SvidError>) -> Result<
    JwtSvidView,
    SvidError,
> {
    match result {
        Ok(svid) => Ok(svid@),
        Err(e) => Err(e),
    }
}

/// The views of a list of texts.
pub open spec fn audience_view(audience: Seq<String>) -> Seq<Seq<char>> {
    audience.map_values(|s: String| s@)
}

/// The view of a subject that may have been asked for.
pub open spec fn requested_view(requested: Option<&str>) -> Option<Seq<char>> {
    match requested {
        Some(id) => Some(id@),
        None => None,
    }
}

/// The header of a token signed with the key published as `kid`.
pub open spec fn jwt_header_text(kid: Seq<char>) -> Option<Seq<char>> {
    match json_string_text(kid) {
        Some(literal) => Some("{\"alg\":\"ES256\",\"kid\":"@ + literal + ",\"typ\":\"JWT\"}"@),
        None => None,
    }
}

/// The JSON string literals of `items`, separated by commas.
pub open spec fn json_string_list(items: Seq<Seq<char>>) -> Option<Seq<char>>
    decreases items.len(),
{
    if items.len() == 0 {
        Some(Seq::empty())
    } else {
        match (json_string_list(items.drop_last()), json_string_text(items.last())) {
            (Some(before), Some(literal)) => Some(
                if items.len() == 1 {
                    literal
                } else {
                    before + ","@ + literal
                },
            ),
            _ => None,
        }
    }
}

/// The payload of a token: audience, expiry, time of issuance and subject,
/// in that order and without white space.
pub open spec fn jwt_payload_text(
    audience: Seq<Seq<char>>,
    expires_at: int,
    issued_at: int,
    subject: Seq<char>,
) -> Option<Seq<char>> {
    match (json_string_list(audience), json_string_text(subject)) {
        (Some(list), Some(literal)) => Some(
            "{\"aud\":["@ + list + "],\"exp\":"@ + signed_decimal_digits(expires_at)
                + ",\"iat\":"@ + signed_decimal_digits(issued_at) + ",\"sub\":"@ + literal + "}"@,
        ),
        _ => None,
    }
}

/// What a token is signed over: the two encoded segments, joined by a dot.
pub open spec fn signing_input_text(header: Seq<char>, payload: Seq<char>) -> Seq<char> {
    json_segment(header) + "."@ + json_segment(payload)
}

/// The subject of a token: the one asked for, unless none or an empty one
/// was given, in which case it is the authority's workload.
pub open spec fn jwt_subject(requested: Option<Seq<char>>, workload: Seq<char>) -> Seq<char> {
    match requested {
        Some(id) => if id.len() == 0 {
            workload
        } else {
            id
        },
        None => workload,
    }
}

/// The JWT SVID that an authority with the given key issues at `now`.
///
/// An empty audience is refused. The token expires `ttl` seconds after
/// `now`, which is when it is issued; it is the signing input, a dot and
/// the encoded signature over the signing input.
pub open spec fn issued_jwt(
    secret: Seq<u8>,
    kid: Seq<char>,
    workload: Seq<char>,
    ttl: int,
    audience: Seq<Seq<char>>,
    requested: Option<Seq<char>>,
    now: int,
) -> Result<JwtSvidView, SvidError> {
    let subject = jwt_subject(requested, workload);
    if audience.len() == 0 {
        Err(SvidError::EmptyAudience)
    } else if now + ttl > i64::MAX {
        Err(SvidError::ValidityOutOfRange)
    } else {
        match (jwt_header_text(kid), jwt_payload_text(audience, now + ttl, now, subject)) {
            (Some(header), Some(payload)) => if !base64_fits(encode_utf8(header).len())
                || !base64_fits(encode_utf8(payload).len()) {
                Err(SvidError::TooLong)
            } else {
                let input = signing_input_text(header, payload);
                match es256_signature(secret, encode_utf8(input)) {
                    Some(signature) => if !base64_fits(signature.len()) {
                        Err(SvidError::TooLong)
                    } else {
                        Ok(
                            JwtSvidView {
                                spiffe_id: subject,
                                svid: input + "."@ + base64url_text(signature),
                                hint: Seq::empty(),
                            },
                        )
                    },
                    None => Err(SvidError::Signature),
                }
            },
            _ => Err(SvidError::Encoding),
        }
    }
}

/// The key set in one line: a single elliptic-curve key on P-256, with its
/// members in alphabetical order.
pub open spec fn jwks_compact_text(kid: Seq<char>, x: Seq<u8>, y: Seq<u8>) -> Option<Seq<char>> {
    match json_string_text(kid) {
        Some(literal) => Some(
            "{\"keys\":[{\"crv\":\"P-256\",\"kid\":"@ + literal + ",\"kty\":\"EC\",\"x\":\""@
                + base64url_text(x) + "\",\"y\":\""@ + base64url_text(y) + "\"}]}"@,
        ),
        None => None,
    }
}

/// The key set document of an authority: the one-line key set for the
/// public point of its key, laid out with indentation, as UTF-8 bytes.
pub open spec fn jwks_document(secret: Seq<u8>, kid: Seq<char>) -> Result<Seq<u8>, SvidError> {
    match es256_public_point(secret) {
        Some((x, y)) => if !base64_fits(x.len()) || !base64_fits(y.len()) {
            Err(SvidError::TooLong)
        } else {
            match jwks_compact_text(kid, x, y) {
                Some(compact) => match json_pretty_text(encode_utf8(compact)) {
                    Ok(pretty) => Ok(encode_utf8(pretty)),
                    Err(_) => Err(SvidError::Encoding),
                },
                None => Err(SvidError::Encoding),
            }
        },
        None => Err(SvidError::PublicKey),
    }
}

/// Writes the header of a token.
pub fn jwt_header(kid: &str) -> (header: Option<String>)
    ensures
        match jwt_header_text(kid@) {
            Some(text) => header matches Some(h) && h@ == text,
            None => header is None,
        },
{
    let literal = match json_string(kid) {
        Some(literal) => literal,
        None => {
            return None;
        },
    };
    let mut header = String::from_str("{\"alg\":\"ES256\",\"kid\":");
    header.append(literal.as_str());
    header.append(",\"typ\":\"JWT\"}");
    Some(header)
}

/// Writes texts as JSON string literals, separated by commas.
pub fn json_strings(items: &[String]) -> (list: Option<String>)
    ensures
        match json_string_list(audience_view(items@)) {
            Some(text) => list matches Some(l) && l@ == text,
            None => list is None,
        },
{
    let ghost views = audience_view(items@);
    let mut list = String::new();
    let mut i: usize = 0;
    assert(views.take(0) =~= Seq::empty());
    while i < items.len()
        invariant
            i <= items@.len(),
            views == audience_view(items@),
            json_string_list(views.take(i as int)) == Some(list@),
        decreases items@.len() - i,
    {
        proof {
            assert(views.take(i as int + 1).drop_last() =~= views.take(i as int));
            assert(views.take(i as int + 1).last() == items@[i as int]@);
            reveal_strlit(",");
        }
        match json_string(items[i].as_str()) {
            Some(literal) => {
                if i > 0 {
                    list.append(",");
                }
                list.append(literal.as_str());
                proof {
                    if i == 0 {
                        assert(list@ =~= literal@);
                    }
                }
            },
            None => {
                proof {
                    lemma_list_fails_later(views, i as int + 1, views.len() as int);
                    assert(views.take(views.len() as int) =~= views);
                }
                return None;
            },
        }
        i += 1;
    }
    assert(views.take(i as int) =~= views);
    Some(list)
}

/// Once a prefix of a list cannot be written, no longer prefix can.
proof fn lemma_list_fails_later(items: Seq<Seq<char>>, k: int, n: int)
    requires
        0 <= k <= n <= items.len(),
        json_string_list(items.take(k)) is None,
    ensures
        json_string_list(items.take(n)) is None,
    decreases n - k,
{
    if k < n {
        assert(items.take(k + 1).drop_last() =~= items.take(k));
        lemma_list_fails_later(items, k + 1, n);
    }
}

/// Writes the payload of a token.
pub fn jwt_payload(audience: &[String], expires_at: i64, issued_at: i64, subject: &str) -> (payload:
    Option<String>)
    ensures
        match jwt_payload_text(
            audience_view(audience@),
            expires_at as int,
            issued_at as int,
            subject@,
        ) {
            Some(text) => payload matches Some(p) && p@ == text,
            None => payload is None,
        },
{
    let list = match json_strings(audience) {
        Some(list) => list,
        None => {
            return None;
        },
    };
    let literal = match json_string(subject) {
        Some(literal) => literal,
        None => {
            return None;
        },
    };
    let mut payload = String::from_str("{\"aud\":[");
    payload.append(list.as_str());
    payload.append("],\"exp\":");
    payload.append(signed_decimal_string(expires_at).as_str());
    payload.append(",\"iat\":");
    payload.append(signed_decimal_string(issued_at).as_str());
    payload.append(",\"sub\":");
    payload.append(literal.as_str());
    payload.append("}");
    Some(payload)
}

/// Writes the key set in one line.
pub fn jwks_compact(kid: &str, x: &[u8], y: &[u8]) -> (compact: Option<String>)
    requires
        base64_fits(x@.len()),
        base64_fits(y@.len()),
    ensures
        match jwks_compact_text(kid@, x@, y@) {
            Some(text) => compact matches Some(c) && c@ == text,
            None => compact is None,
        },
{
    let literal = match json_string(kid) {
        Some(literal) => literal,
        None => {
            return None;
        },
    };
    let mut compact = String::from_str("{\"keys\":[{\"crv\":\"P-256\",\"kid\":");
    compact.append(literal.as_str());
    compact.append(",\"kty\":\"EC\",\"x\":\"");
    compact.append(base64url_encode(x).as_str());
    compact.append("\",\"y\":\"");
    compact.append(base64url_encode(y).as_str());
    compact.append("\"}]}");
    Some(compact)
}

/// Every token that is issued names the subject that was asked for, or the
/// authority's workload where none was, carries a payload that expires
/// exactly `ttl` seconds after it was issued, and is the signing input, a
/// dot and an encoded signature.
pub proof fn lemma_issued_jwt(
    secret: Seq<u8>,
    kid: Seq<char>,
    workload: Seq<char>,
    ttl: int,
    audience: Seq<Seq<char>>,
    requested: Option<Seq<char>>,
    now: int,
)
    ensures
        issued_jwt(secret, kid, workload, ttl, audience, requested, now) matches Ok(svid) ==> {
            let subject = jwt_subject(requested, workload);
            &&& audience.len() > 0
            &&& svid.spiffe_id == subject
            &&& requested is None ==> svid.spiffe_id == workload
            &&& exists|header: Seq<char>, payload: Seq<char>, signature: Seq<u8>|
                #![trigger signing_input_text(header, payload), base64url_text(signature)]
                {
                    &&& jwt_header_text(kid) == Some(header)
                    &&& jwt_payload_text(audience, now + ttl, now, subject) == Some(payload)
                    &&& svid.svid == signing_input_text(header, payload) + "."@ + base64url_text(
                        signature,
                    )
                }
        },
{
    if let Ok(svid) = issued_jwt(secret, kid, workload, ttl, audience, requested, now) {
        let subject = jwt_subject(requested, workload);
        let header = jwt_header_text(kid).unwrap();
        let payload = jwt_payload_text(audience, now + ttl, now, subject).unwrap();
        let input = signing_input_text(header, payload);
        let signature = es256_signature(secret, encode_utf8(input)).unwrap();
        assert(svid.svid == signing_input_text(header, payload) + "."@ + base64url_text(signature));
    }
}

} // verus!
