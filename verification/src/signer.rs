//! Vendor credential signer: mints the short-lived bearer assertions both
//! vendors require, from claims built and framed by verified code.
//!
//! Only the raw signature and the key-material parsing are trusted; the
//! claims JSON, the base64url segments and the final token frame are built
//! and specified here, so a minted token provably decodes back to its
//! claims.

use crate::codec;
use crate::errors::SigningError;
use vstd::prelude::*;
use vstd::utf8::encode_utf8;

verus! {

/// Which signature scheme a vendor requires.
#[derive(Clone, Copy, Debug, PartialEq, Eq, Structural)]
pub enum SignAlg {
    Es256,
    Rs256,
}

/// The name a signature scheme carries in a token header.
pub open spec fn spec_alg_name(alg: SignAlg) -> Seq<char> {
    match alg {
        SignAlg::Es256 => "ES256"@,
        SignAlg::Rs256 => "RS256"@,
    }
}

/// The header name of a signature scheme.
pub fn alg_name(alg: &SignAlg) -> (r: &'static str)
    ensures
        r@ == spec_alg_name(*alg),
{
    match alg {
        SignAlg::Es256 => "ES256",
        SignAlg::Rs256 => "RS256",
    }
}

/// The decimal digits of a number, most significant first.
pub open spec fn spec_dec_digits(n: nat) -> Seq<u8>
    decreases n,
{
    if n < 10 {
        seq![(48 + n) as u8]
    } else {
        spec_dec_digits(n / 10) + seq![(48 + n % 10) as u8]
    }
}

/// Writes a number in decimal.
pub fn dec_digits(n: u64) -> (r: Vec<u8>)
    ensures
        r@ == spec_dec_digits(n as nat),
    decreases n,
{
    if n < 10 {
        let mut r: Vec<u8> = Vec::new();
        r.push(48 + n as u8);
        assert(r@ =~= spec_dec_digits(n as nat));
        r
    } else {
        let mut r = dec_digits(n / 10);
        r.push(48 + (n % 10) as u8);
        assert(r@ =~= spec_dec_digits(n as nat));
        r
    }
}

/// How one byte of a JSON string body is written: quote and backslash get a
/// backslash escape, control bytes a `\u00XX` escape, all else stands as is.
pub open spec fn spec_escape_byte(b: u8) -> Seq<u8> {
    if b == 34 {
        seq![92u8, 34u8]
    } else if b == 92 {
        seq![92u8, 92u8]
    } else if b < 32 {
        seq![92u8, 117u8, 48u8, 48u8, spec_hex_digit((b / 16) as int), spec_hex_digit((b % 16) as int)]
    } else {
        seq![b]
    }
}

/// The lower-case hex digit of a four-bit value.
pub open spec fn spec_hex_digit(v: int) -> u8 {
    if v < 10 {
        (48 + v) as u8
    } else {
        (87 + v) as u8
    }
}

/// A byte sequence escaped for a JSON string body.
pub open spec fn spec_json_escape(s: Seq<u8>) -> Seq<u8>
    decreases s.len(),
{
    if s.len() == 0 {
        Seq::empty()
    } else {
        spec_escape_byte(s[0]) + spec_json_escape(s.skip(1))
    }
}

/// Escaping distributes over concatenation.
proof fn lemma_json_escape_append(a: Seq<u8>, b: Seq<u8>)
    ensures
        spec_json_escape(a + b) == spec_json_escape(a) + spec_json_escape(b),
    decreases a.len(),
{
    if a.len() == 0 {
        assert(a + b =~= b);
        assert(spec_json_escape(a) + spec_json_escape(b) =~= spec_json_escape(b));
    } else {
        lemma_json_escape_append(a.skip(1), b);
        assert((a + b).skip(1) =~= a.skip(1) + b);
        assert(spec_json_escape(a + b) =~= spec_json_escape(a) + spec_json_escape(b));
    }
}

/// A JSON string: quotes around the escaped bytes.
pub open spec fn spec_json_string(s: Seq<u8>) -> Seq<u8> {
    seq![34u8] + spec_json_escape(s) + seq![34u8]
}

/// The hex digit of a four-bit value.
fn hex_digit(v: u8) -> (r: u8)
    requires
        v < 16,
    ensures
        r == spec_hex_digit(v as int),
{
    if v < 10 {
        48 + v
    } else {
        87 + v
    }
}

/// Appends the escaped form of one byte.
fn push_escaped(out: &mut Vec<u8>, b: u8)
    ensures
        final(out)@ == old(out)@ + spec_escape_byte(b),
{
    if b == 34 {
        out.push(92);
        out.push(34);
    } else if b == 92 {
        out.push(92);
        out.push(92);
    } else if b < 32 {
        out.push(92);
        out.push(117);
        out.push(48);
        out.push(48);
        out.push(hex_digit(b / 16));
        out.push(hex_digit(b % 16));
    } else {
        out.push(b);
    }
    assert(final(out)@ =~= old(out)@ + spec_escape_byte(b));
}

/// Writes a string as a JSON string literal, escaping its UTF-8 bytes.
pub fn json_string_bytes(s: &str) -> (r: Vec<u8>)
    ensures
        r@ == spec_json_string(encode_utf8(s@)),
{
    let bytes = s.as_bytes();
    let n = bytes.len();
    let mut out: Vec<u8> = Vec::new();
    out.push(34);
    let mut i: usize = 0;
    while i < n
        invariant
            0 <= i <= n,
            n == bytes@.len(),
            bytes@ == encode_utf8(s@),
            out@ == seq![34u8] + spec_json_escape(bytes@.take(i as int)),
        decreases n - i,
    {
        let ghost prefix = bytes@.take(i as int);
        push_escaped(&mut out, bytes[i]);
        proof {
            let b = bytes@[i as int];
            lemma_json_escape_append(prefix, seq![b]);
            assert(bytes@.take(i + 1) =~= prefix + seq![b]);
            assert(seq![b].len() == 1 && seq![b][0] == b);
            assert(seq![b].skip(1) =~= Seq::<u8>::empty());
            assert(spec_json_escape(seq![b]) == spec_escape_byte(seq![b][0]) + spec_json_escape(
                seq![b].skip(1),
            ));
            assert(spec_json_escape(seq![b]) =~= spec_escape_byte(b));
            assert(out@ =~= seq![34u8] + spec_json_escape(bytes@.take(i + 1)));
        }
        i = i + 1;
    }
    out.push(34);
    proof {
        assert(bytes@.take(n as int) =~= bytes@);
        assert(out@ =~= spec_json_string(encode_utf8(s@)));
    }
    out
}

/// The claims both Apple APIs share: issuer, issue and expiry times, the
/// fixed audience, and for the store API the bundle id.
pub open spec fn spec_apple_claims(
    issuer_id: Seq<char>,
    iat: nat,
    exp: nat,
    bundle_id: Option<Seq<char>>,
) -> Seq<u8> {
    encode_utf8("{\"iss\":"@) + spec_json_string(encode_utf8(issuer_id)) + encode_utf8(
        ",\"iat\":"@,
    ) + spec_dec_digits(iat) + encode_utf8(",\"exp\":"@) + spec_dec_digits(exp) + encode_utf8(
        ",\"aud\":\"appstoreconnect-v1\""@,
    ) + (match bundle_id {
        Some(bid) => encode_utf8(",\"bid\":"@) + spec_json_string(encode_utf8(bid)),
        None => Seq::empty(),
    }) + encode_utf8("}"@)
}

/// Writes the claims for the Apple APIs.
pub fn apple_claims(issuer_id: &str, iat: u64, exp: u64, bundle_id: Option<&str>) -> (r: Vec<u8>)
    ensures
        r@ == spec_apple_claims(
            issuer_id@,
            iat as nat,
            exp as nat,
            match bundle_id {
                Some(b) => Some(b@),
                None => None,
            },
        ),
{
    let mut out = "{\"iss\":".as_bytes_vec();
    let mut iss = json_string_bytes(issuer_id);
    out.append(&mut iss);
    let mut p1 = ",\"iat\":".as_bytes_vec();
    out.append(&mut p1);
    let mut d1 = dec_digits(iat);
    out.append(&mut d1);
    let mut p2 = ",\"exp\":".as_bytes_vec();
    out.append(&mut p2);
    let mut d2 = dec_digits(exp);
    out.append(&mut d2);
    let mut p3 = ",\"aud\":\"appstoreconnect-v1\"".as_bytes_vec();
    out.append(&mut p3);
    match bundle_id {
        Some(bid) => {
            let mut p4 = ",\"bid\":".as_bytes_vec();
            out.append(&mut p4);
            let mut b = json_string_bytes(bid);
            out.append(&mut b);
        },
        None => {},
    }
    let mut p5 = "}".as_bytes_vec();
    out.append(&mut p5);
    proof {
        assert(out@ =~= spec_apple_claims(
            issuer_id@,
            iat as nat,
            exp as nat,
            match bundle_id {
                Some(b) => Some(b@),
                None => None,
            },
        ));
    }
    out
}

/// The claims of a Google service-account assertion: issuer, the publisher
/// scope, the token endpoint as audience, issue and expiry times.
pub open spec fn spec_google_claims(
    client_email: Seq<char>,
    token_uri: Seq<char>,
    iat: nat,
    exp: nat,
) -> Seq<u8> {
    encode_utf8("{\"iss\":"@) + spec_json_string(encode_utf8(client_email)) + encode_utf8(
        ",\"scope\":\"https://www.googleapis.com/auth/androidpublisher\",\"aud\":"@,
    ) + spec_json_string(encode_utf8(token_uri)) + encode_utf8(",\"iat\":"@) + spec_dec_digits(iat)
        + encode_utf8(",\"exp\":"@) + spec_dec_digits(exp) + encode_utf8("}"@)
}

/// Writes the claims for a Google service-account assertion.
pub fn google_claims(client_email: &str, token_uri: &str, iat: u64, exp: u64) -> (r: Vec<u8>)
    ensures
        r@ == spec_google_claims(client_email@, token_uri@, iat as nat, exp as nat),
{
    let mut out = "{\"iss\":".as_bytes_vec();
    let mut iss = json_string_bytes(client_email);
    out.append(&mut iss);
    let mut p1 =
        ",\"scope\":\"https://www.googleapis.com/auth/androidpublisher\",\"aud\":".as_bytes_vec();
    out.append(&mut p1);
    let mut aud = json_string_bytes(token_uri);
    out.append(&mut aud);
    let mut p2 = ",\"iat\":".as_bytes_vec();
    out.append(&mut p2);
    let mut d1 = dec_digits(iat);
    out.append(&mut d1);
    let mut p3 = ",\"exp\":".as_bytes_vec();
    out.append(&mut p3);
    let mut d2 = dec_digits(exp);
    out.append(&mut d2);
    let mut p4 = "}".as_bytes_vec();
    out.append(&mut p4);
    proof {
        assert(out@ =~= spec_google_claims(client_email@, token_uri@, iat as nat, exp as nat));
    }
    out
}

/// A token header: the algorithm name, the fixed type, and the key id where
/// the vendor wants one.
pub open spec fn spec_header_json(alg: SignAlg, key_id: Option<Seq<char>>) -> Seq<u8> {
    encode_utf8("{\"alg\":\""@) + encode_utf8(spec_alg_name(alg)) + encode_utf8(
        "\",\"typ\":\"JWT\""@,
    ) + (match key_id {
        Some(kid) => encode_utf8(",\"kid\":"@) + spec_json_string(encode_utf8(kid)),
        None => Seq::empty(),
    }) + encode_utf8("}"@)
}

/// Writes a token header.
pub fn header_json(alg: &SignAlg, key_id: Option<&str>) -> (r: Vec<u8>)
    ensures
        r@ == spec_header_json(
            *alg,
            match key_id {
                Some(k) => Some(k@),
                None => None,
            },
        ),
{
    let mut out = "{\"alg\":\"".as_bytes_vec();
    let mut a = alg_name(alg).as_bytes_vec();
    out.append(&mut a);
    let mut p1 = "\",\"typ\":\"JWT\"".as_bytes_vec();
    out.append(&mut p1);
    match key_id {
        Some(kid) => {
            let mut p2 = ",\"kid\":".as_bytes_vec();
            out.append(&mut p2);
            let mut k = json_string_bytes(kid);
            out.append(&mut k);
        },
        None => {},
    }
    let mut p3 = "}".as_bytes_vec();
    out.append(&mut p3);
    proof {
        assert(out@ =~= spec_header_json(
            *alg,
            match key_id {
                Some(k) => Some(k@),
                None => None,
            },
        ));
    }
    out
}

#[verifier::external_type_specification]
#[verifier::external_body]
pub struct ExEncodingKey(jsonwebtoken::EncodingKey);

#[verifier::external_type_specification]
#[verifier::external_body]
pub struct ExJwtError(jsonwebtoken::errors::Error);

/// Relies on jsonwebtoken::EncodingKey::from_ec_pem: parses PKCS#8 PEM EC
/// private-key material; errors exactly on invalid material.
#[verifier::external_body]
pub fn ec_key_from_pem(pem: &[u8]) -> (r: Result<
    jsonwebtoken::EncodingKey,
    jsonwebtoken::errors::Error,
>) {
    jsonwebtoken::EncodingKey::from_ec_pem(pem)
}

/// Relies on jsonwebtoken::EncodingKey::from_rsa_pem: parses PEM RSA
/// private-key material; errors exactly on invalid material.
#[verifier::external_body]
pub fn rsa_key_from_pem(pem: &[u8]) -> (r: Result<
    jsonwebtoken::EncodingKey,
    jsonwebtoken::errors::Error,
>) {
    jsonwebtoken::EncodingKey::from_rsa_pem(pem)
}

/// Relies on jsonwebtoken::crypto::sign: signs the message with the key and
/// returns the signature base64url-encoded without padding, so on success
/// the result is the base64url encoding of some raw signature bytes.
#[verifier::external_body]
fn sign_bytes(message: &[u8], key: &jsonwebtoken::EncodingKey, alg: &SignAlg) -> (r: Result<
    String,
    jsonwebtoken::errors::Error,
>)
    ensures
        r matches Ok(sig) ==> exists|raw: Seq<u8>|
            encode_utf8(sig@) == codec::spec_b64_encode(raw),
{
    let algorithm = match alg {
        SignAlg::Es256 => jsonwebtoken::Algorithm::ES256,
        SignAlg::Rs256 => jsonwebtoken::Algorithm::RS256,
    };
    jsonwebtoken::crypto::sign(message, key, algorithm)
}

/// Relies on String::from_utf8: ASCII bytes become the string of exactly
/// those characters.
#[verifier::external_body]
fn ascii_to_string(bytes: Vec<u8>) -> (r: String)
    requires
        forall|i: int| 0 <= i < bytes@.len() ==> bytes@[i] < 128,
    ensures
        r@.len() == bytes@.len(),
        forall|i: int| 0 <= i < bytes@.len() ==> r@[i] == bytes@[i] as char,
        vstd::utf8::is_ascii_chars(r@),
{
    String::from_utf8(bytes).unwrap_or_default()
}

/// Every byte of a base64url encoding is ASCII.
proof fn lemma_b64_encode_ascii(s: Seq<u8>)
    ensures
        forall|i: int|
            0 <= i < codec::spec_b64_encode(s).len() ==> codec::spec_b64_encode(s)[i] < 128,
    decreases s.len(),
{
    if s.len() <= 2 {
    } else {
        lemma_b64_encode_ascii(s.skip(3));
        let e = codec::spec_b64_encode(s);
        assert forall|i: int| 0 <= i < e.len() implies e[i] < 128 by {
            if i >= 4 {
                assert(e[i] == codec::spec_b64_encode(s.skip(3))[i - 4]);
            }
        }
    }
}

/// The lifetime, in seconds, of a token for Apple's transaction-status API.
pub const APPLE_API_TOKEN_LIFETIME: u64 = 3600;

/// The lifetime, in seconds, of a token for Apple's catalog API.
pub const CONNECT_TOKEN_LIFETIME: u64 = 1200;

/// The lifetime, in seconds, of a Google service-account assertion.
pub const GOOGLE_ASSERTION_LIFETIME: u64 = 3600;

/// Signs `claims_json` under `header_json`: base64url-encodes both, joins
/// them with a dot, signs that input, and appends the encoded signature as
/// the third segment. A minted token therefore decodes back to exactly the
/// claims bytes. Fails only when the signing call does.
pub fn sign_token(
    header_json: &[u8],
    claims_json: &[u8],
    key: &jsonwebtoken::EncodingKey,
    alg: &SignAlg,
) -> (r: Result<String, SigningError>)
    ensures
        r matches Ok(tok) ==> vstd::utf8::is_ascii_chars(tok@) && codec::spec_decode(
            encode_utf8(tok@),
        ) == Some(claims_json@) && exists|raw: Seq<u8>|
            encode_utf8(tok@) == codec::spec_encode(header_json@, claims_json@, raw),
        r matches Err(e) ==> e == SigningError::SigningFailed,
{
    let mut input = codec::base64url_encode(header_json);
    input.push(46);
    let mut ec = codec::base64url_encode(claims_json);
    input.append(&mut ec);
    let sig = match sign_bytes(input.as_slice(), key, alg) {
        Err(_) => {
            return Err(SigningError::SigningFailed);
        },
        Ok(sig) => sig,
    };
    let ghost raw = choose|raw: Seq<u8>| encode_utf8(sig@) == codec::spec_b64_encode(raw);
    let mut token_bytes = input;
    token_bytes.push(46);
    let mut sig_bytes = vstd::slice::slice_to_vec(sig.as_str().as_bytes());
    token_bytes.append(&mut sig_bytes);
    proof {
        assert(token_bytes@ =~= codec::spec_encode(header_json@, claims_json@, raw));
        lemma_b64_encode_ascii(header_json@);
        lemma_b64_encode_ascii(claims_json@);
        lemma_b64_encode_ascii(raw);
        assert forall|i: int| 0 <= i < token_bytes@.len() implies token_bytes@[i] < 128 by {
            let t = token_bytes@;
            let eh = codec::spec_b64_encode(header_json@);
            let ec2 = codec::spec_b64_encode(claims_json@);
            let es = codec::spec_b64_encode(raw);
            if i < eh.len() {
                assert(t[i] == eh[i]);
            } else if i == eh.len() {
                assert(t[i] == 46u8);
            } else if i < eh.len() + 1 + ec2.len() {
                assert(t[i] == ec2[i - eh.len() - 1]);
            } else if i == eh.len() + 1 + ec2.len() {
                assert(t[i] == 46u8);
            } else {
                assert(t[i] == es[i - eh.len() - ec2.len() - 2]);
            }
        }
    }
    let ghost token_view = token_bytes@;
    let tok = ascii_to_string(token_bytes);
    proof {
        vstd::utf8::is_ascii_chars_encode_utf8(tok@);
        assert(encode_utf8(tok@) =~= token_view);
        codec::lemma_encode_decode_round_trip(header_json@, claims_json@, raw);
    }
    Ok(tok)
}

/// Mints a bearer token for Apple's transaction-status API: ES256 over the
/// store claims, valid for an hour from `now`. Fails with `InvalidKey` on
/// bad key material, `SigningFailed` when the signature itself fails; a
/// minted token decodes back to exactly those claims.
pub fn apple_api_token(
    issuer_id: &str,
    key_id: &str,
    private_key: &str,
    bundle_id: &str,
    now: u64,
) -> (r: Result<String, SigningError>)
    requires
        now <= u64::MAX - APPLE_API_TOKEN_LIFETIME,
    ensures
        r matches Ok(tok) ==> codec::spec_decode(encode_utf8(tok@)) == Some(
            spec_apple_claims(
                issuer_id@,
                now as nat,
                (now + APPLE_API_TOKEN_LIFETIME) as nat,
                Some(bundle_id@),
            ),
        ),
{
    let key = match ec_key_from_pem(private_key.as_bytes()) {
        Err(_) => {
            return Err(SigningError::InvalidKey);
        },
        Ok(k) => k,
    };
    let header = header_json(&SignAlg::Es256, Some(key_id));
    let claims = apple_claims(issuer_id, now, now + APPLE_API_TOKEN_LIFETIME, Some(bundle_id));
    sign_token(header.as_slice(), claims.as_slice(), &key, &SignAlg::Es256)
}

/// Mints a bearer token for Apple's catalog API: ES256 over the connect
/// claims (no bundle id), valid for twenty minutes from `now`.
pub fn connect_api_token(issuer_id: &str, key_id: &str, private_key: &str, now: u64) -> (r: Result<
    String,
    SigningError,
>)
    requires
        now <= u64::MAX - CONNECT_TOKEN_LIFETIME,
    ensures
        r matches Ok(tok) ==> codec::spec_decode(encode_utf8(tok@)) == Some(
            spec_apple_claims(issuer_id@, now as nat, (now + CONNECT_TOKEN_LIFETIME) as nat, None),
        ),
{
    let key = match ec_key_from_pem(private_key.as_bytes()) {
        Err(_) => {
            return Err(SigningError::InvalidKey);
        },
        Ok(k) => k,
    };
    let header = header_json(&SignAlg::Es256, Some(key_id));
    let claims = apple_claims(issuer_id, now, now + CONNECT_TOKEN_LIFETIME, None);
    sign_token(header.as_slice(), claims.as_slice(), &key, &SignAlg::Es256)
}

/// Mints a Google service-account assertion: RS256 over the publisher-scope
/// claims, valid for an hour from `now`.
pub fn google_assertion(client_email: &str, token_uri: &str, private_key: &str, now: u64) -> (r:
    Result<String, SigningError>)
    requires
        now <= u64::MAX - GOOGLE_ASSERTION_LIFETIME,
    ensures
        r matches Ok(tok) ==> codec::spec_decode(encode_utf8(tok@)) == Some(
            spec_google_claims(
                client_email@,
                token_uri@,
                now as nat,
                (now + GOOGLE_ASSERTION_LIFETIME) as nat,
            ),
        ),
{
    let key = match rsa_key_from_pem(private_key.as_bytes()) {
        Err(_) => {
            return Err(SigningError::InvalidKey);
        },
        Ok(k) => k,
    };
    let header = header_json(&SignAlg::Rs256, None);
    let claims = google_claims(client_email, token_uri, now, now + GOOGLE_ASSERTION_LIFETIME);
    sign_token(header.as_slice(), claims.as_slice(), &key, &SignAlg::Rs256)
}

} // verus!
