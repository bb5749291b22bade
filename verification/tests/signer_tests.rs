use opencat::codec::decode;
use opencat::errors::SigningError;
use opencat::signer::{
    apple_api_token, apple_claims, connect_api_token, dec_digits, google_assertion, google_claims,
    header_json, json_string_bytes, SignAlg, APPLE_API_TOKEN_LIFETIME, CONNECT_TOKEN_LIFETIME,
    GOOGLE_ASSERTION_LIFETIME,
};

// Throwaway keys minted for these tests; they guard nothing.
const EC_TEST_KEY: &str = "SECRET-REDACTED\n";

const RSA_TEST_KEY: &str = "SECRET-REDACTED\n";

#[test]
fn decimal_digits() {
    assert_eq!(dec_digits(0), b"0".to_vec());
    assert_eq!(dec_digits(7), b"7".to_vec());
    assert_eq!(dec_digits(1204), b"1204".to_vec());
    assert_eq!(dec_digits(u64::MAX), b"18446744073709551615".to_vec());
}

#[test]
fn json_string_escaping() {
    assert_eq!(json_string_bytes("plain"), b"\"plain\"".to_vec());
    assert_eq!(json_string_bytes("a\"b"), b"\"a\\\"b\"".to_vec());
    assert_eq!(json_string_bytes("a\\b"), b"\"a\\\\b\"".to_vec());
    assert_eq!(json_string_bytes("a\nb"), b"\"a\\u000ab\"".to_vec());
    assert_eq!(json_string_bytes("\u{1f}"), b"\"\\u001f\"".to_vec());
}

#[test]
fn apple_claims_shape() {
    let claims = apple_claims("ISS-1", 100, 3700, Some("com.example.app"));
    assert_eq!(
        String::from_utf8(claims).unwrap(),
        r#"{"iss":"ISS-1","iat":100,"exp":3700,"aud":"appstoreconnect-v1","bid":"com.example.app"}"#
    );
    let no_bid = apple_claims("ISS-1", 100, 1300, None);
    assert_eq!(
        String::from_utf8(no_bid).unwrap(),
        r#"{"iss":"ISS-1","iat":100,"exp":1300,"aud":"appstoreconnect-v1"}"#
    );
}

#[test]
fn google_claims_shape() {
    let claims = google_claims("svc@example.com", "https://oauth2.googleapis.com/token", 5, 3605);
    assert_eq!(
        String::from_utf8(claims).unwrap(),
        r#"{"iss":"svc@example.com","scope":"https://www.googleapis.com/auth/androidpublisher","aud":"https://oauth2.googleapis.com/token","iat":5,"exp":3605}"#
    );
}

#[test]
fn header_shape() {
    assert_eq!(
        String::from_utf8(header_json(&SignAlg::Es256, Some("KEY1"))).unwrap(),
        r#"{"alg":"ES256","typ":"JWT","kid":"KEY1"}"#
    );
    assert_eq!(
        String::from_utf8(header_json(&SignAlg::Rs256, None)).unwrap(),
        r#"{"alg":"RS256","typ":"JWT"}"#
    );
}

// The minting functions sign through the platform's crypto provider, whose
// behaviour (and randomness source) the library deliberately does not pin:
// their contracts promise the claims/token shape only when a token comes
// back, and that is proved, not sampled. The tests below cover everything
// around that call deterministically: the exact bytes each vendor's claims
// are signed over, including the per-vendor lifetimes, the key-material
// validation, and (in the codec tests) the three-segment framing every
// minted token goes through.

#[test]
fn minted_token_lifetimes_in_claims() {
    // the store API token lives an hour
    assert_eq!(APPLE_API_TOKEN_LIFETIME, 3600);
    let claims = apple_claims("ISS-1", 1000, 1000 + APPLE_API_TOKEN_LIFETIME, Some("com.example.app"));
    assert!(String::from_utf8(claims).unwrap().contains("\"iat\":1000,\"exp\":4600"));
    // the catalog API token lives twenty minutes
    assert_eq!(CONNECT_TOKEN_LIFETIME, 1200);
    let claims = apple_claims("ISS-1", 1000, 1000 + CONNECT_TOKEN_LIFETIME, None);
    assert!(String::from_utf8(claims).unwrap().contains("\"iat\":1000,\"exp\":2200"));
    // the service-account assertion lives an hour
    assert_eq!(GOOGLE_ASSERTION_LIFETIME, 3600);
    let claims = google_claims(
        "svc@example.com",
        "https://oauth2.googleapis.com/token",
        50,
        50 + GOOGLE_ASSERTION_LIFETIME,
    );
    assert!(String::from_utf8(claims).unwrap().contains("\"iat\":50,\"exp\":3650"));
}

#[test]
fn token_framing_recovers_signed_claims() {
    // the frame a minted token uses: base64url segments joined by dots, the
    // claims standing as the middle segment
    let header = header_json(&SignAlg::Es256, Some("KEY1"));
    let claims = apple_claims("ISS-1", 1000, 4600, Some("com.example.app"));
    let token = opencat::codec::encode(&header, &claims, b"raw-signature-bytes");
    assert_eq!(decode(&token).unwrap(), claims);
}

#[test]
fn bad_key_material_is_rejected() {
    assert_eq!(
        apple_api_token("ISS-1", "KEY1", "not a pem", "com.example.app", 1000),
        Err(SigningError::InvalidKey)
    );
    assert_eq!(
        connect_api_token("ISS-1", "KEY1", RSA_TEST_KEY, 1000),
        Err(SigningError::InvalidKey)
    );
    assert_eq!(
        google_assertion("svc@example.com", "https://x", "junk", 50),
        Err(SigningError::InvalidKey)
    );
    // key material of the wrong family is invalid too: an EC key cannot
    // sign a service-account assertion
    assert_eq!(
        google_assertion("svc@example.com", "https://x", EC_TEST_KEY, 50),
        Err(SigningError::InvalidKey)
    );
}
