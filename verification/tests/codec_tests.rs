use base64::Engine;
use opencat::codec::{
    base64std_decode, base64url_decode, base64url_encode, decode, encode, split_segments,
    DecodeError,
};

fn token(header: &[u8], payload: &[u8], sig: &[u8]) -> Vec<u8> {
    encode(header, payload, sig)
}

#[test]
fn codec_round_trip_simple() {
    let t = token(b"{\"alg\":\"ES256\"}", b"{\"sub\":\"u1\"}", b"sigbytes");
    assert_eq!(decode(&t).unwrap(), b"{\"sub\":\"u1\"}".to_vec());
}

#[test]
fn codec_round_trip_all_payload_lengths() {
    for len in 0..32 {
        let payload: Vec<u8> = (0..len).map(|i| (i * 7 + 3) as u8).collect();
        let t = token(b"h", &payload, b"s");
        assert_eq!(decode(&t).unwrap(), payload);
    }
}

#[test]
fn codec_rejects_wrong_segment_counts() {
    assert_eq!(decode(b"onlyonesegment"), Err(DecodeError::MalformedToken));
    assert_eq!(decode(b"two.segments"), Err(DecodeError::MalformedToken));
    assert_eq!(decode(b"a.b.c.d"), Err(DecodeError::MalformedToken));
    assert_eq!(decode(b""), Err(DecodeError::MalformedToken));
    // two dots alone are three empty segments: a degenerate but well-formed
    // token whose payload is empty
    assert_eq!(decode(b".."), Ok(vec![]));
}

#[test]
fn codec_rejects_bad_base64url_middle() {
    // '!' is outside the alphabet; 'A' alone is an impossible length
    assert_eq!(decode(b"aGk.!!!.c2ln"), Err(DecodeError::MalformedToken));
    assert_eq!(decode(b"aGk.A.c2ln"), Err(DecodeError::MalformedToken));
    // padding is not accepted in tokens
    assert_eq!(decode(b"aGk.aGk=.c2ln"), Err(DecodeError::MalformedToken));
}

#[test]
fn split_segments_examples() {
    let (h, p, s) = split_segments(b"aa.bb.cc").unwrap();
    assert_eq!((h, p, s), (b"aa".to_vec(), b"bb".to_vec(), b"cc".to_vec()));
    assert!(split_segments(b"aabbcc").is_none());
    assert!(split_segments(b"aa.bb").is_none());
    assert!(split_segments(b"aa.bb.cc.dd").is_none());
    let (h, p, s) = split_segments(b"..").unwrap();
    assert!(h.is_empty() && p.is_empty() && s.is_empty());
}

#[test]
fn base64url_matches_the_base64_crate() {
    let engine = &base64::engine::general_purpose::URL_SAFE_NO_PAD;
    let mut all: Vec<u8> = (0u16..256).map(|b| b as u8).collect();
    all.extend_from_slice(b"extra tail");
    let samples: Vec<&[u8]> = vec![b"", b"f", b"fo", b"foo", b"foob", b"fooba", b"foobar", &all];
    for s in samples {
        let ours = base64url_encode(s);
        let theirs = engine.encode(s);
        assert_eq!(ours, theirs.as_bytes().to_vec());
        assert_eq!(base64url_decode(theirs.as_bytes()).unwrap(), s.to_vec());
    }
}

#[test]
fn base64url_decode_rejects_what_the_crate_rejects() {
    let engine = &base64::engine::general_purpose::URL_SAFE_NO_PAD;
    // impossible length, bad byte, non-zero trailing bits, padding
    for bad in [&b"A"[..], b"%%%%", b"AB", b"QQ==", b"aGk+"] {
        assert!(base64url_decode(bad).is_none(), "{:?}", bad);
        assert!(engine.decode(bad).is_err(), "{:?}", bad);
    }
}

#[test]
fn base64std_matches_the_base64_crate() {
    let engine = &base64::engine::general_purpose::STANDARD;
    let samples: Vec<&[u8]> = vec![b"", b"f", b"fo", b"foo", b"foob", b"fooba", b"foobar"];
    for s in samples {
        let theirs = engine.encode(s);
        assert_eq!(base64std_decode(theirs.as_bytes()).unwrap(), s.to_vec());
    }
    // missing padding, bad byte, trailing-bit garbage
    for bad in [&b"QQ"[..], b"Q Q=", b"QR==", b"A"] {
        assert!(base64std_decode(bad).is_none(), "{:?}", bad);
        assert!(engine.decode(bad).is_err(), "{:?}", bad);
    }
}
