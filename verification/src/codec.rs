//! Signed-payload codec: framing and base64url (no padding) for the
//! three-segment `header.payload.signature` tokens that both vendors use.
//!
//! The codec does not verify the signature segment; callers rely on transport
//! trust to the vendor's own endpoints.

use vstd::prelude::*;

verus! {

/// The byte of the base64url alphabet that stands for a six-bit value.
pub open spec fn b64_char(v: int) -> u8 {
    if 0 <= v < 26 {
        (v + 65) as u8  // 'A'..'Z'
    } else if 26 <= v < 52 {
        (v + 71) as u8  // 'a'..'z'
    } else if 52 <= v < 62 {
        (v - 4) as u8  // '0'..'9'
    } else if v == 62 {
        45u8  // '-'
    } else {
        95u8  // '_'
    }
}

/// The six-bit value of a base64url alphabet byte, or -1 for a byte outside
/// the alphabet.
pub open spec fn b64_val(b: u8) -> int {
    if 65 <= b <= 90 {
        b - 65
    } else if 97 <= b <= 122 {
        b - 71
    } else if 48 <= b <= 57 {
        b + 4
    } else if b == 45 {
        62
    } else if b == 95 {
        63
    } else {
        -1
    }
}

/// base64url encoding without padding, as a function on byte sequences.
pub open spec fn spec_b64_encode(s: Seq<u8>) -> Seq<u8>
    decreases s.len(),
{
    if s.len() == 0 {
        Seq::empty()
    } else if s.len() == 1 {
        let b0 = s[0] as int;
        seq![b64_char(b0 / 4), b64_char((b0 % 4) * 16)]
    } else if s.len() == 2 {
        let b0 = s[0] as int;
        let b1 = s[1] as int;
        seq![b64_char(b0 / 4), b64_char((b0 % 4) * 16 + b1 / 16), b64_char((b1 % 16) * 4)]
    } else {
        let b0 = s[0] as int;
        let b1 = s[1] as int;
        let b2 = s[2] as int;
        seq![
            b64_char(b0 / 4),
            b64_char((b0 % 4) * 16 + b1 / 16),
            b64_char((b1 % 16) * 4 + b2 / 64),
            b64_char(b2 % 64),
        ] + spec_b64_encode(s.skip(3))
    }
}

/// base64url decoding without padding: `Some` exactly on canonical encodings
/// (alphabet bytes only, length not 1 modulo 4, unused trailing bits zero).
pub open spec fn spec_b64_decode(s: Seq<u8>) -> Option<Seq<u8>>
    decreases s.len(),
{
    if s.len() == 0 {
        Some(Seq::empty())
    } else if s.len() == 1 {
        None
    } else if s.len() == 2 {
        let v0 = b64_val(s[0]);
        let v1 = b64_val(s[1]);
        if v0 >= 0 && v1 >= 0 && v1 % 16 == 0 {
            Some(seq![(v0 * 4 + v1 / 16) as u8])
        } else {
            None
        }
    } else if s.len() == 3 {
        let v0 = b64_val(s[0]);
        let v1 = b64_val(s[1]);
        let v2 = b64_val(s[2]);
        if v0 >= 0 && v1 >= 0 && v2 >= 0 && v2 % 4 == 0 {
            Some(seq![(v0 * 4 + v1 / 16) as u8, ((v1 % 16) * 16 + v2 / 4) as u8])
        } else {
            None
        }
    } else {
        let v0 = b64_val(s[0]);
        let v1 = b64_val(s[1]);
        let v2 = b64_val(s[2]);
        let v3 = b64_val(s[3]);
        if v0 >= 0 && v1 >= 0 && v2 >= 0 && v3 >= 0 {
            match spec_b64_decode(s.skip(4)) {
                Some(rest) => Some(
                    seq![
                        (v0 * 4 + v1 / 16) as u8,
                        ((v1 % 16) * 16 + v2 / 4) as u8,
                        ((v2 % 4) * 64 + v3) as u8,
                    ] + rest,
                ),
                None => None,
            }
        } else {
            None
        }
    }
}

/// The alphabet map and its inverse cancel on six-bit values.
proof fn lemma_b64_val_char(v: int)
    requires
        0 <= v < 64,
    ensures
        b64_val(b64_char(v)) == v,
{
}

/// Every alphabet byte has a non-negative value; in particular no encoding
/// byte is a dot.
proof fn lemma_b64_char_in_alphabet(v: int)
    requires
        0 <= v < 64,
    ensures
        b64_val(b64_char(v)) >= 0,
        b64_char(v) != 46u8,
{
}

/// Decoding undoes encoding: every byte sequence is recovered exactly from
/// its base64url form.
pub proof fn lemma_b64_round_trip(s: Seq<u8>)
    ensures
        spec_b64_decode(spec_b64_encode(s)) == Some(s),
    decreases s.len(),
{
    if s.len() == 0 {
        assert(spec_b64_decode(spec_b64_encode(s)) == Some(s));
    } else if s.len() == 1 {
        let b0 = s[0] as int;
        lemma_b64_val_char(b0 / 4);
        lemma_b64_val_char((b0 % 4) * 16);
        assert(spec_b64_decode(spec_b64_encode(s)).unwrap() =~= s);
    } else if s.len() == 2 {
        let b0 = s[0] as int;
        let b1 = s[1] as int;
        lemma_b64_val_char(b0 / 4);
        lemma_b64_val_char((b0 % 4) * 16 + b1 / 16);
        lemma_b64_val_char((b1 % 16) * 4);
        assert(spec_b64_decode(spec_b64_encode(s)).unwrap() =~= s);
    } else {
        let b0 = s[0] as int;
        let b1 = s[1] as int;
        let b2 = s[2] as int;
        lemma_b64_val_char(b0 / 4);
        lemma_b64_val_char((b0 % 4) * 16 + b1 / 16);
        lemma_b64_val_char((b1 % 16) * 4 + b2 / 64);
        lemma_b64_val_char(b2 % 64);
        lemma_b64_round_trip(s.skip(3));
        let e = spec_b64_encode(s);
        assert(e.skip(4) =~= spec_b64_encode(s.skip(3)));
        assert(spec_b64_decode(e).unwrap() =~= s);
    }
}

/// No byte of a base64url encoding is a dot.
pub proof fn lemma_b64_encode_no_dot(s: Seq<u8>)
    ensures
        forall|i: int| 0 <= i < spec_b64_encode(s).len() ==> spec_b64_encode(s)[i] != 46u8,
    decreases s.len(),
{
    if s.len() == 0 {
    } else if s.len() == 1 {
        let b0 = s[0] as int;
        lemma_b64_char_in_alphabet(b0 / 4);
        lemma_b64_char_in_alphabet((b0 % 4) * 16);
    } else if s.len() == 2 {
        let b0 = s[0] as int;
        let b1 = s[1] as int;
        lemma_b64_char_in_alphabet(b0 / 4);
        lemma_b64_char_in_alphabet((b0 % 4) * 16 + b1 / 16);
        lemma_b64_char_in_alphabet((b1 % 16) * 4);
    } else {
        let b0 = s[0] as int;
        let b1 = s[1] as int;
        let b2 = s[2] as int;
        lemma_b64_char_in_alphabet(b0 / 4);
        lemma_b64_char_in_alphabet((b0 % 4) * 16 + b1 / 16);
        lemma_b64_char_in_alphabet((b1 % 16) * 4 + b2 / 64);
        lemma_b64_char_in_alphabet(b2 % 64);
        lemma_b64_encode_no_dot(s.skip(3));
        let e = spec_b64_encode(s);
        assert forall|i: int| 0 <= i < e.len() implies e[i] != 46u8 by {
            if i >= 4 {
                assert(e[i] == spec_b64_encode(s.skip(3))[i - 4]);
            }
        }
    }
}

/// The alphabet byte for a six-bit value.
fn b64_char_of(v: u8) -> (r: u8)
    requires
        v < 64,
    ensures
        r == b64_char(v as int),
{
    if v < 26 {
        v + 65
    } else if v < 52 {
        v + 71
    } else if v < 62 {
        v - 4
    } else if v == 62 {
        45
    } else {
        95
    }
}

/// The six-bit value of a byte, or -1 outside the alphabet.
fn b64_val_of(b: u8) -> (r: i8)
    ensures
        r as int == b64_val(b),
{
    if 65 <= b && b <= 90 {
        (b - 65) as i8
    } else if 97 <= b && b <= 122 {
        (b - 71) as i8
    } else if 48 <= b && b <= 57 {
        (b + 4) as i8
    } else if b == 45 {
        62
    } else if b == 95 {
        63
    } else {
        -1
    }
}

/// base64url-encodes a byte slice, without padding.
pub fn base64url_encode(s: &[u8]) -> (r: Vec<u8>)
    ensures
        r@ == spec_b64_encode(s@),
    decreases s@.len(),
{
    let n = s.len();
    if n == 0 {
        let r = Vec::new();
        assert(r@ =~= spec_b64_encode(s@));
        r
    } else if n == 1 {
        let b0 = s[0];
        let mut r: Vec<u8> = Vec::new();
        r.push(b64_char_of(b0 / 4));
        r.push(b64_char_of((b0 % 4) * 16));
        assert(r@ =~= spec_b64_encode(s@));
        r
    } else if n == 2 {
        let b0 = s[0];
        let b1 = s[1];
        let mut r: Vec<u8> = Vec::new();
        r.push(b64_char_of(b0 / 4));
        r.push(b64_char_of((b0 % 4) * 16 + b1 / 16));
        r.push(b64_char_of((b1 % 16) * 4));
        assert(r@ =~= spec_b64_encode(s@));
        r
    } else {
        let b0 = s[0];
        let b1 = s[1];
        let b2 = s[2];
        let mut r: Vec<u8> = Vec::new();
        r.push(b64_char_of(b0 / 4));
        r.push(b64_char_of((b0 % 4) * 16 + b1 / 16));
        r.push(b64_char_of((b1 % 16) * 4 + b2 / 64));
        r.push(b64_char_of(b2 % 64));
        let tail = vstd::slice::slice_subrange(s, 3, n);
        assert(tail@ =~= s@.skip(3));
        let mut rest = base64url_encode(tail);
        r.append(&mut rest);
        assert(r@ =~= spec_b64_encode(s@));
        r
    }
}

/// base64url-decodes a byte slice without padding; `None` on anything that is
/// not a canonical encoding.
pub fn base64url_decode(s: &[u8]) -> (r: Option<Vec<u8>>)
    ensures
        match r {
            Some(v) => spec_b64_decode(s@) == Some(v@),
            None => spec_b64_decode(s@) is None,
        },
    decreases s@.len(),
{
    let n = s.len();
    if n == 0 {
        let r: Vec<u8> = Vec::new();
        assert(r@ =~= spec_b64_decode(s@).unwrap());
        Some(r)
    } else if n == 1 {
        None
    } else if n == 2 {
        let v0 = b64_val_of(s[0]);
        let v1 = b64_val_of(s[1]);
        if v0 >= 0 && v1 >= 0 && v1 % 16 == 0 {
            let mut r: Vec<u8> = Vec::new();
            r.push((v0 as u8) * 4 + (v1 as u8) / 16);
            assert(r@ =~= spec_b64_decode(s@).unwrap());
            Some(r)
        } else {
            None
        }
    } else if n == 3 {
        let v0 = b64_val_of(s[0]);
        let v1 = b64_val_of(s[1]);
        let v2 = b64_val_of(s[2]);
        if v0 >= 0 && v1 >= 0 && v2 >= 0 && v2 % 4 == 0 {
            let mut r: Vec<u8> = Vec::new();
            r.push((v0 as u8) * 4 + (v1 as u8) / 16);
            r.push(((v1 as u8) % 16) * 16 + (v2 as u8) / 4);
            assert(r@ =~= spec_b64_decode(s@).unwrap());
            Some(r)
        } else {
            None
        }
    } else {
        let v0 = b64_val_of(s[0]);
        let v1 = b64_val_of(s[1]);
        let v2 = b64_val_of(s[2]);
        let v3 = b64_val_of(s[3]);
        if v0 >= 0 && v1 >= 0 && v2 >= 0 && v3 >= 0 {
            let tail = vstd::slice::slice_subrange(s, 4, n);
            assert(tail@ =~= s@.skip(4));
            match base64url_decode(tail) {
                Some(mut rest) => {
                    let mut r: Vec<u8> = Vec::new();
                    r.push((v0 as u8) * 4 + (v1 as u8) / 16);
                    r.push(((v1 as u8) % 16) * 16 + (v2 as u8) / 4);
                    r.push(((v2 as u8) % 4) * 64 + v3 as u8);
                    r.append(&mut rest);
                    assert(r@ =~= spec_b64_decode(s@).unwrap());
                    Some(r)
                },
                None => None,
            }
        } else {
            None
        }
    }
}

/// The six-bit value of a standard-alphabet base64 byte, or -1 for a byte
/// outside the alphabet. Differs from base64url only on the last two values.
pub open spec fn b64std_val(b: u8) -> int {
    if 65 <= b <= 90 {
        b - 65
    } else if 97 <= b <= 122 {
        b - 71
    } else if 48 <= b <= 57 {
        b + 4
    } else if b == 43 {
        62
    } else if b == 47 {
        63
    } else {
        -1
    }
}

/// Standard base64 decoding with required padding: `Some` exactly on
/// canonical input (length a multiple of four, `=` only closing the final
/// group, unused trailing bits zero).
pub open spec fn spec_b64std_decode(s: Seq<u8>) -> Option<Seq<u8>>
    decreases s.len(),
{
    if s.len() == 0 {
        Some(Seq::empty())
    } else if s.len() % 4 != 0 {
        None
    } else if s.len() == 4 {
        let v0 = b64std_val(s[0]);
        let v1 = b64std_val(s[1]);
        let v2 = b64std_val(s[2]);
        let v3 = b64std_val(s[3]);
        if v0 >= 0 && v1 >= 0 && v2 >= 0 && v3 >= 0 {
            Some(
                seq![
                    (v0 * 4 + v1 / 16) as u8,
                    ((v1 % 16) * 16 + v2 / 4) as u8,
                    ((v2 % 4) * 64 + v3) as u8,
                ],
            )
        } else if v0 >= 0 && v1 >= 0 && v2 >= 0 && s[3] == 61u8 && v2 % 4 == 0 {
            Some(seq![(v0 * 4 + v1 / 16) as u8, ((v1 % 16) * 16 + v2 / 4) as u8])
        } else if v0 >= 0 && v1 >= 0 && s[2] == 61u8 && s[3] == 61u8 && v1 % 16 == 0 {
            Some(seq![(v0 * 4 + v1 / 16) as u8])
        } else {
            None
        }
    } else {
        let v0 = b64std_val(s[0]);
        let v1 = b64std_val(s[1]);
        let v2 = b64std_val(s[2]);
        let v3 = b64std_val(s[3]);
        if v0 >= 0 && v1 >= 0 && v2 >= 0 && v3 >= 0 {
            match spec_b64std_decode(s.skip(4)) {
                Some(rest) => Some(
                    seq![
                        (v0 * 4 + v1 / 16) as u8,
                        ((v1 % 16) * 16 + v2 / 4) as u8,
                        ((v2 % 4) * 64 + v3) as u8,
                    ] + rest,
                ),
                None => None,
            }
        } else {
            None
        }
    }
}

/// The six-bit value of a standard-alphabet byte, or -1 outside it.
fn b64std_val_of(b: u8) -> (r: i8)
    ensures
        r as int == b64std_val(b),
{
    if 65 <= b && b <= 90 {
        (b - 65) as i8
    } else if 97 <= b && b <= 122 {
        (b - 71) as i8
    } else if 48 <= b && b <= 57 {
        (b + 4) as i8
    } else if b == 43 {
        62
    } else if b == 47 {
        63
    } else {
        -1
    }
}

/// Decodes standard base64 with required padding; `None` on anything that is
/// not canonical.
pub fn base64std_decode(s: &[u8]) -> (r: Option<Vec<u8>>)
    ensures
        match r {
            Some(v) => spec_b64std_decode(s@) == Some(v@),
            None => spec_b64std_decode(s@) is None,
        },
    decreases s@.len(),
{
    let n = s.len();
    if n == 0 {
        let r: Vec<u8> = Vec::new();
        assert(r@ =~= spec_b64std_decode(s@).unwrap());
        Some(r)
    } else if n % 4 != 0 {
        None
    } else if n == 4 {
        let v0 = b64std_val_of(s[0]);
        let v1 = b64std_val_of(s[1]);
        let v2 = b64std_val_of(s[2]);
        let v3 = b64std_val_of(s[3]);
        if v0 >= 0 && v1 >= 0 && v2 >= 0 && v3 >= 0 {
            let mut r: Vec<u8> = Vec::new();
            r.push((v0 as u8) * 4 + (v1 as u8) / 16);
            r.push(((v1 as u8) % 16) * 16 + (v2 as u8) / 4);
            r.push(((v2 as u8) % 4) * 64 + v3 as u8);
            assert(r@ =~= spec_b64std_decode(s@).unwrap());
            Some(r)
        } else if v0 >= 0 && v1 >= 0 && v2 >= 0 && s[3] == 61 && v2 % 4 == 0 {
            let mut r: Vec<u8> = Vec::new();
            r.push((v0 as u8) * 4 + (v1 as u8) / 16);
            r.push(((v1 as u8) % 16) * 16 + (v2 as u8) / 4);
            assert(r@ =~= spec_b64std_decode(s@).unwrap());
            Some(r)
        } else if v0 >= 0 && v1 >= 0 && s[2] == 61 && s[3] == 61 && v1 % 16 == 0 {
            let mut r: Vec<u8> = Vec::new();
            r.push((v0 as u8) * 4 + (v1 as u8) / 16);
            assert(r@ =~= spec_b64std_decode(s@).unwrap());
            Some(r)
        } else {
            None
        }
    } else {
        let v0 = b64std_val_of(s[0]);
        let v1 = b64std_val_of(s[1]);
        let v2 = b64std_val_of(s[2]);
        let v3 = b64std_val_of(s[3]);
        if v0 >= 0 && v1 >= 0 && v2 >= 0 && v3 >= 0 {
            let tail = vstd::slice::slice_subrange(s, 4, n);
            assert(tail@ =~= s@.skip(4));
            match base64std_decode(tail) {
                Some(mut rest) => {
                    let mut r: Vec<u8> = Vec::new();
                    r.push((v0 as u8) * 4 + (v1 as u8) / 16);
                    r.push(((v1 as u8) % 16) * 16 + (v2 as u8) / 4);
                    r.push(((v2 as u8) % 4) * 64 + v3 as u8);
                    r.append(&mut rest);
                    assert(r@ =~= spec_b64std_decode(s@).unwrap());
                    Some(r)
                },
                None => None,
            }
        } else {
            None
        }
    }
}

/// Why a token could not be decoded.
#[derive(Clone, Copy, Debug, PartialEq, Eq, Structural)]
pub enum DecodeError {
    /// The token does not have three dot-separated segments, or its middle
    /// segment is not canonical base64url.
    MalformedToken,
}

/// The dot that separates token segments.
pub open spec fn dot() -> u8 {
    46u8
}

/// `h`, `p`, `s` are the three segments of `t`: joined by single dots, none of
/// them containing a dot.
pub open spec fn is_token_split(t: Seq<u8>, h: Seq<u8>, p: Seq<u8>, s: Seq<u8>) -> bool {
    &&& t == h + seq![dot()] + p + seq![dot()] + s
    &&& !h.contains(dot())
    &&& !p.contains(dot())
    &&& !s.contains(dot())
}

/// The middle segment of a three-segment token, if the token has that shape.
pub open spec fn spec_payload_segment(t: Seq<u8>) -> Option<Seq<u8>> {
    if exists|h: Seq<u8>, p: Seq<u8>, s: Seq<u8>| is_token_split(t, h, p, s) {
        let (h, p, s) = choose|h: Seq<u8>, p: Seq<u8>, s: Seq<u8>| is_token_split(t, h, p, s);
        Some(p)
    } else {
        None
    }
}

/// What `decode` returns: the base64url decoding of the middle segment of a
/// three-segment token, `None` on any malformed token.
pub open spec fn spec_decode(t: Seq<u8>) -> Option<Seq<u8>> {
    match spec_payload_segment(t) {
        Some(p) => spec_b64_decode(p),
        None => None,
    }
}

/// In a split token the dots stand exactly at the two joining positions.
proof fn lemma_split_dot_positions(t: Seq<u8>, h: Seq<u8>, p: Seq<u8>, s: Seq<u8>)
    requires
        is_token_split(t, h, p, s),
    ensures
        t.len() == h.len() + p.len() + s.len() + 2,
        forall|m: int|
            0 <= m < t.len() ==> (t[m] == dot() <==> (m == h.len() || m == h.len() + p.len() + 1)),
{
    assert forall|m: int|
        0 <= m < t.len() implies (t[m] == dot() <==> (m == h.len() || m == h.len() + p.len()
        + 1)) by {
        if m < h.len() {
            assert(t[m] == h[m]);
            assert(h[m] != dot());
        } else if m == h.len() {
            assert(t[m] == dot());
        } else if m < h.len() + p.len() + 1 {
            assert(t[m] == p[m - h.len() - 1]);
            assert(p[m - h.len() - 1] != dot());
        } else if m == h.len() + p.len() + 1 {
            assert(t[m] == dot());
        } else {
            assert(t[m] == s[m - h.len() - p.len() - 2]);
            assert(s[m - h.len() - p.len() - 2] != dot());
        }
    }
}

/// A token splits in at most one way.
proof fn lemma_split_unique(
    t: Seq<u8>,
    h1: Seq<u8>,
    p1: Seq<u8>,
    s1: Seq<u8>,
    h2: Seq<u8>,
    p2: Seq<u8>,
    s2: Seq<u8>,
)
    requires
        is_token_split(t, h1, p1, s1),
        is_token_split(t, h2, p2, s2),
    ensures
        h1 == h2,
        p1 == p2,
        s1 == s2,
{
    lemma_split_dot_positions(t, h1, p1, s1);
    lemma_split_dot_positions(t, h2, p2, s2);
    assert(t[h1.len() as int] == dot());
    assert(t[h2.len() as int] == dot());
    assert(h1.len() == h2.len());
    assert(t[h1.len() + p1.len() + 1int] == dot());
    assert(t[h2.len() + p2.len() + 1int] == dot());
    assert(p1.len() == p2.len());
    assert(h1 =~= h2) by {
        assert(forall|m: int| 0 <= m < h1.len() ==> h1[m] == t[m] && h2[m] == t[m]);
    }
    assert(p1 =~= p2) by {
        assert(forall|m: int|
            0 <= m < p1.len() ==> p1[m] == t[h1.len() + 1 + m] && p2[m] == t[h2.len() + 1 + m]);
    }
    assert(s1 =~= s2) by {
        assert(s1.len() == s2.len());
        assert(forall|m: int|
            0 <= m < s1.len() ==> s1[m] == t[h1.len() + p1.len() + 2 + m] && s2[m] == t[h2.len()
                + p2.len() + 2 + m]);
    }
}

/// Splits a token into its three dot-separated segments; `None` unless there
/// are exactly three.
pub fn split_segments(t: &[u8]) -> (r: Option<(Vec<u8>, Vec<u8>, Vec<u8>)>)
    ensures
        match r {
            Some((h, p, s)) => is_token_split(t@, h@, p@, s@) && spec_payload_segment(t@) == Some(
                p@,
            ),
            None => spec_payload_segment(t@) is None,
        },
{
    let n = t.len();
    let mut i: usize = 0;
    while i < n && t[i] != 46
        invariant
            0 <= i <= n,
            n == t@.len(),
            forall|k: int| 0 <= k < i ==> t@[k] != dot(),
        decreases n - i,
    {
        i = i + 1;
    }
    if i == n {
        proof {
            assert forall|h: Seq<u8>, p: Seq<u8>, s: Seq<u8>| !is_token_split(t@, h, p, s) by {
                if is_token_split(t@, h, p, s) {
                    lemma_split_dot_positions(t@, h, p, s);
                    assert(t@[h.len() as int] == dot());
                }
            }
        }
        return None;
    }
    let mut j: usize = i + 1;
    while j < n && t[j] != 46
        invariant
            i < j <= n,
            n == t@.len(),
            forall|k: int| 0 <= k < i ==> t@[k] != dot(),
            t@[i as int] == dot(),
            forall|k: int| i < k < j ==> t@[k] != dot(),
        decreases n - j,
    {
        j = j + 1;
    }
    if j == n {
        proof {
            assert forall|h: Seq<u8>, p: Seq<u8>, s: Seq<u8>| !is_token_split(t@, h, p, s) by {
                if is_token_split(t@, h, p, s) {
                    lemma_split_dot_positions(t@, h, p, s);
                    let d1 = h.len() as int;
                    let d2 = h.len() + p.len() + 1int;
                    assert(t@[d1] == dot());
                    assert(t@[d2] == dot());
                    assert(d1 == i && d2 == i);
                }
            }
        }
        return None;
    }
    let mut k: usize = j + 1;
    while k < n && t[k] != 46
        invariant
            j < k <= n,
            n == t@.len(),
            forall|m: int| j < m < k ==> t@[m] != dot(),
        decreases n - k,
    {
        k = k + 1;
    }
    if k < n {
        proof {
            assert forall|h: Seq<u8>, p: Seq<u8>, s: Seq<u8>| !is_token_split(t@, h, p, s) by {
                if is_token_split(t@, h, p, s) {
                    lemma_split_dot_positions(t@, h, p, s);
                    let d1 = h.len() as int;
                    let d2 = h.len() + p.len() + 1int;
                    assert(t@[i as int] == dot());
                    assert(t@[j as int] == dot());
                    assert(t@[k as int] == dot());
                    assert(i == d1 || i == d2);
                    assert(j == d1 || j == d2);
                    assert(k == d1 || k == d2);
                }
            }
        }
        return None;
    }
    let h = vstd::slice::slice_to_vec(vstd::slice::slice_subrange(t, 0, i));
    let p = vstd::slice::slice_to_vec(vstd::slice::slice_subrange(t, i + 1, j));
    let s = vstd::slice::slice_to_vec(vstd::slice::slice_subrange(t, j + 1, n));
    proof {
        assert(t@ =~= h@ + seq![dot()] + p@ + seq![dot()] + s@);
        assert(!h@.contains(dot()));
        assert(!p@.contains(dot()));
        assert(!s@.contains(dot()));
        assert(is_token_split(t@, h@, p@, s@));
        let (h2, p2, s2) = choose|h2: Seq<u8>, p2: Seq<u8>, s2: Seq<u8>|
            is_token_split(t@, h2, p2, s2);
        lemma_split_unique(t@, h@, p@, s@, h2, p2, s2);
    }
    Some((h, p, s))
}

/// Joins three already-encoded segments with dots.
pub open spec fn spec_join_token(h: Seq<u8>, p: Seq<u8>, s: Seq<u8>) -> Seq<u8> {
    h + seq![dot()] + p + seq![dot()] + s
}

/// A signed token built from raw header, payload and signature bytes: each
/// segment base64url-encoded, the three joined with dots.
pub open spec fn spec_encode(header: Seq<u8>, payload: Seq<u8>, signature: Seq<u8>) -> Seq<u8> {
    spec_join_token(
        spec_b64_encode(header),
        spec_b64_encode(payload),
        spec_b64_encode(signature),
    )
}

/// Builds a three-segment token from raw header, payload and signature bytes.
pub fn encode(header: &[u8], payload: &[u8], signature: &[u8]) -> (r: Vec<u8>)
    ensures
        r@ == spec_encode(header@, payload@, signature@),
{
    let mut r = base64url_encode(header);
    r.push(46);
    let mut p = base64url_encode(payload);
    r.append(&mut p);
    r.push(46);
    let mut s = base64url_encode(signature);
    r.append(&mut s);
    proof {
        assert(r@ =~= spec_encode(header@, payload@, signature@));
    }
    r
}

/// Decodes a three-segment token to the raw bytes of its middle (payload)
/// segment. Fails with `MalformedToken` unless the token has exactly three
/// dot-separated segments and the middle one is canonical base64url. The
/// signature segment is not verified.
pub fn decode(token: &[u8]) -> (r: Result<Vec<u8>, DecodeError>)
    ensures
        match r {
            Ok(p) => spec_decode(token@) == Some(p@),
            Err(e) => spec_decode(token@) is None && e == DecodeError::MalformedToken,
        },
{
    match split_segments(token) {
        None => Err(DecodeError::MalformedToken),
        Some((_h, p, _s)) => match base64url_decode(p.as_slice()) {
            Some(raw) => Ok(raw),
            None => Err(DecodeError::MalformedToken),
        },
    }
}

/// Round trip: a token built by `encode` always decodes back to its payload
/// bytes, whatever the header and signature were.
pub proof fn lemma_encode_decode_round_trip(header: Seq<u8>, payload: Seq<u8>, signature: Seq<u8>)
    ensures
        spec_decode(spec_encode(header, payload, signature)) == Some(payload),
{
    let t = spec_encode(header, payload, signature);
    let eh = spec_b64_encode(header);
    let ep = spec_b64_encode(payload);
    let es = spec_b64_encode(signature);
    lemma_b64_encode_no_dot(header);
    lemma_b64_encode_no_dot(payload);
    lemma_b64_encode_no_dot(signature);
    assert(!eh.contains(dot()));
    assert(!ep.contains(dot()));
    assert(!es.contains(dot()));
    assert(is_token_split(t, eh, ep, es));
    let (h2, p2, s2) = choose|h2: Seq<u8>, p2: Seq<u8>, s2: Seq<u8>| is_token_split(t, h2, p2, s2);
    lemma_split_unique(t, eh, ep, es, h2, p2, s2);
    lemma_b64_round_trip(payload);
}

} // verus!
