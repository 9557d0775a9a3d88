//! The transport encoding of the SAML request payload: the standard portable
//! binary-to-text encoding with the `A`-`Z`, `a`-`z`, `0`-`9`, `+`, `/`
//! alphabet and `=` padding. Encoding and decoding are verified against the
//! specification functions below, and decoding inverts encoding
//! ([`lemma_round_trip`]).

use vstd::prelude::*;
use vstd::string::StrSliceExecFns;
use vstd::string::StringSliceAdditionalSpecFns;
use vstd::utf8::decode_utf8;
use vstd::utf8::encode_utf8;
use vstd::utf8::valid_utf8;

verus! {

/// The padding byte `'='`.
pub const PAD: u8 = 61;

/// Whether a byte belongs to the encoding alphabet.
pub open spec fn is_b64_digit(c: u8) -> bool {
    (65 <= c && c <= 90)  // 'A'..='Z'
    || (97 <= c && c <= 122)  // 'a'..='z'
    || (48 <= c && c <= 57)  // '0'..='9'
    || c == 43  // '+'
    || c == 47  // '/'
}

/// The alphabet byte standing for a six-bit value.
pub open spec fn b64_char_of(v: u8) -> u8
    recommends
        v < 64,
{
    if v < 26 {
        (v + 65) as u8
    } else if v < 52 {
        (v + 71) as u8
    } else if v < 62 {
        (v - 4) as u8
    } else if v == 62 {
        43
    } else {
        47
    }
}

/// The six-bit value of an alphabet byte.
pub open spec fn b64_val_of(c: u8) -> u8
    recommends
        is_b64_digit(c),
{
    if 65 <= c && c <= 90 {
        (c - 65) as u8
    } else if 97 <= c && c <= 122 {
        (c - 71) as u8
    } else if 48 <= c && c <= 57 {
        (c + 4) as u8
    } else if c == 43 {
        62
    } else {
        63
    }
}

/// The encoding of a byte sequence: each three input bytes become four
/// alphabet bytes; a final one or two bytes are padded with `=`.
pub open spec fn spec_encode(bs: Seq<u8>) -> Seq<u8>
    decreases bs.len(),
{
    if bs.len() == 0 {
        Seq::empty()
    } else if bs.len() == 1 {
        let b0 = bs[0];
        seq![b64_char_of(b0 >> 2), b64_char_of((b0 & 3) << 4), PAD, PAD]
    } else if bs.len() == 2 {
        let b0 = bs[0];
        let b1 = bs[1];
        seq![
            b64_char_of(b0 >> 2),
            b64_char_of(((b0 & 3) << 4) | (b1 >> 4)),
            b64_char_of((b1 & 15) << 2),
            PAD,
        ]
    } else {
        let b0 = bs[0];
        let b1 = bs[1];
        let b2 = bs[2];
        seq![
            b64_char_of(b0 >> 2),
            b64_char_of(((b0 & 3) << 4) | (b1 >> 4)),
            b64_char_of(((b1 & 15) << 2) | (b2 >> 6)),
            b64_char_of(b2 & 63),
        ] + spec_encode(bs.skip(3))
    }
}

/// The three bytes held by a group of four alphabet bytes.
pub open spec fn decode_full3(c0: u8, c1: u8, c2: u8, c3: u8) -> Seq<u8> {
    let v0 = b64_val_of(c0);
    let v1 = b64_val_of(c1);
    let v2 = b64_val_of(c2);
    let v3 = b64_val_of(c3);
    seq![(v0 << 2) | (v1 >> 4), ((v1 & 15) << 4) | (v2 >> 2), ((v2 & 3) << 6) | v3]
}

/// Decoding of a final group of four bytes, which may end in padding. Padding
/// bits must be zero (the canonical form, which encoding produces).
pub open spec fn decode_last4(c0: u8, c1: u8, c2: u8, c3: u8) -> Option<Seq<u8>> {
    if is_b64_digit(c0) && is_b64_digit(c1) {
        let v0 = b64_val_of(c0);
        let v1 = b64_val_of(c1);
        if c2 == PAD && c3 == PAD {
            if v1 & 15 == 0 {
                Some(seq![(v0 << 2) | (v1 >> 4)])
            } else {
                None
            }
        } else if is_b64_digit(c2) && c3 == PAD {
            let v2 = b64_val_of(c2);
            if v2 & 3 == 0 {
                Some(seq![(v0 << 2) | (v1 >> 4), ((v1 & 15) << 4) | (v2 >> 2)])
            } else {
                None
            }
        } else if is_b64_digit(c2) && is_b64_digit(c3) {
            Some(decode_full3(c0, c1, c2, c3))
        } else {
            None
        }
    } else {
        None
    }
}

/// The decoding of an encoded sequence: `None` on any byte outside the
/// alphabet, padding anywhere but the end, a length that is not a multiple of
/// four, or non-zero padding bits.
pub open spec fn spec_decode(s: Seq<u8>) -> Option<Seq<u8>>
    decreases s.len(),
{
    if s.len() == 0 {
        Some(Seq::empty())
    } else if s.len() < 4 {
        None
    } else if s.len() == 4 {
        decode_last4(s[0], s[1], s[2], s[3])
    } else if is_b64_digit(s[0]) && is_b64_digit(s[1]) && is_b64_digit(s[2]) && is_b64_digit(
        s[3],
    ) {
        match spec_decode(s.skip(4)) {
            Some(rest) => Some(decode_full3(s[0], s[1], s[2], s[3]) + rest),
            None => None,
        }
    } else {
        None
    }
}

/// The alphabet byte of a six-bit value is in the alphabet, is not padding,
/// and decodes back to the value.
proof fn lemma_char_val(v: u8)
    requires
        v < 64,
    ensures
        is_b64_digit(b64_char_of(v)),
        b64_char_of(v) != PAD,
        b64_val_of(b64_char_of(v)) == v,
{
}

/// Decoding inverts encoding: every byte sequence comes back unchanged.
pub proof fn lemma_round_trip(bs: Seq<u8>)
    ensures
        spec_decode(spec_encode(bs)) == Some(bs),
    decreases bs.len(),
{
    if bs.len() == 0 {
        assert(bs =~= Seq::<u8>::empty());
    } else if bs.len() == 1 {
        let b0 = bs[0];
        assert(b0 >> 2 < 64 && (b0 & 3) << 4 < 64) by (bit_vector);
        lemma_char_val(b0 >> 2);
        lemma_char_val((b0 & 3) << 4);
        assert(((b0 & 3) << 4) & 15 == 0) by (bit_vector);
        assert(((b0 >> 2) << 2) | (((b0 & 3) << 4) >> 4) == b0) by (bit_vector);
        assert(bs =~= seq![b0]);
    } else if bs.len() == 2 {
        let b0 = bs[0];
        let b1 = bs[1];
        assert(b0 >> 2 < 64 && (((b0 & 3) << 4) | (b1 >> 4)) < 64 && (b1 & 15) << 2 < 64)
            by (bit_vector);
        lemma_char_val(b0 >> 2);
        lemma_char_val(((b0 & 3) << 4) | (b1 >> 4));
        lemma_char_val((b1 & 15) << 2);
        assert(((b1 & 15) << 2) & 3 == 0) by (bit_vector);
        assert(((b0 >> 2) << 2) | ((((b0 & 3) << 4) | (b1 >> 4)) >> 4) == b0) by (bit_vector);
        assert((((((b0 & 3) << 4) | (b1 >> 4)) & 15) << 4) | (((b1 & 15) << 2) >> 2) == b1)
            by (bit_vector);
        assert(bs =~= seq![b0, b1]);
    } else {
        let b0 = bs[0];
        let b1 = bs[1];
        let b2 = bs[2];
        assert(b0 >> 2 < 64 && (((b0 & 3) << 4) | (b1 >> 4)) < 64 && ((((b1 & 15) << 2) | (b2
            >> 6))) < 64 && b2 & 63 < 64) by (bit_vector);
        lemma_char_val(b0 >> 2);
        lemma_char_val(((b0 & 3) << 4) | (b1 >> 4));
        lemma_char_val(((b1 & 15) << 2) | (b2 >> 6));
        lemma_char_val(b2 & 63);
        assert(((b0 >> 2) << 2) | ((((b0 & 3) << 4) | (b1 >> 4)) >> 4) == b0) by (bit_vector);
        assert((((((b0 & 3) << 4) | (b1 >> 4)) & 15) << 4) | ((((b1 & 15) << 2) | (b2 >> 6)) >> 2)
            == b1) by (bit_vector);
        assert(((((((b1 & 15) << 2) | (b2 >> 6))) & 3) << 6) | (b2 & 63) == b2) by (bit_vector);
        lemma_round_trip(bs.skip(3));
        let group = seq![
            b64_char_of(b0 >> 2),
            b64_char_of(((b0 & 3) << 4) | (b1 >> 4)),
            b64_char_of(((b1 & 15) << 2) | (b2 >> 6)),
            b64_char_of(b2 & 63),
        ];
        let tail = spec_encode(bs.skip(3));
        assert(spec_encode(bs) == group + tail);
        if bs.len() == 3 {
            assert(bs.skip(3) =~= Seq::<u8>::empty());
            assert(tail =~= Seq::<u8>::empty());
            assert(group + tail =~= group);
            assert(decode_full3(group[0], group[1], group[2], group[3]) =~= bs);
        } else {
            // The tail is the encoding of a non-empty sequence, so it is at
            // least four bytes long and the whole has more than four.
            assert(tail.len() >= 4);
            let s = group + tail;
            assert(s.len() > 4);
            assert(s[0] == group[0] && s[1] == group[1] && s[2] == group[2] && s[3] == group[3]);
            assert(s.skip(4) =~= tail);
            assert(spec_decode(tail) == Some(bs.skip(3)));
            assert(decode_full3(s[0], s[1], s[2], s[3]) + bs.skip(3) =~= bs);
        }
    }
}

/// Decoding rejects any sequence whose length is not a multiple of four.
proof fn lemma_decode_len(s: Seq<u8>)
    ensures
        s.len() % 4 != 0 ==> spec_decode(s) is None,
    decreases s.len(),
{
    if s.len() > 4 {
        lemma_decode_len(s.skip(4));
    }
}

/// Executable counterpart of [`b64_char_of`].
fn enc_char(v: u8) -> (r: u8)
    requires
        v < 64,
    ensures
        r == b64_char_of(v),
{
    if v < 26 {
        v + 65
    } else if v < 52 {
        v + 71
    } else if v < 62 {
        v - 4
    } else if v == 62 {
        43
    } else {
        47
    }
}

/// Executable counterpart of [`is_b64_digit`].
fn is_digit(c: u8) -> (r: bool)
    ensures
        r == is_b64_digit(c),
{
    (65 <= c && c <= 90) || (97 <= c && c <= 122) || (48 <= c && c <= 57) || c == 43 || c == 47
}

/// Executable counterpart of [`b64_val_of`].
fn val_of(c: u8) -> (r: u8)
    requires
        is_b64_digit(c),
    ensures
        r == b64_val_of(c),
        r < 64,
{
    if 65 <= c && c <= 90 {
        c - 65
    } else if 97 <= c && c <= 122 {
        c - 71
    } else if 48 <= c && c <= 57 {
        c + 4
    } else if c == 43 {
        62
    } else {
        63
    }
}

/// Encodes a byte sequence into the transport encoding.
pub fn b64_encode(bs: &[u8]) -> (r: Vec<u8>)
    ensures
        r@ == spec_encode(bs@),
{
    let n = bs.len();
    let mut out: Vec<u8> = Vec::new();
    let mut i: usize = 0;
    proof {
        assert(bs@.skip(0) =~= bs@);
        assert(out@ + spec_encode(bs@) =~= spec_encode(bs@));
    }
    while n - i >= 3
        invariant
            i <= n,
            n == bs@.len(),
            spec_encode(bs@) == out@ + spec_encode(bs@.skip(i as int)),
        decreases n - i,
    {
        let b0 = bs[i];
        let b1 = bs[i + 1];
        let b2 = bs[i + 2];
        proof {
            assert(b0 >> 2 < 64 && (((b0 & 3) << 4) | (b1 >> 4)) < 64 && ((((b1 & 15) << 2) | (b2
                >> 6))) < 64 && b2 & 63 < 64) by (bit_vector);
        }
        out.push(enc_char(b0 >> 2));
        out.push(enc_char(((b0 & 3) << 4) | (b1 >> 4)));
        out.push(enc_char(((b1 & 15) << 2) | (b2 >> 6)));
        out.push(enc_char(b2 & 63));
        proof {
            let rest = bs@.skip(i as int);
            assert(rest[0] == b0 && rest[1] == b1 && rest[2] == b2);
            assert(rest.skip(3) =~= bs@.skip(i as int + 3));
            assert(out@ + spec_encode(bs@.skip(i as int + 3)) =~= out@.subrange(
                0,
                out@.len() - 4,
            ) + spec_encode(rest));
        }
        i = i + 3;
    }
    if n - i == 1 {
        let b0 = bs[i];
        proof {
            assert(b0 >> 2 < 64 && (b0 & 3) << 4 < 64) by (bit_vector);
        }
        out.push(enc_char(b0 >> 2));
        out.push(enc_char((b0 & 3) << 4));
        out.push(PAD);
        out.push(PAD);
        proof {
            let rest = bs@.skip(i as int);
            assert(rest.len() == 1 && rest[0] == b0);
            assert(out@ =~= out@.subrange(0, out@.len() - 4) + spec_encode(rest));
        }
    } else if n - i == 2 {
        let b0 = bs[i];
        let b1 = bs[i + 1];
        proof {
            assert(b0 >> 2 < 64 && (((b0 & 3) << 4) | (b1 >> 4)) < 64 && (b1 & 15) << 2 < 64)
                by (bit_vector);
        }
        out.push(enc_char(b0 >> 2));
        out.push(enc_char(((b0 & 3) << 4) | (b1 >> 4)));
        out.push(enc_char((b1 & 15) << 2));
        out.push(PAD);
        proof {
            let rest = bs@.skip(i as int);
            assert(rest.len() == 2 && rest[0] == b0 && rest[1] == b1);
            assert(out@ =~= out@.subrange(0, out@.len() - 4) + spec_encode(rest));
        }
    } else {
        proof {
            assert(bs@.skip(i as int) =~= Seq::<u8>::empty());
            assert(out@ =~= out@ + spec_encode(bs@.skip(i as int)));
        }
    }
    out
}

/// `Some(pre + r)` when `o` is `Some(r)`, else `None`.
pub open spec fn opt_prepend(pre: Seq<u8>, o: Option<Seq<u8>>) -> Option<Seq<u8>> {
    match o {
        Some(r) => Some(pre + r),
        None => None,
    }
}

/// Decodes a transport-encoded byte sequence; `None` exactly where
/// [`spec_decode`] rejects the input.
pub fn b64_decode(s: &[u8]) -> (r: Option<Vec<u8>>)
    ensures
        match r {
            Some(v) => spec_decode(s@) == Some(v@),
            None => spec_decode(s@) is None,
        },
{
    let n = s.len();
    if n % 4 != 0 {
        proof {
            lemma_decode_len(s@);
        }
        return None;
    }
    if n == 0 {
        let empty: Vec<u8> = Vec::new();
        proof {
            assert(s@ =~= Seq::<u8>::empty());
            assert(spec_decode(s@) == Some(Seq::<u8>::empty()));
        }
        return Some(empty);
    }
    let mut out: Vec<u8> = Vec::new();
    let mut i: usize = 0;
    proof {
        assert(s@.skip(0) =~= s@);
        if spec_decode(s@) is Some {
            assert(out@ + spec_decode(s@)->0 =~= spec_decode(s@)->0);
        }
    }
    while n - i > 4
        invariant
            i < n,
            n == s@.len(),
            n % 4 == 0,
            i % 4 == 0,
            spec_decode(s@) == opt_prepend(out@, spec_decode(s@.skip(i as int))),
        decreases n - i,
    {
        let c0 = s[i];
        let c1 = s[i + 1];
        let c2 = s[i + 2];
        let c3 = s[i + 3];
        proof {
            let rest = s@.skip(i as int);
            assert(rest[0] == c0 && rest[1] == c1 && rest[2] == c2 && rest[3] == c3);
        }
        if !(is_digit(c0) && is_digit(c1) && is_digit(c2) && is_digit(c3)) {
            return None;
        }
        let v0 = val_of(c0);
        let v1 = val_of(c1);
        let v2 = val_of(c2);
        let v3 = val_of(c3);
        out.push((v0 << 2) | (v1 >> 4));
        out.push(((v1 & 15) << 4) | (v2 >> 2));
        out.push(((v2 & 3) << 6) | v3);
        proof {
            let rest = s@.skip(i as int);
            assert(rest.skip(4) =~= s@.skip(i as int + 4));
            assert(out@.subrange(0, out@.len() - 3) + decode_full3(c0, c1, c2, c3) =~= out@);
            if spec_decode(s@.skip(i as int + 4)) is Some {
                let tail = spec_decode(s@.skip(i as int + 4))->0;
                assert(out@.subrange(0, out@.len() - 3) + (decode_full3(c0, c1, c2, c3) + tail)
                    =~= out@ + tail);
            }
        }
        i = i + 4;
    }
    // Exactly one group of four remains; it may carry padding.
    let c0 = s[i];
    let c1 = s[i + 1];
    let c2 = s[i + 2];
    let c3 = s[i + 3];
    proof {
        let rest = s@.skip(i as int);
        assert(rest.len() == 4);
        assert(rest[0] == c0 && rest[1] == c1 && rest[2] == c2 && rest[3] == c3);
    }
    if !(is_digit(c0) && is_digit(c1)) {
        return None;
    }
    let v0 = val_of(c0);
    let v1 = val_of(c1);
    if c2 == PAD && c3 == PAD {
        if v1 & 15 != 0 {
            return None;
        }
        out.push((v0 << 2) | (v1 >> 4));
        proof {
            assert(out@.subrange(0, out@.len() - 1) + seq![(v0 << 2) | (v1 >> 4)] =~= out@);
        }
        Some(out)
    } else if is_digit(c2) && c3 == PAD {
        let v2 = val_of(c2);
        if v2 & 3 != 0 {
            return None;
        }
        out.push((v0 << 2) | (v1 >> 4));
        out.push(((v1 & 15) << 4) | (v2 >> 2));
        proof {
            assert(out@.subrange(0, out@.len() - 2) + seq![
                (v0 << 2) | (v1 >> 4),
                ((v1 & 15) << 4) | (v2 >> 2),
            ] =~= out@);
        }
        Some(out)
    } else if is_digit(c2) && is_digit(c3) {
        let v2 = val_of(c2);
        let v3 = val_of(c3);
        out.push((v0 << 2) | (v1 >> 4));
        out.push(((v1 & 15) << 4) | (v2 >> 2));
        out.push(((v2 & 3) << 6) | v3);
        proof {
            assert(out@.subrange(0, out@.len() - 3) + decode_full3(c0, c1, c2, c3) =~= out@);
        }
        Some(out)
    } else {
        None
    }
}

/// Decoding of a text value: the text's bytes are decoded from the transport
/// encoding, and the result must again be text.
pub open spec fn decode_text(s: Seq<char>) -> Option<Seq<char>> {
    match spec_decode(encode_utf8(s)) {
        Some(bytes) => if valid_utf8(bytes) {
            Some(decode_utf8(bytes))
        } else {
            None
        },
        None => None,
    }
}

/// Relies on `String::from_utf8`: it returns `Ok` exactly when the bytes are
/// valid UTF-8, and the resulting string holds the characters those bytes
/// encode.
#[verifier::external_body]
fn string_from_utf8(bytes: Vec<u8>) -> (r: Option<String>)
    ensures
        r is Some <==> valid_utf8(bytes@),
        r matches Some(s) ==> s@ == decode_utf8(bytes@),
{
    String::from_utf8(bytes).ok()
}

/// Decodes a transport-encoded string into the text it carries; `None`
/// exactly where [`decode_text`] rejects the input.
pub fn decode_to_string(s: &str) -> (r: Option<String>)
    ensures
        r is Some <==> decode_text(s@) is Some,
        r matches Some(t) ==> decode_text(s@) == Some(t@),
{
    let bytes = s.as_bytes_vec();
    match b64_decode(bytes.as_slice()) {
        None => None,
        Some(decoded) => string_from_utf8(decoded),
    }
}

} // verus!
