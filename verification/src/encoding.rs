//! Verified hex encoding and decoding.
//!
//! Keys, preimages and hashes cross the wire hex-encoded; this module encodes
//! and decodes them with an exact specification of which strings decode, to
//! what, and that the two directions compose to the identity.

use vstd::prelude::*;

use crate::error::Error;

verus! {

/// Whether `c` is an ASCII hex digit (`0-9`, `A-F`, `a-f`).
pub open spec fn spec_is_hex_digit(c: char) -> bool {
    (48 <= c as u32 && c as u32 <= 57) || (65 <= c as u32 && c as u32 <= 70) || (97 <= c as u32
        && c as u32 <= 102)
}

/// The value of a hex digit; meaningful only when [`spec_is_hex_digit`].
pub open spec fn spec_hex_val(c: char) -> u8 {
    if 48 <= c as u32 && c as u32 <= 57 {
        (c as u32 - 48) as u8
    } else if 65 <= c as u32 && c as u32 <= 70 {
        (c as u32 - 55) as u8
    } else {
        (c as u32 - 87) as u8
    }
}

/// Whether a string is well-formed hex: even length, hex digits throughout.
pub open spec fn spec_hex_ok(s: Seq<char>) -> bool {
    s.len() % 2 == 0 && (forall|i: int| 0 <= i < s.len() ==> spec_is_hex_digit(#[trigger] s[i]))
}

/// The bytes a well-formed hex string denotes, two digits per byte.
pub open spec fn spec_hex_decode(s: Seq<char>) -> Seq<u8>
    decreases s.len(),
{
    if s.len() < 2 {
        Seq::<u8>::empty()
    } else {
        spec_hex_decode(s.take(s.len() - 2)) + seq![
            (spec_hex_val(s[s.len() - 2]) * 16 + spec_hex_val(s[s.len() - 1])) as u8,
        ]
    }
}

/// The value of one hex digit, or `None` for any other character.
fn hex_val(c: char) -> (r: Option<u8>)
    ensures
        r is Some <==> spec_is_hex_digit(c),
        r matches Some(v) ==> v == spec_hex_val(c) && v < 16,
{
    let v = c as u32;
    if 48 <= v && v <= 57 {
        Some((v - 48) as u8)
    } else if 65 <= v && v <= 70 {
        Some((v - 55) as u8)
    } else if 97 <= v && v <= 102 {
        Some((v - 87) as u8)
    } else {
        None
    }
}

/// Decode a hex string to bytes. Succeeds exactly on even-length strings of
/// hex digits and returns the denoted bytes.
pub fn hex_decode(s: &str) -> (r: Result<Vec<u8>, Error>)
    ensures
        r is Ok <==> spec_hex_ok(s@),
        r matches Ok(b) ==> b@ == spec_hex_decode(s@) && b@.len() == s@.len() / 2,
        r matches Err(e) ==> e is Parse,
{
    let n = s.unicode_len();
    if n % 2 != 0 {
        return Err(Error::Parse("odd-length hex string".to_owned()));
    }
    let mut out: Vec<u8> = Vec::new();
    let mut i: usize = 0;
    while i < n
        invariant
            i % 2 == 0,
            n % 2 == 0,
            i <= n,
            n == s@.len(),
            forall|j: int| 0 <= j < i ==> spec_is_hex_digit(#[trigger] s@[j]),
            out@ == spec_hex_decode(s@.take(i as int)),
            out@.len() == i / 2,
        decreases n - i,
    {
        let hi = match hex_val(s.get_char(i)) {
            Some(v) => v,
            None => {
                return Err(Error::Parse("invalid hex digit".to_owned()));
            },
        };
        let lo = match hex_val(s.get_char(i + 1)) {
            Some(v) => v,
            None => {
                return Err(Error::Parse("invalid hex digit".to_owned()));
            },
        };
        out.push(hi * 16 + lo);
        proof {
            let t = s@.take(i + 2);
            assert(t.take(t.len() - 2) =~= s@.take(i as int));
            assert(out@ =~= spec_hex_decode(s@.take(i + 2)));
        }
        i = i + 2;
    }
    proof {
        assert(s@.take(n as int) =~= s@);
    }
    Ok(out)
}



/// The lowercase hex digit for a value below 16.
pub open spec fn spec_hex_char(v: u8) -> char {
    if v == 0 {
        '0'
    } else if v == 1 {
        '1'
    } else if v == 2 {
        '2'
    } else if v == 3 {
        '3'
    } else if v == 4 {
        '4'
    } else if v == 5 {
        '5'
    } else if v == 6 {
        '6'
    } else if v == 7 {
        '7'
    } else if v == 8 {
        '8'
    } else if v == 9 {
        '9'
    } else if v == 10 {
        'a'
    } else if v == 11 {
        'b'
    } else if v == 12 {
        'c'
    } else if v == 13 {
        'd'
    } else if v == 14 {
        'e'
    } else {
        'f'
    }
}

/// The lowercase hex rendering of a byte sequence, two digits per byte.
pub open spec fn spec_hex_encode(bytes: Seq<u8>) -> Seq<char>
    decreases bytes.len(),
{
    if bytes.len() == 0 {
        Seq::<char>::empty()
    } else {
        spec_hex_encode(bytes.drop_last()) + seq![
            spec_hex_char((bytes.last() / 16) as u8),
            spec_hex_char((bytes.last() % 16) as u8),
        ]
    }
}

/// Relies on std's `String::push`: it appends exactly the given character.
#[verifier::external_body]
fn string_push(s: &mut String, c: char)
    ensures
        final(s)@ == old(s)@ + seq![c],
{
    s.push(c);
}

/// The hex digit of a value below 16.
fn hex_char(v: u8) -> (c: char)
    requires
        v < 16,
    ensures
        c == spec_hex_char(v),
{
    match v {
        0 => '0',
        1 => '1',
        2 => '2',
        3 => '3',
        4 => '4',
        5 => '5',
        6 => '6',
        7 => '7',
        8 => '8',
        9 => '9',
        10 => 'a',
        11 => 'b',
        12 => 'c',
        13 => 'd',
        14 => 'e',
        _ => 'f',
    }
}

/// Encode bytes as lowercase hex, two digits per byte.
pub fn hex_encode(bytes: &Vec<u8>) -> (r: String)
    ensures
        r@ == spec_hex_encode(bytes@),
        r@.len() == 2 * bytes@.len(),
{
    proof {
        lemma_hex_encode_len(bytes@);
    }
    let n = bytes.len();
    let mut out = String::new();
    let mut i: usize = 0;
    while i < n
        invariant
            i <= n,
            n == bytes@.len(),
            out@ == spec_hex_encode(bytes@.take(i as int)),
        decreases n - i,
    {
        let b = bytes[i];
        string_push(&mut out, hex_char(b / 16));
        string_push(&mut out, hex_char(b % 16));
        proof {
            assert(bytes@.take(i + 1).drop_last() =~= bytes@.take(i as int));
            assert(out@ =~= spec_hex_encode(bytes@.take(i + 1)));
        }
        i = i + 1;
    }
    proof {
        assert(bytes@.take(n as int) =~= bytes@);
    }
    out
}

/// The encoding is two digits per byte.
pub proof fn lemma_hex_encode_len(bytes: Seq<u8>)
    ensures
        spec_hex_encode(bytes).len() == 2 * bytes.len(),
    decreases bytes.len(),
{
    if bytes.len() > 0 {
        lemma_hex_encode_len(bytes.drop_last());
    }
}

/// Every hex digit character is one, and it denotes its value.
proof fn lemma_hex_char_digit(v: u8)
    requires
        v < 16,
    ensures
        spec_is_hex_digit(spec_hex_char(v)),
        spec_hex_val(spec_hex_char(v)) == v,
{
}

/// Encoding then decoding is the identity: the rendering is well-formed hex
/// and denotes exactly the bytes it was made from.
pub proof fn lemma_hex_round_trip(bytes: Seq<u8>)
    ensures
        spec_hex_ok(spec_hex_encode(bytes)),
        spec_hex_decode(spec_hex_encode(bytes)) == bytes,
    decreases bytes.len(),
{
    if bytes.len() == 0 {
        assert(spec_hex_decode(spec_hex_encode(bytes)) =~= bytes);
    } else {
        lemma_hex_round_trip(bytes.drop_last());
        lemma_hex_encode_len(bytes.drop_last());
        let e = spec_hex_encode(bytes);
        let e0 = spec_hex_encode(bytes.drop_last());
        let hi = (bytes.last() / 16) as u8;
        let lo = (bytes.last() % 16) as u8;
        lemma_hex_char_digit(hi);
        lemma_hex_char_digit(lo);
        assert forall|i: int| 0 <= i < e.len() implies spec_is_hex_digit(#[trigger] e[i]) by {
            if i < e0.len() {
                assert(e[i] == e0[i]);
            }
        }
        assert(e.take(e.len() - 2) =~= e0);
        assert(hi * 16 + lo == bytes.last());
        assert(spec_hex_decode(e) =~= bytes);
    }
}

} // verus!
