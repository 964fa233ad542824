use crate::error::Error as StoreError;
use vstd::prelude::*;

verus! {

/// Whether `c` is an ASCII hex digit, of either case.
pub open spec fn is_hex_digit(c: u8) -> bool {
    (48 <= c && c <= 57) || (97 <= c && c <= 102) || (65 <= c && c <= 70)
}

/// Whether every byte of `s` is an ASCII hex digit.
pub open spec fn all_hex_digits(s: Seq<u8>) -> bool {
    forall|i: int| 0 <= i < s.len() ==> is_hex_digit(#[trigger] s[i])
}

/// The value of the hex digit `c`.
pub open spec fn hex_value(c: u8) -> int {
    if c <= 57 {
        c - 48
    } else if c >= 97 {
        c - 87
    } else {
        c - 55
    }
}

/// The lowercase ASCII hex digit for `n < 16`.
pub open spec fn lower_hex_digit(n: int) -> u8 {
    if n < 10 {
        (48 + n) as u8
    } else {
        (87 + n) as u8
    }
}

/// Whether `c` may stand in the file name of a key: a lowercase hex digit.
pub open spec fn is_name_char(c: char) -> bool {
    ('0' <= c && c <= '9') || ('a' <= c && c <= 'f')
}

/// The lowercase hex encoding of `k`: two digits per byte, high nibble first.
pub open spec fn hex_bytes(k: Seq<u8>) -> Seq<u8>
    decreases k.len(),
{
    if k.len() == 0 {
        seq![]
    } else {
        seq![lower_hex_digit(k[0] as int / 16), lower_hex_digit(k[0] as int % 16)] + hex_bytes(k.drop_first())
    }
}

/// The hex encoding of `k` as text.
pub open spec fn hex_chars(k: Seq<u8>) -> Seq<char> {
    hex_bytes(k).map_values(|b: u8| b as char)
}

/// The bytes that the hex digits `s` stand for, one per pair of digits.
pub open spec fn hex_decoded(s: Seq<u8>) -> Seq<u8>
    decreases s.len(),
{
    if s.len() < 2 {
        seq![]
    } else {
        seq![(hex_value(s[0]) * 16 + hex_value(s[1])) as u8] + hex_decoded(s.subrange(2, s.len() as int))
    }
}

/// Relies on faster_hex::hex_string: two lowercase hex digits per byte, high
/// nibble first.
#[verifier::external_body]
fn hex_string(src: &[u8]) -> (r: String)
    ensures
        r@ == hex_chars(src@),
{
    faster_hex::hex_string(src)
}

/// Relies on faster_hex::hex_decode: with `dst` half as long as `src`, it
/// reports success exactly when `src` has even length and holds only hex digits, and
/// then writes the byte of each pair of digits into `dst`; on failure it
/// leaves `dst` untouched.
#[verifier::external_body]
fn hex_decode(src: &[u8], dst: &mut Vec<u8>) -> (r: bool)
    requires
        old(dst)@.len() == src@.len() / 2,
    ensures
        r <==> (src@.len() % 2 == 0 && all_hex_digits(src@)),
        r ==> final(dst)@ == hex_decoded(src@),
        !r ==> final(dst)@ == old(dst)@,
{
    faster_hex::hex_decode(src, dst.as_mut_slice()).is_ok()
}

/// The file name under which the value of `key` is stored in its table's
/// directory: the lowercase hex encoding of the key.
pub fn encode_key(key: &[u8]) -> (r: String)
    ensures
        r@ == hex_chars(key@),
{
    hex_string(key)
}

/// Decodes the hex file name `hex_bytes` back into the key it encodes.
pub fn key_from_hex_bytes(hex_bytes: &[u8]) -> (r: Result<Vec<u8>, StoreError>)
    ensures
        r is Ok <==> (hex_bytes@.len() % 2 == 0 && all_hex_digits(hex_bytes@)),
        r is Ok ==> r->Ok_0@ == hex_decoded(hex_bytes@),
        r is Err ==> r == Err::<Vec<u8>, StoreError>(StoreError::InvalidHex),
{
    let mut key: Vec<u8> = vec![0u8; hex_bytes.len() / 2];
    if hex_decode(hex_bytes, &mut key) {
        Ok(key)
    } else {
        Err(StoreError::InvalidHex)
    }
}

proof fn lemma_hex_pair(b: u8)
    ensures
        (hex_value(lower_hex_digit(b as int / 16)) * 16 + hex_value(lower_hex_digit(b as int % 16))) as u8 == b,
        is_name_char(lower_hex_digit(b as int / 16) as char),
        is_name_char(lower_hex_digit(b as int % 16) as char),
        is_hex_digit(lower_hex_digit(b as int / 16)),
        is_hex_digit(lower_hex_digit(b as int % 16)),
{
}

/// Key encoding is a bijection onto file names made of lowercase hex digits:
/// decoding the encoding of any key gives the key back, the encoding is
/// twice as long as the key, every character of it is a lowercase hex digit,
/// and two keys with the same encoding are the same key.
pub proof fn lemma_encoding_bijection(k: Seq<u8>, k2: Seq<u8>)
    ensures
        hex_decoded(hex_bytes(k)) == k,
        hex_bytes(k).len() == 2 * k.len(),
        all_hex_digits(hex_bytes(k)),
        hex_chars(k).len() == 2 * k.len(),
        forall|i: int| 0 <= i < hex_chars(k).len() ==> is_name_char(#[trigger] hex_chars(k)[i]),
        hex_bytes(k) == hex_bytes(k2) ==> k == k2,
{
    lemma_hex_round_trip(k);
    lemma_hex_round_trip(k2);
}

proof fn lemma_hex_round_trip(k: Seq<u8>)
    ensures
        hex_decoded(hex_bytes(k)) == k,
        hex_bytes(k).len() == 2 * k.len(),
        all_hex_digits(hex_bytes(k)),
        forall|i: int| 0 <= i < hex_bytes(k).len() ==> is_name_char((#[trigger] hex_bytes(k)[i]) as char),
    decreases k.len(),
{
    if k.len() > 0 {
        let t = k.drop_first();
        lemma_hex_round_trip(t);
        lemma_hex_pair(k[0]);
        let h = hex_bytes(k);
        assert(h.subrange(2, h.len() as int) =~= hex_bytes(t));
        assert(hex_decoded(h) =~= k);
        assert forall|i: int| 0 <= i < h.len() implies is_hex_digit(#[trigger] h[i]) && is_name_char(
            h[i] as char,
        ) by {
            if i >= 2 {
                assert(h[i] == hex_bytes(t)[i - 2]);
            }
        }
    }
}

} // verus!
