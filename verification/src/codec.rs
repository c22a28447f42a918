//! Wire format of the sensor protocol.
//!
//! The atomic unit of transfer is the word: a 2-byte big-endian unsigned
//! value immediately followed on the wire by one checksum byte computed over
//! those two bytes. A well-formed response buffer is therefore a multiple of
//! 3 bytes long; any other length is a protocol violation. Encoding builds
//! such buffers from words, decoding validates every word's checksum and
//! reports the first failing word's position.

use vstd::prelude::*;
use vstd::arithmetic::div_mod::lemma_fundamental_div_mod;
use crate::checksum::checksum;
use crate::checksum::checksum_ok;
use crate::checksum::crc8_of;
use crate::checksum::verify;

verus! {

/// High (most significant) byte of a word.
pub open spec fn word_hi(w: u16) -> u8 {
    (w / 256) as u8
}

/// Low (least significant) byte of a word.
pub open spec fn word_lo(w: u16) -> u8 {
    (w % 256) as u8
}

/// The word formed by a big-endian byte pair.
pub open spec fn word_of_bytes(hi: u8, lo: u8) -> u16 {
    (hi * 256 + lo) as u16
}

/// Splitting a word into its big-endian bytes and reassembling them gives
/// the word back.
pub proof fn lemma_word_bytes_round_trip(w: u16)
    ensures
        word_of_bytes(word_hi(w), word_lo(w)) == w,
{
    lemma_fundamental_div_mod(w as int, 256);
}

/// Byte `j` of the encoding of the word sequence `ws`: each word contributes
/// its high byte, its low byte, then its checksum byte.
pub open spec fn encoded_byte(ws: Seq<u16>, j: int) -> u8 {
    let w = ws[j / 3];
    if j % 3 == 0 {
        word_hi(w)
    } else if j % 3 == 1 {
        word_lo(w)
    } else {
        crc8_of(word_hi(w), word_lo(w))
    }
}

/// The full wire encoding of a word sequence: 3 bytes per word.
pub open spec fn encode_words_spec(ws: Seq<u16>) -> Seq<u8> {
    Seq::new(ws.len() * 3, |j: int| encoded_byte(ws, j))
}

/// The word carried at word position `i` of a response buffer.
pub open spec fn word_at(bytes: Seq<u8>, i: int) -> u16 {
    word_of_bytes(bytes[3 * i], bytes[3 * i + 1])
}

/// Whether the checksum byte of word position `i` matches its word.
pub open spec fn word_ok(bytes: Seq<u8>, i: int) -> bool {
    checksum_ok(bytes[3 * i], bytes[3 * i + 1], bytes[3 * i + 2])
}

/// Whether every word of the buffer carries a correct checksum.
pub open spec fn all_words_ok(bytes: Seq<u8>) -> bool {
    forall|i: int| 0 <= i < bytes.len() / 3 ==> word_ok(bytes, i)
}

/// The words of a response buffer, checksum bytes discarded.
pub open spec fn words_of(bytes: Seq<u8>) -> Seq<u16> {
    Seq::new(bytes.len() / 3, |i: int| word_at(bytes, i))
}

/// How a buffer fails to decode.
#[derive(Clone, Copy, Debug, PartialEq, Eq, Structural)]
pub enum DecodeError {
    /// The buffer's length does not fit the expected response shape.
    InvalidLength,
    /// The checksum byte of the word at `word_index` does not match.
    ChecksumMismatch { word_index: usize },
}

proof fn lemma_mul3_div_mod(i: int)
    by (nonlinear_arith)
    requires
        i >= 0,
    ensures
        (3 * i) / 3 == i,
        (3 * i + 1) / 3 == i,
        (3 * i + 2) / 3 == i,
        (3 * i) % 3 == 0,
        (3 * i + 1) % 3 == 1,
        (3 * i + 2) % 3 == 2,
{
}

/// Encode a sequence of words for the wire: for each word its two big-endian
/// bytes followed by their checksum byte.
pub fn encode_words(words: &Vec<u16>) -> (r: Vec<u8>)
    ensures
        r@ == encode_words_spec(words@),
{
    let mut out: Vec<u8> = Vec::new();
    let mut i: usize = 0;
    while i < words.len()
        invariant
            i <= words@.len(),
            out@.len() == 3 * i,
            forall|j: int| 0 <= j < 3 * i ==> out@[j] == encoded_byte(words@, j),
        decreases words@.len() - i,
    {
        let w = words[i];
        let hi: u8 = (w / 256) as u8;
        let lo: u8 = (w % 256) as u8;
        let c: u8 = checksum(hi, lo);
        out.push(hi);
        out.push(lo);
        out.push(c);
        proof {
            lemma_mul3_div_mod(i as int);
        }
        i = i + 1;
    }
    proof {
        assert(out@ =~= encode_words_spec(words@));
    }
    out
}

/// Decode a response buffer into its words, validating every checksum.
///
/// Succeeds exactly on buffers whose length is a multiple of 3 and whose
/// every word carries a correct checksum; a wrong length is reported as
/// `InvalidLength`, and a checksum failure reports the first failing word's
/// position.
pub fn decode_words(buf: &[u8]) -> (r: Result<Vec<u16>, DecodeError>)
    ensures
        r == Err::<Vec<u16>, DecodeError>(DecodeError::InvalidLength) <==> buf@.len() % 3 != 0,
        r is Ok <==> buf@.len() % 3 == 0 && all_words_ok(buf@),
        r matches Ok(ws) ==> ws@ == words_of(buf@),
        r matches Err(DecodeError::ChecksumMismatch { word_index }) ==> {
            &&& buf@.len() % 3 == 0
            &&& word_index < buf@.len() / 3
            &&& !word_ok(buf@, word_index as int)
            &&& forall|j: int| 0 <= j < word_index ==> word_ok(buf@, j)
        },
{
    if buf.len() % 3 != 0 {
        return Err(DecodeError::InvalidLength);
    }
    let n: usize = buf.len() / 3;
    proof {
        lemma_fundamental_div_mod(buf@.len() as int, 3);
    }
    let mut words: Vec<u16> = Vec::new();
    let mut i: usize = 0;
    while i < n
        invariant
            buf@.len() % 3 == 0,
            n == buf@.len() / 3,
            buf@.len() == 3 * n,
            buf@.len() <= usize::MAX,
            i <= n,
            words@.len() == i,
            forall|j: int| 0 <= j < i ==> word_ok(buf@, j),
            forall|j: int| 0 <= j < i ==> words@[j] == word_at(buf@, j),
        decreases n - i,
    {
        let hi: u8 = buf[3 * i];
        let lo: u8 = buf[3 * i + 1];
        let c: u8 = buf[3 * i + 2];
        if !verify(hi, lo, c) {
            proof {
                assert(!word_ok(buf@, i as int));
                assert(!all_words_ok(buf@));
            }
            return Err(DecodeError::ChecksumMismatch { word_index: i });
        }
        let w: u16 = (hi as u16) * 256 + (lo as u16);
        proof {
            assert(word_of_bytes(hi, lo) == w);
        }
        words.push(w);
        i = i + 1;
    }
    proof {
        assert(words@ =~= words_of(buf@));
    }
    Ok(words)
}

/// The 2-byte big-endian serialization of a command code.
pub open spec fn command_bytes_spec(code: u16) -> Seq<u8> {
    seq![word_hi(code), word_lo(code)]
}

/// A write payload that carries data: the 2 command bytes followed by the
/// data word's 2 bytes and their checksum byte, 5 bytes in all.
pub open spec fn command_with_word_spec(code: u16, w: u16) -> Seq<u8> {
    command_bytes_spec(code) + encode_words_spec(seq![w])
}

/// Serialize a command code as its 2 big-endian bytes.
pub fn encode_command(code: u16) -> (r: Vec<u8>)
    ensures
        r@ == command_bytes_spec(code),
{
    let hi: u8 = (code / 256) as u8;
    let lo: u8 = (code % 256) as u8;
    let mut out: Vec<u8> = Vec::new();
    out.push(hi);
    out.push(lo);
    proof {
        assert(out@ =~= command_bytes_spec(code));
    }
    out
}

/// Build the 5-byte payload of a write that carries one data word.
pub fn encode_command_with_word(code: u16, w: u16) -> (r: Vec<u8>)
    ensures
        r@ == command_with_word_spec(code, w),
        r@.len() == 5,
{
    let mut out = encode_command(code);
    let hi: u8 = (w / 256) as u8;
    let lo: u8 = (w % 256) as u8;
    let c: u8 = checksum(hi, lo);
    out.push(hi);
    out.push(lo);
    out.push(c);
    proof {
        assert(out@ =~= command_with_word_spec(code, w));
    }
    out
}

/// Decode a 1-word response (3 bytes): the word at positions 0 and 1,
/// validated by the checksum byte at position 2.
pub fn decode_word_response(buf: &[u8]) -> (r: Result<u16, DecodeError>)
    ensures
        r is Ok <==> buf@.len() == 3 && all_words_ok(buf@),
        r matches Ok(w) ==> w == word_at(buf@, 0),
        r == Err::<u16, DecodeError>(DecodeError::InvalidLength) <==> buf@.len() != 3,
        r matches Err(DecodeError::ChecksumMismatch { word_index }) ==> buf@.len() == 3
            && word_index == 0 && !word_ok(buf@, 0),
{
    if buf.len() != 3 {
        return Err(DecodeError::InvalidLength);
    }
    match decode_words(buf) {
        Ok(ws) => Ok(ws[0]),
        Err(e) => Err(e),
    }
}

/// Decode a 3-word response (9 bytes) into its three words, in wire order.
pub fn decode_three_words(buf: &[u8]) -> (r: Result<(u16, u16, u16), DecodeError>)
    ensures
        r is Ok <==> buf@.len() == 9 && all_words_ok(buf@),
        r matches Ok(t) ==> t.0 == word_at(buf@, 0) && t.1 == word_at(buf@, 1) && t.2
            == word_at(buf@, 2),
        r == Err::<(u16, u16, u16), DecodeError>(DecodeError::InvalidLength) <==> buf@.len() != 9,
        r matches Err(DecodeError::ChecksumMismatch { word_index }) ==> {
            &&& buf@.len() == 9
            &&& word_index < 3
            &&& !word_ok(buf@, word_index as int)
            &&& forall|j: int| 0 <= j < word_index ==> word_ok(buf@, j)
        },
{
    if buf.len() != 9 {
        return Err(DecodeError::InvalidLength);
    }
    match decode_words(buf) {
        Ok(ws) => Ok((ws[0], ws[1], ws[2])),
        Err(e) => Err(e),
    }
}

/// The 48-bit serial number assembled from three words, most significant
/// word first.
pub open spec fn serial_of_words(a: u16, b: u16, c: u16) -> u64 {
    (a * 0x1_0000_0000 + b * 0x1_0000 + c) as u64
}

/// Assemble a 48-bit serial number from its three big-endian words.
pub fn serial_from_words(a: u16, b: u16, c: u16) -> (r: u64)
    ensures
        r == serial_of_words(a, b, c),
        r < 0x1_0000_0000_0000,
{
    (a as u64) * 0x1_0000_0000 + (b as u64) * 0x1_0000 + (c as u64)
}

/// Decode the 9-byte serial-number response into the 48-bit serial.
pub fn decode_serial_response(buf: &[u8]) -> (r: Result<u64, DecodeError>)
    ensures
        r is Ok <==> buf@.len() == 9 && all_words_ok(buf@),
        r matches Ok(s) ==> s == serial_of_words(word_at(buf@, 0), word_at(buf@, 1), word_at(buf@, 2))
            && s < 0x1_0000_0000_0000,
        r == Err::<u64, DecodeError>(DecodeError::InvalidLength) <==> buf@.len() != 9,
        r matches Err(DecodeError::ChecksumMismatch { word_index }) ==> {
            &&& buf@.len() == 9
            &&& word_index < 3
            &&& !word_ok(buf@, word_index as int)
            &&& forall|j: int| 0 <= j < word_index ==> word_ok(buf@, j)
        },
{
    match decode_three_words(buf) {
        Ok((a, b, c)) => Ok(serial_from_words(a, b, c)),
        Err(e) => Err(e),
    }
}

/// Whether a status word reports a measurement ready: the low 11 bits are
/// not all zero.
pub open spec fn data_ready_of_status(status: u16) -> bool {
    status & 0x7FF != 0
}

/// Derive the data-ready flag from a status word.
pub fn data_ready_from_status(status: u16) -> (r: bool)
    ensures
        r == data_ready_of_status(status),
{
    (status & 0x7FF) != 0
}

/// Law: an encoded buffer is well formed — its length is 3 bytes per word and
/// a multiple of 3, every word's checksum verifies, and stripping the
/// checksum bytes gives back exactly the words that were encoded. Together
/// with the contract of `decode_words`, decoding an encoded buffer always
/// succeeds and reproduces the original words.
pub proof fn lemma_encode_decode_round_trip(ws: Seq<u16>)
    ensures
        encode_words_spec(ws).len() == 3 * ws.len(),
        encode_words_spec(ws).len() % 3 == 0,
        all_words_ok(encode_words_spec(ws)),
        words_of(encode_words_spec(ws)) == ws,
{
    let bytes = encode_words_spec(ws);
    lemma_mul3_div_mod(ws.len() as int);
    assert(bytes.len() / 3 == ws.len());
    assert forall|i: int| 0 <= i < bytes.len() / 3 implies word_ok(bytes, i) by {
        lemma_mul3_div_mod(i);
    }
    assert forall|i: int| 0 <= i < bytes.len() / 3 implies words_of(bytes)[i] == ws[i] by {
        lemma_mul3_div_mod(i);
        lemma_word_bytes_round_trip(ws[i]);
    }
    assert(words_of(bytes) =~= ws);
}

/// Law: corrupting the checksum byte of any single word of an encoded buffer
/// leaves every other word verifying and makes exactly the corrupted word
/// fail. Together with the contract of `decode_words`, decoding such a buffer
/// reports a checksum mismatch at precisely the corrupted word's position.
pub proof fn lemma_corrupt_checksum_detected(ws: Seq<u16>, i: int, c: u8)
    requires
        0 <= i < ws.len(),
        c != crc8_of(word_hi(ws[i]), word_lo(ws[i])),
    ensures
        ({
            let bytes = encode_words_spec(ws).update(3 * i + 2, c);
            &&& bytes.len() % 3 == 0
            &&& bytes.len() / 3 == ws.len()
            &&& !word_ok(bytes, i)
            &&& forall|j: int| 0 <= j < bytes.len() / 3 && j != i ==> word_ok(bytes, j)
            &&& !all_words_ok(bytes)
        }),
{
    let clean = encode_words_spec(ws);
    let bytes = clean.update(3 * i + 2, c);
    lemma_mul3_div_mod(ws.len() as int);
    lemma_mul3_div_mod(i);
    assert(!word_ok(bytes, i));
    assert forall|j: int| 0 <= j < bytes.len() / 3 && j != i implies word_ok(bytes, j) by {
        lemma_mul3_div_mod(j);
        assert(bytes[3 * j] == clean[3 * j]);
        assert(bytes[3 * j + 1] == clean[3 * j + 1]);
        assert(bytes[3 * j + 2] == clean[3 * j + 2]);
    }
}

} // verus!
