//! The autokey XOR stream obfuscation used on the wire, the single-byte
//! transcoding that precedes it, and the optional big-endian length frame.
use vstd::prelude::*;
use vstd::utf8::{decode_utf8, valid_utf8};
use crate::error::Error;
use byteorder::ByteOrder;
use encoding::Encoding;

verus! {

/// The seed of the key stream in both directions.
pub const INITIAL_KEY: u8 = 171;

/// Cipher byte `i` of the obfuscation of `plain`: the key in force XOR the
/// plain byte, where the key is the seed for the first byte and the previous
/// cipher byte after that.
pub open spec fn cipher_at(plain: Seq<u8>, i: nat) -> u8
    decreases i,
{
    let key = if i == 0 {
        INITIAL_KEY
    } else {
        cipher_at(plain, (i - 1) as nat)
    };
    key ^ plain[i as int]
}

/// Key in force before byte `i` is enciphered.
pub open spec fn key_at(plain: Seq<u8>, i: nat) -> u8 {
    if i == 0 {
        INITIAL_KEY
    } else {
        cipher_at(plain, (i - 1) as nat)
    }
}

/// The obfuscation of a whole plaintext.
pub open spec fn obfuscated(plain: Seq<u8>) -> Seq<u8> {
    Seq::new(plain.len(), |i: int| cipher_at(plain, i as nat))
}

/// Key in force before cipher byte `i` is deciphered.
pub open spec fn key_before(cipher: Seq<u8>, i: int) -> u8 {
    if i == 0 {
        INITIAL_KEY
    } else {
        cipher[i - 1]
    }
}

/// The deobfuscation of a whole ciphertext.
pub open spec fn deobfuscated(cipher: Seq<u8>) -> Seq<u8> {
    Seq::new(cipher.len(), |i: int| key_before(cipher, i) ^ cipher[i])
}

/// The byte that ISO-8859-1 gives a character, `?` where it has none.
pub open spec fn latin1_byte(c: char) -> u8 {
    if (c as u32) <= 0xff {
        c as u8
    } else {
        0x3f
    }
}

/// The ISO-8859-1 transcoding of a text, each unrepresentable character
/// replaced by `?`.
pub open spec fn latin1_bytes(s: Seq<char>) -> Seq<u8> {
    Seq::new(s.len(), |i: int| latin1_byte(s[i]))
}

/// Four bytes holding `n`, most significant first.
pub open spec fn be_bytes(n: u32) -> Seq<u8> {
    seq![(n >> 24) as u8, (n >> 16) as u8, (n >> 8) as u8, n as u8]
}

/// The number that four bytes hold, most significant first.
pub open spec fn be_value(b: Seq<u8>) -> int {
    b[0] * 0x100_0000 + b[1] * 0x1_0000 + b[2] * 0x100 + b[3]
}

/// What goes on the wire for a command text, with or without the frame.
pub open spec fn command_bytes(command: Seq<char>, prepend_length: bool) -> Seq<u8> {
    let body = obfuscated(latin1_bytes(command));
    if prepend_length {
        be_bytes(command.len() as u32) + body
    } else {
        body
    }
}

/// Obfuscates `plain` with the autokey stream: each cipher byte is the key
/// XOR the plain byte, and becomes the next key.
pub fn obfuscate(plain: &[u8]) -> (r: Vec<u8>)
    ensures
        r@ == obfuscated(plain@),
{
    let mut result: Vec<u8> = Vec::new();
    let mut key: u8 = INITIAL_KEY;
    let mut i: usize = 0;
    while i < plain.len()
        invariant
            i <= plain@.len(),
            result@ == Seq::new(i as nat, |j: int| cipher_at(plain@, j as nat)),
            key == key_at(plain@, i as nat),
        decreases plain@.len() - i,
    {
        let c = key ^ plain[i];
        result.push(c);
        key = c;
        i = i + 1;
        assert(result@ =~= Seq::new(i as nat, |j: int| cipher_at(plain@, j as nat)));
    }
    assert(result@ =~= obfuscated(plain@));
    result
}

/// Reverses `obfuscate`: each plain byte is the key XOR the cipher byte, and
/// the cipher byte becomes the next key.
pub fn deobfuscate(cipher: &[u8]) -> (r: Vec<u8>)
    ensures
        r@ == deobfuscated(cipher@),
{
    let mut result: Vec<u8> = Vec::new();
    let mut key: u8 = INITIAL_KEY;
    let mut i: usize = 0;
    while i < cipher.len()
        invariant
            i <= cipher@.len(),
            result@ == Seq::new(i as nat, |j: int| key_before(cipher@, j) ^ cipher@[j]),
            key == key_before(cipher@, i as int),
        decreases cipher@.len() - i,
    {
        let c = cipher[i];
        result.push(key ^ c);
        key = c;
        i = i + 1;
        assert(result@ =~= Seq::new(i as nat, |j: int| key_before(cipher@, j) ^ cipher@[j]));
    }
    assert(result@ =~= deobfuscated(cipher@));
    result
}

/// Deobfuscating an obfuscated byte sequence gives it back.
pub proof fn lemma_round_trip(plain: Seq<u8>)
    ensures
        deobfuscated(obfuscated(plain)) == plain,
{
    let c = obfuscated(plain);
    assert forall|i: int| 0 <= i < plain.len() implies #[trigger] deobfuscated(c)[i] == plain[i] by {
        let k = key_at(plain, i as nat);
        let p = plain[i];
        assert(key_before(c, i) == k);
        assert(c[i] == k ^ p);
        assert(k ^ (k ^ p) == p) by (bit_vector);
    }
    assert(deobfuscated(c) =~= plain);
}

/// The obfuscation depends on the plaintext alone: equal inputs give equal
/// outputs, and the first cipher byte is the seed XOR the first plain byte.
pub proof fn lemma_deterministic(a: Seq<u8>, b: Seq<u8>)
    requires
        a == b,
    ensures
        obfuscated(a) == obfuscated(b),
        a.len() > 0 ==> obfuscated(a)[0] == INITIAL_KEY ^ a[0],
{
}

/// Transcodes a command to single bytes and obfuscates it, optionally behind
/// a four-byte big-endian count of the bytes that follow (for stream
/// transports).
pub fn encrypt_command(command: &str, prepend_length: bool) -> (r: Vec<u8>)
    requires
        prepend_length ==> command@.len() <= u32::MAX,
    ensures
        r@ == command_bytes(command@, prepend_length),
{
    let plain = latin1_encode(command);
    let mut body = obfuscate(plain.as_slice());
    if prepend_length {
        let mut framed = be_u32_bytes(plain.len() as u32);
        framed.append(&mut body);
        framed
    } else {
        body
    }
}

/// Deobfuscates a reply and reads it as UTF-8 text; bytes that are not
/// valid UTF-8 are an encoding error, never a stand-in text.
pub fn decrypt_command(reply: &[u8]) -> (r: Result<String, Error>)
    ensures
        valid_utf8(deobfuscated(reply@)) ==> (r matches Ok(s) && s@ == decode_utf8(
            deobfuscated(reply@),
        )),
        !valid_utf8(deobfuscated(reply@)) ==> r == Err::<String, Error>(Error::Encoding),
{
    let plain = deobfuscate(reply);
    match utf8_text(plain) {
        Some(s) => Ok(s),
        None => Err(Error::Encoding),
    }
}

/// Whether `framed` is a four-byte big-endian count followed by exactly
/// that many bytes.
pub open spec fn is_framed(framed: Seq<u8>) -> bool {
    framed.len() >= 4 && be_value(framed) == framed.len() - 4
}

/// Takes the body out of a length-framed message read from a stream:
/// `None` where the count is missing or disagrees with what follows it.
pub fn strip_length_prefix(framed: &[u8]) -> (r: Option<Vec<u8>>)
    ensures
        r is Some <==> is_framed(framed@),
        r matches Some(body) ==> body@ == framed@.subrange(4, framed@.len() as int),
{
    if framed.len() < 4 {
        return None;
    }
    let count = be_u32_value(framed);
    if count as usize != framed.len() - 4 {
        return None;
    }
    let mut body: Vec<u8> = Vec::new();
    let mut i: usize = 4;
    while i < framed.len()
        invariant
            4 <= i <= framed@.len(),
            body@ == framed@.subrange(4, i as int),
        decreases framed@.len() - i,
    {
        body.push(framed[i]);
        i = i + 1;
        assert(body@ =~= framed@.subrange(4, i as int));
    }
    Some(body)
}

/// Relies on `encoding::all::ISO_8859_1.encode` with `EncoderTrap::Replace`:
/// a character up to U+00FF becomes its own byte, any other becomes `?`, and
/// that trap never reports a failure.
#[verifier::external_body]
fn latin1_encode(s: &str) -> (r: Vec<u8>)
    ensures
        r@ == latin1_bytes(s@),
{
    encoding::all::ISO_8859_1.encode(s, encoding::EncoderTrap::Replace).unwrap()
}

/// Relies on `byteorder::BigEndian::write_u32`: the four bytes of `n`, most
/// significant first.
#[verifier::external_body]
fn be_u32_bytes(n: u32) -> (r: Vec<u8>)
    ensures
        r@ == be_bytes(n),
{
    let mut buf = [0u8; 4];
    byteorder::BigEndian::write_u32(&mut buf, n);
    buf.to_vec()
}

/// Relies on `byteorder::BigEndian::read_u32`: the number that the first
/// four bytes hold, most significant first; it panics on fewer.
#[verifier::external_body]
fn be_u32_value(b: &[u8]) -> (r: u32)
    requires
        b@.len() >= 4,
    ensures
        r as int == be_value(b@),
{
    byteorder::BigEndian::read_u32(b)
}

/// Relies on `String::from_utf8`: the text when the bytes are valid UTF-8,
/// an error otherwise.
#[verifier::external_body]
fn utf8_text(b: Vec<u8>) -> (r: Option<String>)
    ensures
        r is Some <==> valid_utf8(b@),
        r matches Some(s) ==> s@ == decode_utf8(b@),
{
    String::from_utf8(b).ok()
}

} // verus!
