//! Reversible obfuscation of the access token: the UTF-8 bytes of the
//! secret are XOR-ed with a fixed key repeated over their length, then
//! written as lowercase hex.
//!
//! This is obfuscation, not encryption: the key is fixed and public, so
//! anyone who has it can reverse the transform. It only keeps the token
//! from appearing as readable text in stored or exported files.
use vstd::prelude::*;
use vstd::utf8::{
    decode_utf8,
    encode_utf8,
    encode_utf8_decode_utf8,
    encode_utf8_valid_utf8,
    is_ascii_chars,
    is_ascii_chars_encode_utf8,
    valid_utf8,
};

verus! {

/// The fixed key of the obfuscation.
pub const CRYPT_KEY: &'static str = "OBFUSCATION_ONLY";

/// `data` XOR-ed byte by byte with `key` repeated; nothing where the key is
/// empty.
pub open spec fn xor_with_key(data: Seq<u8>, key: Seq<u8>) -> Seq<u8> {
    if key.len() == 0 {
        Seq::empty()
    } else {
        Seq::new(data.len(), |i: int| data[i] ^ key[i % (key.len() as int)])
    }
}

/// The lowercase hex digit of a value below 16, as a character code.
pub open spec fn hex_digit(v: int) -> u8 {
    if v < 10 {
        (48 + v) as u8
    } else {
        (87 + v) as u8
    }
}

/// Two lowercase hex digits for each byte, high digit first.
pub open spec fn hex_chars(data: Seq<u8>) -> Seq<char> {
    Seq::new(
        2 * data.len(),
        |i: int|
            if i % 2 == 0 {
                hex_digit(data[i / 2] as int / 16) as char
            } else {
                hex_digit(data[i / 2] as int % 16) as char
            },
    )
}

/// The value of a hex digit of either case.
pub open spec fn hex_value(c: char) -> Option<u8> {
    hex_code_value(c as int)
}

/// The value of the hex digit with character code `u`.
pub open spec fn hex_code_value(u: int) -> Option<u8> {
    if 48 <= u <= 57 {
        Some((u - 48) as u8)
    } else if 97 <= u <= 102 {
        Some((u - 87) as u8)
    } else if 65 <= u <= 70 {
        Some((u - 55) as u8)
    } else {
        None
    }
}

/// The bytes that hex text stands for; `None` where its length is odd or
/// a character is no hex digit (hex digits being ASCII characters).
pub open spec fn hex_decode(s: Seq<char>) -> Option<Seq<u8>> {
    if is_ascii_chars(s) && s.len() % 2 == 0 && forall|i: int| 0 <= i < s.len() ==> (#[trigger] hex_value(s[i])) is Some {
        Some(
            Seq::new(
                s.len() / 2,
                |i: int| (hex_value(s[2 * i])->0 * 16 + hex_value(s[2 * i + 1])->0) as u8,
            ),
        )
    } else {
        None
    }
}

/// The bytes of the key.
pub open spec fn key_bytes() -> Seq<u8> {
    encode_utf8(CRYPT_KEY@)
}

/// The obfuscated text of a secret.
pub open spec fn obfuscated(secret: Seq<char>) -> Seq<char> {
    hex_chars(xor_with_key(encode_utf8(secret), key_bytes()))
}

/// The secret that obfuscated text stands for; `None` where the text is no
/// hex, or the bytes it gives are no UTF-8.
pub open spec fn deobfuscated(text: Seq<char>) -> Option<Seq<char>> {
    match hex_decode(text) {
        Some(bytes) => {
            let plain = xor_with_key(bytes, key_bytes());
            if valid_utf8(plain) {
                Some(decode_utf8(plain))
            } else {
                None
            }
        },
        None => None,
    }
}

/// The text of an optional string.
pub open spec fn opt_string_view(s: Option<String>) -> Option<Seq<char>> {
    match s {
        Some(s) => Some(s@),
        None => None,
    }
}

/// Relies on `String::from_utf8`, which accepts exactly the valid UTF-8 byte
/// sequences and then holds the characters that they encode.
#[verifier::external_body]
fn utf8_to_string(bytes: Vec<u8>) -> (r: Option<String>)
    ensures
        r is Some <==> valid_utf8(bytes@),
        r is Some ==> r->0@ == decode_utf8(bytes@),
{
    String::from_utf8(bytes).ok()
}

/// XOR of `data` with `key` repeated.
fn xor_bytes(data: &[u8], key: &[u8]) -> (r: Vec<u8>)
    ensures
        r@ == xor_with_key(data@, key@),
{
    let mut out: Vec<u8> = Vec::new();
    if key.len() == 0 {
        return out;
    }
    let mut i: usize = 0;
    while i < data.len()
        invariant
            key@.len() > 0,
            0 <= i <= data@.len(),
            out@ =~= xor_with_key(data@, key@).take(i as int),
        decreases data.len() - i,
    {
        out.push(data[i] ^ key[i % key.len()]);
        i = i + 1;
    }
    out
}

/// The UTF-8 bytes of `input`, XOR-ed with `key` repeated.
pub fn xor_encrypt(input: &str, key: &str) -> (r: Vec<u8>)
    ensures
        r@ == xor_with_key(encode_utf8(input@), encode_utf8(key@)),
{
    xor_bytes(input.as_bytes(), key.as_bytes())
}

/// `encrypted` XOR-ed with `key` repeated, read as UTF-8; `None` where the
/// result is no UTF-8.
pub fn xor_decrypt(encrypted: &[u8], key: &str) -> (r: Option<String>)
    ensures
        r is Some <==> valid_utf8(xor_with_key(encrypted@, encode_utf8(key@))),
        r is Some ==> r->0@ == decode_utf8(xor_with_key(encrypted@, encode_utf8(key@))),
{
    utf8_to_string(xor_bytes(encrypted, key.as_bytes()))
}

fn hex_digit_code(v: u8) -> (r: u8)
    requires
        v < 16,
    ensures
        r == hex_digit(v as int),
{
    if v < 10 {
        48 + v
    } else {
        87 + v
    }
}

/// Lowercase hex text of `bytes`.
pub fn encode_hex(bytes: &[u8]) -> (r: String)
    ensures
        r@ == hex_chars(bytes@),
{
    let mut codes: Vec<u8> = Vec::new();
    let mut i: usize = 0;
    while i < bytes.len()
        invariant
            0 <= i <= bytes@.len(),
            codes.len() == 2 * i,
            forall|k: int| 0 <= k < 2 * i ==> (#[trigger] codes@[k]) as char == hex_chars(bytes@)[k],
            forall|k: int| 0 <= k < 2 * i ==> #[trigger] codes@[k] < 128,
        decreases bytes.len() - i,
    {
        codes.push(hex_digit_code(bytes[i] / 16));
        codes.push(hex_digit_code(bytes[i] % 16));
        i = i + 1;
    }
    let r = ascii_string(codes);
    assert(r@ =~= hex_chars(bytes@));
    r
}

/// The text whose characters have the given ASCII codes.
pub(crate) fn ascii_string(codes: Vec<u8>) -> (r: String)
    requires
        forall|k: int| 0 <= k < codes.len() ==> #[trigger] codes@[k] < 128,
    ensures
        r@ == Seq::new(codes@.len(), |k: int| codes@[k] as char),
{
    let ghost chars = Seq::new(codes@.len(), |k: int| codes@[k] as char);
    proof {
        assert(is_ascii_chars(chars));
        is_ascii_chars_encode_utf8(chars);
        assert(codes@ =~= encode_utf8(chars));
        encode_utf8_valid_utf8(chars);
        encode_utf8_decode_utf8(chars);
    }
    match utf8_to_string(codes) {
        Some(s) => s,
        None => String::new(),
    }
}

fn hex_byte_value(b: u8) -> (r: Option<u8>)
    ensures
        r == hex_code_value(b as int),
{
    if 48 <= b && b <= 57 {
        Some(b - 48)
    } else if 97 <= b && b <= 102 {
        Some(b - 87)
    } else if 65 <= b && b <= 70 {
        Some(b - 55)
    } else {
        None
    }
}

/// The bytes that hex text of either case stands for; `None` where its
/// length is odd or a character is no hex digit.
pub fn decode_hex(s: &str) -> (r: Option<Vec<u8>>)
    ensures
        match r {
            Some(v) => hex_decode(s@) == Some(v@),
            None => hex_decode(s@) is None,
        },
{
    broadcast use vstd::string::is_ascii_spec_bytes;

    if !s.is_ascii() {
        return None;
    }
    let bytes = s.as_bytes();
    let n = bytes.len();
    proof {
        vstd::utf8::is_ascii_chars_nat_bound(s@);
        assert(bytes@.len() == s@.len());
        assert forall|k: int| 0 <= k < n implies (#[trigger] bytes@[k]) as int == s@[k] as int by {
            assert(bytes@[k] == s@[k] as u8);
        }
    }
    if n % 2 != 0 {
        return None;
    }
    let mut out: Vec<u8> = Vec::new();
    let mut i: usize = 0;
    while i < n / 2
        invariant
            n == bytes@.len() == s@.len(),
            n % 2 == 0,
            forall|k: int| 0 <= k < n ==> (#[trigger] bytes@[k]) as int == s@[k] as int,
            0 <= i <= n / 2,
            out.len() == i,
            forall|k: int| 0 <= k < 2 * i ==> (#[trigger] hex_value(s@[k])) is Some,
            forall|k: int|
                0 <= k < i ==> #[trigger] out@[k] == (hex_value(s@[2 * k])->0 * 16 + hex_value(
                    s@[2 * k + 1],
                )->0) as u8,
        decreases n / 2 - i,
    {
        let hi = hex_byte_value(bytes[2 * i]);
        let lo = hex_byte_value(bytes[2 * i + 1]);
        match (hi, lo) {
            (Some(h), Some(l)) => {
                out.push(h * 16 + l);
            },
            _ => {
                proof {
                    if hi is None {
                        assert(hex_value(s@[2 * i as int]) is None);
                    } else {
                        assert(hex_value(s@[2 * i + 1]) is None);
                    }
                }
                return None;
            },
        }
        i = i + 1;
    }
    proof {
        assert(out@ =~= hex_decode(s@)->0);
    }
    Some(out)
}

/// The obfuscated text of a secret.
pub fn encode(input: &str) -> (r: String)
    ensures
        r@ == obfuscated(input@),
{
    let encrypted = xor_encrypt(input, CRYPT_KEY);
    encode_hex(encrypted.as_slice())
}

/// The secret that obfuscated text stands for; `None` where the text is no
/// hex, or its bytes do not decode to UTF-8.
pub fn decode(input: &str) -> (r: Option<String>)
    ensures
        opt_string_view(r) == deobfuscated(input@),
{
    match decode_hex(input) {
        Some(bytes) => xor_decrypt(bytes.as_slice(), CRYPT_KEY),
        None => None,
    }
}

proof fn lemma_key_not_empty()
    ensures
        key_bytes().len() > 0,
{
    reveal_strlit("OBFUSCATION_ONLY");
    assert(is_ascii_chars(CRYPT_KEY@));
    is_ascii_chars_encode_utf8(CRYPT_KEY@);
}

proof fn lemma_xor_twice(data: Seq<u8>, key: Seq<u8>)
    requires
        key.len() > 0,
    ensures
        xor_with_key(xor_with_key(data, key), key) == data,
{
    let once = xor_with_key(data, key);
    assert forall|i: int| 0 <= i < data.len() implies #[trigger] xor_with_key(once, key)[i] == data[i] by {
        let a = data[i];
        let b = key[i % (key.len() as int)];
        assert(a ^ b ^ b == a) by (bit_vector);
    }
    assert(xor_with_key(once, key) =~= data);
}

proof fn lemma_hex_round_trip(data: Seq<u8>)
    ensures
        hex_decode(hex_chars(data)) == Some(data),
{
    let t = hex_chars(data);
    assert forall|i: int| 0 <= i < t.len() implies (#[trigger] hex_value(t[i])) is Some by {
        let v = if i % 2 == 0 { data[i / 2] as int / 16 } else { data[i / 2] as int % 16 };
        assert(0 <= v < 16);
    }
    assert forall|k: int| 0 <= k < data.len() implies (hex_value(t[2 * k])->0 * 16 + hex_value(
        t[2 * k + 1],
    )->0) as u8 == #[trigger] data[k] by {
        assert((2 * k) / 2 == k);
        assert((2 * k + 1) / 2 == k);
        assert((2 * k) % 2 == 0);
        assert((2 * k + 1) % 2 == 1);
        let b = data[k] as int;
        assert(b == (b / 16) * 16 + b % 16);
    }
    assert(hex_decode(t)->0 =~= data);
}

/// Deobfuscating the obfuscated text of any secret gives the secret back.
pub proof fn lemma_obfuscation_round_trip(secret: Seq<char>)
    ensures
        deobfuscated(obfuscated(secret)) == Some(secret),
{
    lemma_key_not_empty();
    let bytes = encode_utf8(secret);
    let hidden = xor_with_key(bytes, key_bytes());
    lemma_hex_round_trip(hidden);
    lemma_xor_twice(bytes, key_bytes());
    encode_utf8_valid_utf8(secret);
    encode_utf8_decode_utf8(secret);
}

} // verus!
