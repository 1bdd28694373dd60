use vstd::prelude::*;
use openssl::symm::Cipher;
use rustc_serialize::hex::FromHex;

verus! {

/// The SHA-256 digest of a byte string.
pub uninterp spec fn sha256_of(data: Seq<u8>) -> Seq<u8>;

/// AES-256-ECB encryption of `data` under `key`, with PKCS#7 padding.
pub uninterp spec fn aes256_ecb_of(key: Seq<u8>, data: Seq<u8>) -> Seq<u8>;

/// AES-256-CBC encryption of `data` under `key` and `iv`, with PKCS#7 padding.
pub uninterp spec fn aes256_cbc_of(key: Seq<u8>, iv: Seq<u8>, data: Seq<u8>) -> Seq<u8>;

pub open spec fn is_hex_digit(b: u8) -> bool {
    (48u8 <= b && b <= 57u8) || (97u8 <= b && b <= 102u8) || (65u8 <= b && b <= 70u8)
}

pub open spec fn hex_value(b: u8) -> int {
    if 48u8 <= b && b <= 57u8 {
        b - 48u8
    } else if 97u8 <= b && b <= 102u8 {
        b - 97u8 + 10
    } else {
        b - 65u8 + 10
    }
}

pub open spec fn all_hex(s: Seq<u8>) -> bool {
    forall|i: int| 0 <= i < s.len() ==> #[trigger] is_hex_digit(s[i])
}

/// The bytes that a string of hex digits spells, two digits per byte.
pub open spec fn hex_decoded(s: Seq<u8>) -> Seq<u8> {
    Seq::new(s.len() / 2, |i: int| (16 * hex_value(s[2 * i]) + hex_value(s[2 * i + 1])) as u8)
}

/// AES-256-CBC decryption of `data` under `key` and `iv`, padding stripped.
pub uninterp spec fn aes256_cbc_decrypt_of(key: Seq<u8>, iv: Seq<u8>, data: Seq<u8>) -> Seq<u8>;

/// Relies on openssl::sha::sha256: the 32-byte digest of the input.
#[verifier::external_body]
pub(crate) fn sha256(data: &[u8]) -> (r: Vec<u8>)
    ensures
        r@ == sha256_of(data@),
        r@.len() == 32,
{
    openssl::sha::sha256(data).to_vec()
}

/// The longest input the one-shot openssl ciphers take here: the length must
/// fit a C `int`, with room for one more block.
pub const MAX_CIPHER_INPUT: usize = 2147483462;

/// Relies on openssl::symm::encrypt with AES-256-ECB: the padded encryption.
#[verifier::external_body]
pub(crate) fn aes256_ecb_encrypt(key: &[u8], data: &[u8]) -> (r: Option<Vec<u8>>)
    requires
        key@.len() == 32,
        data@.len() == 32,
    ensures
        r is Some ==> r->0@ == aes256_ecb_of(key@, data@),
{
    openssl::symm::encrypt(Cipher::aes_256_ecb(), key, None, data).ok()
}

/// Relies on openssl::symm::encrypt with AES-256-CBC: the padded encryption.
#[verifier::external_body]
pub(crate) fn aes256_cbc_encrypt(key: &[u8], iv: &[u8], data: &[u8]) -> (r: Option<Vec<u8>>)
    requires
        key@.len() == 32,
        iv@.len() == 16,
        data@.len() <= MAX_CIPHER_INPUT,
    ensures
        r is Some ==> r->0@ == aes256_cbc_of(key@, iv@, data@),
{
    openssl::symm::encrypt(Cipher::aes_256_cbc(), key, Some(iv), data).ok()
}

/// Relies on openssl::symm::decrypt with AES-256-CBC: it strips and checks the
/// padding, and what it returns from an encryption under the same key and IV is
/// the plaintext that was encrypted.
#[verifier::external_body]
pub(crate) fn aes256_cbc_decrypt(key: &[u8], iv: &[u8], data: &[u8]) -> (r: Option<Vec<u8>>)
    requires
        key@.len() == 32,
        iv@.len() == 16,
        data@.len() <= MAX_CIPHER_INPUT,
    ensures
        r is Some ==> r->0@ == aes256_cbc_decrypt_of(key@, iv@, data@),
        forall|p: Seq<u8>|
            #![trigger aes256_cbc_of(key@, iv@, p)]
            data@ == aes256_cbc_of(key@, iv@, p) && r is Some ==> r->0@ == p,
{
    openssl::symm::decrypt(Cipher::aes_256_cbc(), key, Some(iv), data).ok()
}

/// Relies on rustc_serialize's `FromHex for str`: a string of hex digits of even
/// length decodes to the bytes it spells, two digits per byte.
#[verifier::external_body]
pub(crate) fn hex_decode(text: &[u8]) -> (r: Vec<u8>)
    requires
        all_hex(text@),
        text@.len() % 2 == 0,
    ensures
        r@ == hex_decoded(text@),
{
    std::str::from_utf8(text).ok().and_then(|s| s.from_hex().ok()).unwrap_or_default()
}

/// Relies on std::hint::black_box: a best-effort hint that keeps the compiler from
/// treating the writes that zeroed `b` as dead.
#[verifier::external_body]
pub(crate) fn keep_zeroed(b: &[u8]) {
    std::hint::black_box(b);
}

} // verus!
