use vstd::prelude::*;
use crate::crypto::{all_hex, hex_decode, hex_decoded, is_hex_digit, sha256, sha256_of};
use crate::error::V1KpdbError;
use crate::sec_str::{wipe, SecureString};

verus! {

/// The key that a key file's contents give: 32 bytes are the key, 64 hex digits
/// spell it, anything else is hashed.
pub open spec fn keyfile_key_of(contents: Seq<u8>) -> Seq<u8> {
    if contents.len() == 32 {
        contents
    } else if contents.len() == 64 && all_hex(contents) {
        hex_decoded(contents)
    } else {
        sha256_of(contents)
    }
}

/// The master key for a passphrase, a key file's contents, or both.
pub open spec fn master_key_of(password: Option<Seq<u8>>, keyfile: Option<Seq<u8>>) -> Option<Seq<u8>> {
    match (password, keyfile) {
        (Some(p), None) => Some(sha256_of(p)),
        (None, Some(k)) => Some(keyfile_key_of(k)),
        (Some(p), Some(k)) => Some(sha256_of(sha256_of(p) + keyfile_key_of(k))),
        (None, None) => None,
    }
}

/// What a credential slot holds.
pub open spec fn credential(c: Option<SecureString>) -> Option<Seq<u8>> {
    match c {
        Some(s) => Some(s@),
        None => None,
    }
}

pub fn is_all_hex(b: &Vec<u8>) -> (r: bool)
    ensures
        r == all_hex(b@),
{
    let mut i: usize = 0;
    while i < b.len()
        invariant
            i <= b@.len(),
            forall|j: int| 0 <= j < i ==> #[trigger] is_hex_digit(b@[j]),
        decreases b@.len() - i,
    {
        let c = b[i];
        if !((48u8 <= c && c <= 57u8) || (97u8 <= c && c <= 102u8) || (65u8 <= c && c <= 70u8)) {
            assert(!is_hex_digit(b@[i as int]));
            return false;
        }
        i = i + 1;
    }
    true
}

/// A fresh vector with the bytes of `a` followed by those of `b`, allocated once
/// at its final size so that no partial copy is left behind.
pub fn concat(a: &Vec<u8>, b: &Vec<u8>) -> (r: Vec<u8>)
    requires
        a@.len() + b@.len() <= usize::MAX,
    ensures
        r@ == a@ + b@,
{
    let mut r: Vec<u8> = Vec::with_capacity(a.len() + b.len());
    let mut i: usize = 0;
    while i < a.len()
        invariant
            i <= a@.len(),
            r@ == a@.subrange(0, i as int),
        decreases a@.len() - i,
    {
        r.push(a[i]);
        i = i + 1;
    }
    let mut j: usize = 0;
    while j < b.len()
        invariant
            j <= b@.len(),
            r@ == a@ + b@.subrange(0, j as int),
        decreases b@.len() - j,
    {
        r.push(b[j]);
        j = j + 1;
    }
    assert(a@.subrange(0, a@.len() as int) == a@);
    assert(b@.subrange(0, b@.len() as int) == b@);
    r
}

/// The key for a key file's contents.
pub fn keyfile_key_from_contents(contents: &Vec<u8>) -> (r: Vec<u8>)
    ensures
        r@ == keyfile_key_of(contents@),
        r@.len() == 32,
{
    if contents.len() == 32 {
        let e: Vec<u8> = Vec::new();
        concat(contents, &e)
    } else if contents.len() == 64 && is_all_hex(contents) {
        hex_decode(contents.as_slice())
    } else {
        sha256(contents.as_slice())
    }
}

/// Hashes the passphrase, then erases its readable copy.
fn get_passwordkey(password: &mut SecureString) -> (r: Vec<u8>)
    ensures
        r@ == sha256_of(old(password)@),
        r@.len() == 32,
        final(password)@ == old(password)@,
        final(password).readable().len() == 0,
{
    password.unlock();
    let key = sha256(password.bytes().as_slice());
    password.delete();
    key
}

/// Derives the key from a key file's contents, then erases their readable copy.
fn get_keyfilekey(keyfile: &mut SecureString) -> (r: Vec<u8>)
    ensures
        r@ == keyfile_key_of(old(keyfile)@),
        r@.len() == 32,
        final(keyfile)@ == old(keyfile)@,
        final(keyfile).readable().len() == 0,
{
    keyfile.unlock();
    let key = keyfile_key_from_contents(keyfile.bytes());
    keyfile.delete();
    key
}

/// What a credential slot holds, and that its readable copy is erased.
pub open spec fn erased(c: Option<SecureString>) -> bool {
    match c {
        Some(s) => s.readable().len() == 0,
        None => true,
    }
}

/// The master key from the credentials present; `PassErr` when there are none.
/// Each credential present is left with its readable copy erased.
pub fn get_masterkey(password: &mut Option<SecureString>, keyfile: &mut Option<SecureString>) -> (r: Result<Vec<u8>, V1KpdbError>)
    ensures
        credential(*final(password)) == credential(*old(password)),
        credential(*final(keyfile)) == credential(*old(keyfile)),
        match master_key_of(credential(*old(password)), credential(*old(keyfile))) {
            Some(m) => r is Ok && r->Ok_0@ == m,
            None => r == Err::<Vec<u8>, V1KpdbError>(V1KpdbError::PassErr),
        },
        r is Ok ==> r->Ok_0@.len() == 32,
        erased(*final(password)),
        erased(*final(keyfile)),
{
    match (password, keyfile) {
        (Some(p), None) => Ok(get_passwordkey(p)),
        (None, Some(k)) => Ok(get_keyfilekey(k)),
        (Some(p), Some(k)) => {
            let mut passwordkey = get_passwordkey(p);
            let mut keyfilekey = get_keyfilekey(k);
            let mut both = concat(&passwordkey, &keyfilekey);
            let masterkey = sha256(both.as_slice());
            wipe(&mut both);
            wipe(&mut passwordkey);
            wipe(&mut keyfilekey);
            Ok(masterkey)
        },
        (None, None) => Err(V1KpdbError::PassErr),
    }
}

/// A single key file gives the key its contents determine; a passphrase with a
/// key file gives the digest of the passphrase key followed by the key-file key.
pub proof fn lemma_credential_equivalence(p: Seq<u8>, k: Seq<u8>)
    ensures
        master_key_of(Some(p), None) == Some(sha256_of(p)),
        k.len() == 32 ==> master_key_of(None, Some(k)) == Some(k),
        master_key_of(Some(p), Some(k)) == Some(sha256_of(
            master_key_of(Some(p), None)->0 + master_key_of(None, Some(k))->0)),
{
}

/// Sixty-four bytes that are not all hex digits are hashed, not decoded.
pub proof fn lemma_hex_fallback(k: Seq<u8>, i: int)
    requires
        k.len() == 64,
        0 <= i < 64,
        !is_hex_digit(k[i]),
    ensures
        keyfile_key_of(k) == sha256_of(k),
{
}

} // verus!
