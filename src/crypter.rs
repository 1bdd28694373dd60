use vstd::prelude::*;
use crate::crypto::{
    aes256_cbc_decrypt, aes256_cbc_decrypt_of, aes256_cbc_encrypt, aes256_cbc_of, aes256_ecb_encrypt,
    aes256_ecb_of, sha256, sha256_of, MAX_CIPHER_INPUT,
};
use crate::error::V1KpdbError;
use crate::header::V1Header;
use crate::keys::{concat, credential, erased, get_masterkey, master_key_of};
use crate::sec_str::{wipe, SecureString};

verus! {

/// The largest plaintext the format can hold.
pub const MAX_CONTENT_LEN: usize = 2147483446;

/// The master key after `n` rounds of AES-256-ECB under `seed`, each round
/// keeping the two blocks that encrypt the previous value.
pub open spec fn transformed(seed: Seq<u8>, m: Seq<u8>, n: nat) -> Seq<u8>
    decreases n,
{
    if n == 0 {
        m
    } else {
        aes256_ecb_of(seed, transformed(seed, m, (n - 1) as nat)).take(32)
    }
}

/// The key that encrypts the payload, from the master key and the header's seeds.
pub open spec fn final_key_of(master: Seq<u8>, h: V1Header) -> Seq<u8> {
    sha256_of(h.final_randomseed@ + sha256_of(transformed(h.transf_randomseed@, master, h.key_transf_rounds as nat)))
}

/// Whether a plaintext of `len` bytes can be the payload of a header with `num_groups` groups.
pub open spec fn size_ok(len: nat, num_groups: u32) -> bool {
    !(len > MAX_CONTENT_LEN || (len == 0 && num_groups > 0))
}

/// What the checks after decryption make of the decrypted bytes `d`: a size the
/// format cannot hold is `DecryptErr`, then a digest other than the recorded one
/// is `HashErr`.
pub open spec fn checked_plaintext(header: V1Header, d: Seq<u8>) -> Result<Seq<u8>, V1KpdbError> {
    if !size_ok(d.len(), header.num_groups) {
        Err(V1KpdbError::DecryptErr)
    } else if sha256_of(d) != header.content_hash@ {
        Err(V1KpdbError::HashErr)
    } else {
        Ok(d)
    }
}

/// Shortens `b` to `n` bytes, zeroing the bytes dropped.
fn truncate_zeroed(b: &mut Vec<u8>, n: usize)
    requires
        n <= old(b)@.len(),
    ensures
        final(b)@ == old(b)@.take(n as int),
{
    let len = b.len();
    let mut i: usize = n;
    while i < len
        invariant
            n <= i <= len,
            b@.len() == len,
            b@.take(n as int) == old(b)@.take(n as int),
        decreases len - i,
    {
        b.set(i, 0u8);
        i = i + 1;
    }
    b.truncate(n);
}

/// A crypter for a database: the passphrase and the key file's contents.
pub struct Crypter {
    password: Option<SecureString>,
    keyfile: Option<SecureString>,
}

impl Crypter {
    /// The credentials held.
    pub closed spec fn view(&self) -> (Option<Seq<u8>>, Option<Seq<u8>>) {
        (credential(self.password), credential(self.keyfile))
    }

    /// Every credential held has its readable copy erased.
    pub closed spec fn erased(&self) -> bool {
        erased(self.password) && erased(self.keyfile)
    }

    /// The key that encrypts the payload, when a credential is present.
    pub open spec fn payload_key(&self, header: V1Header) -> Option<Seq<u8>> {
        match master_key_of(self@.0, self@.1) {
            Some(m) => Some(final_key_of(m, header)),
            None => None,
        }
    }

    pub fn new(password: Option<SecureString>, keyfile: Option<SecureString>) -> (r: Crypter)
        ensures
            r@ == (credential(password), credential(keyfile)),
    {
        Crypter { password, keyfile }
    }

    /// Decrypts the payload and checks its size and its hash against the header.
    pub fn decrypt_database(&mut self, header: &V1Header, encrypted_database: Vec<u8>) -> (r: Result<Vec<u8>, V1KpdbError>)
        requires
            header.wf(),
        ensures
            final(self)@ == old(self)@,
            final(self).erased(),
            (r == Err::<Vec<u8>, V1KpdbError>(V1KpdbError::PassErr)) <==> old(self).payload_key(*header) is None,
            old(self).payload_key(*header) is Some && encrypted_database@.len() > MAX_CIPHER_INPUT
                ==> r == Err::<Vec<u8>, V1KpdbError>(V1KpdbError::DecryptErr),
            r is Ok ==> checked_plaintext(*header, aes256_cbc_decrypt_of(
                old(self).payload_key(*header)->0, header.iv@, encrypted_database@)) == Ok::<Seq<u8>, V1KpdbError>(r->Ok_0@),
            r == Err::<Vec<u8>, V1KpdbError>(V1KpdbError::HashErr) ==> checked_plaintext(*header, aes256_cbc_decrypt_of(
                old(self).payload_key(*header)->0, header.iv@, encrypted_database@)) == Err::<Seq<u8>, V1KpdbError>(V1KpdbError::HashErr),
            forall|p: Seq<u8>|
                #![trigger aes256_cbc_of(old(self).payload_key(*header)->0, header.iv@, p)]
                old(self).payload_key(*header) is Some
                && encrypted_database@ == aes256_cbc_of(old(self).payload_key(*header)->0, header.iv@, p)
                && r is Ok ==> r->Ok_0@ == p,
            r is Err ==> r->Err_0 == V1KpdbError::PassErr || r->Err_0 == V1KpdbError::DecryptErr
                || r->Err_0 == V1KpdbError::HashErr,
    {
        let finalkey = self.get_finalkey(header)?;
        if encrypted_database.len() > MAX_CIPHER_INPUT {
            let mut key = finalkey;
            wipe(&mut key);
            return Err(V1KpdbError::DecryptErr);
        }
        let decrypted_database = Crypter::decrypt_raw(header, encrypted_database, finalkey)?;
        Crypter::check_plaintext(header, decrypted_database)
    }

    /// Encrypts the payload under the key the credentials and the header give.
    pub fn encrypt_database(&mut self, header: &V1Header, decrypted_database: Vec<u8>) -> (r: Result<Vec<u8>, V1KpdbError>)
        requires
            header.wf(),
        ensures
            final(self)@ == old(self)@,
            final(self).erased(),
            (r == Err::<Vec<u8>, V1KpdbError>(V1KpdbError::PassErr)) <==> old(self).payload_key(*header) is None,
            old(self).payload_key(*header) is Some && decrypted_database@.len() > MAX_CONTENT_LEN
                ==> r == Err::<Vec<u8>, V1KpdbError>(V1KpdbError::DecryptErr),
            r is Ok ==> r->Ok_0@ == aes256_cbc_of(old(self).payload_key(*header)->0, header.iv@, decrypted_database@),
            r is Err ==> r->Err_0 == V1KpdbError::PassErr || r->Err_0 == V1KpdbError::DecryptErr,
    {
        let mut plain = decrypted_database;
        match self.get_finalkey(header) {
            Ok(finalkey) => {
                if plain.len() > MAX_CONTENT_LEN {
                    let mut key = finalkey;
                    wipe(&mut key);
                    wipe(&mut plain);
                    return Err(V1KpdbError::DecryptErr);
                }
                Crypter::encrypt_raw(header, plain, finalkey)
            },
            Err(e) => {
                wipe(&mut plain);
                Err(e)
            },
        }
    }

    fn get_finalkey(&mut self, header: &V1Header) -> (r: Result<Vec<u8>, V1KpdbError>)
        requires
            header.wf(),
        ensures
            final(self)@ == old(self)@,
            final(self).erased(),
            match old(self).payload_key(*header) {
                Some(k) => (r is Ok ==> r->Ok_0@ == k) && (r is Err ==> r->Err_0 == V1KpdbError::DecryptErr)
                    && (header.key_transf_rounds == 0 ==> r is Ok),
                None => r == Err::<Vec<u8>, V1KpdbError>(V1KpdbError::PassErr),
            },
            r is Ok ==> r->Ok_0@.len() == 32,
    {
        let masterkey = get_masterkey(&mut self.password, &mut self.keyfile)?;
        Crypter::transform_key(masterkey, header)
    }

    /// Keeps the two blocks that a round of the transform encrypts; the padding
    /// block that follows them is zeroed and dropped.
    pub fn take_two_blocks(next: Vec<u8>) -> (r: Result<Vec<u8>, V1KpdbError>)
        ensures
            r is Ok <==> next@.len() >= 32,
            r is Ok ==> r->Ok_0@ == next@.take(32),
            r is Err ==> r->Err_0 == V1KpdbError::DecryptErr,
    {
        let mut next = next;
        if next.len() < 32 {
            wipe(&mut next);
            return Err(V1KpdbError::DecryptErr);
        }
        truncate_zeroed(&mut next, 32);
        Ok(next)
    }

    /// Runs the key transform on the master key, then erases the master key.
    pub fn transform_key(masterkey: Vec<u8>, header: &V1Header) -> (r: Result<Vec<u8>, V1KpdbError>)
        requires
            header.wf(),
            masterkey@.len() == 32,
        ensures
            r is Ok ==> r->Ok_0@ == final_key_of(masterkey@, *header) && r->Ok_0@.len() == 32,
            r is Err ==> r->Err_0 == V1KpdbError::DecryptErr,
            header.key_transf_rounds == 0 ==> r is Ok,
    {
        let mut m = masterkey;
        let mut i: u32 = 0;
        while i < header.key_transf_rounds
            invariant
                header.wf(),
                i <= header.key_transf_rounds,
                m@ == transformed(header.transf_randomseed@, masterkey@, i as nat),
                m@.len() == 32,
            decreases header.key_transf_rounds - i,
        {
            let encrypted = aes256_ecb_encrypt(header.transf_randomseed.as_slice(), m.as_slice());
            wipe(&mut m);
            match encrypted {
                Some(next) => {
                    m = Crypter::take_two_blocks(next)?;
                },
                None => {
                    return Err(V1KpdbError::DecryptErr);
                },
            }
            i = i + 1;
        }
        let mut hashed = sha256(m.as_slice());
        wipe(&mut m);
        let mut seeded = concat(&header.final_randomseed, &hashed);
        let finalkey = sha256(seeded.as_slice());
        wipe(&mut seeded);
        wipe(&mut hashed);
        Ok(finalkey)
    }

    /// Decrypts the payload, then erases the final key.
    pub fn decrypt_raw(header: &V1Header, encrypted_database: Vec<u8>, finalkey: Vec<u8>) -> (r: Result<Vec<u8>, V1KpdbError>)
        requires
            header.wf(),
            finalkey@.len() == 32,
            encrypted_database@.len() <= MAX_CIPHER_INPUT,
        ensures
            r is Ok ==> r->Ok_0@ == aes256_cbc_decrypt_of(finalkey@, header.iv@, encrypted_database@),
            forall|p: Seq<u8>|
                #![trigger aes256_cbc_of(finalkey@, header.iv@, p)]
                encrypted_database@ == aes256_cbc_of(finalkey@, header.iv@, p) && r is Ok ==> r->Ok_0@ == p,
            r is Err ==> r->Err_0 == V1KpdbError::DecryptErr,
    {
        let mut key = finalkey;
        let decrypted = aes256_cbc_decrypt(key.as_slice(), header.iv.as_slice(), encrypted_database.as_slice());
        wipe(&mut key);
        match decrypted {
            Some(d) => Ok(d),
            None => Err(V1KpdbError::DecryptErr),
        }
    }

    /// Encrypts the payload, then erases the final key and the plaintext.
    pub fn encrypt_raw(header: &V1Header, decrypted_database: Vec<u8>, finalkey: Vec<u8>) -> (r: Result<Vec<u8>, V1KpdbError>)
        requires
            header.wf(),
            finalkey@.len() == 32,
            decrypted_database@.len() <= MAX_CONTENT_LEN,
        ensures
            r is Ok ==> r->Ok_0@ == aes256_cbc_of(finalkey@, header.iv@, decrypted_database@),
            r is Err ==> r->Err_0 == V1KpdbError::DecryptErr,
    {
        let mut key = finalkey;
        let mut plain = decrypted_database;
        let encrypted = aes256_cbc_encrypt(key.as_slice(), header.iv.as_slice(), plain.as_slice());
        wipe(&mut key);
        wipe(&mut plain);
        match encrypted {
            Some(e) => Ok(e),
            None => Err(V1KpdbError::DecryptErr),
        }
    }

    /// Runs the checks after decryption on the decrypted bytes, in order, and
    /// hands them back when both pass; on failure they are erased.
    pub fn check_plaintext(header: &V1Header, decrypted_content: Vec<u8>) -> (r: Result<Vec<u8>, V1KpdbError>)
        ensures
            match checked_plaintext(*header, decrypted_content@) {
                Ok(d) => r is Ok && r->Ok_0@ == d,
                Err(e) => r == Err::<Vec<u8>, V1KpdbError>(e),
            },
    {
        let mut d = decrypted_content;
        if Crypter::check_decryption_success(header, &d).is_err() {
            wipe(&mut d);
            return Err(V1KpdbError::DecryptErr);
        }
        if Crypter::check_content_hash(header, &d).is_err() {
            wipe(&mut d);
            return Err(V1KpdbError::HashErr);
        }
        Ok(d)
    }

    /// Rejects a plaintext too large for the format, and an empty one where the
    /// header records groups.
    pub fn check_decryption_success(header: &V1Header, decrypted_content: &Vec<u8>) -> (r: Result<(), V1KpdbError>)
        ensures
            r is Ok <==> size_ok(decrypted_content@.len(), header.num_groups),
            r is Err ==> r->Err_0 == V1KpdbError::DecryptErr,
    {
        if decrypted_content.len() > MAX_CONTENT_LEN || (decrypted_content.len() == 0 && header.num_groups > 0) {
            return Err(V1KpdbError::DecryptErr);
        }
        Ok(())
    }

    /// The SHA-256 digest of the plaintext.
    pub fn get_content_hash(decrypted_content: &Vec<u8>) -> (r: Result<Vec<u8>, V1KpdbError>)
        ensures
            r is Ok && r->Ok_0@ == sha256_of(decrypted_content@),
            r->Ok_0@.len() == 32,
    {
        Ok(sha256(decrypted_content.as_slice()))
    }

    /// Rejects a plaintext whose digest differs from the header's content hash.
    pub fn check_content_hash(header: &V1Header, decrypted_content: &Vec<u8>) -> (r: Result<(), V1KpdbError>)
        ensures
            r is Ok <==> sha256_of(decrypted_content@) == header.content_hash@,
            r is Err ==> r->Err_0 == V1KpdbError::HashErr,
    {
        let content_hash = Crypter::get_content_hash(decrypted_content)?;
        let mut i: usize = 0;
        if content_hash.len() != header.content_hash.len() {
            return Err(V1KpdbError::HashErr);
        }
        while i < content_hash.len()
            invariant
                content_hash@ == sha256_of(decrypted_content@),
                content_hash@.len() == header.content_hash@.len(),
                i <= content_hash@.len(),
                content_hash@.take(i as int) == header.content_hash@.take(i as int),
            decreases content_hash@.len() - i,
        {
            if content_hash[i] != header.content_hash[i] {
                return Err(V1KpdbError::HashErr);
            }
            assert(content_hash@.take(i + 1) == content_hash@.take(i as int).push(content_hash@[i as int]));
            assert(header.content_hash@.take(i + 1) == header.content_hash@.take(i as int).push(header.content_hash@[i as int]));
            i = i + 1;
        }
        assert(content_hash@ == content_hash@.take(content_hash@.len() as int));
        assert(header.content_hash@ == header.content_hash@.take(content_hash@.len() as int));
        Ok(())
    }
}

/// With no transform rounds the final key is the digest of the final seed
/// followed by the digest of the master key.
pub proof fn lemma_zero_rounds(master: Seq<u8>, h: V1Header)
    requires
        h.key_transf_rounds == 0,
    ensures
        final_key_of(master, h) == sha256_of(h.final_randomseed@ + sha256_of(master)),
{
}

/// A plaintext is accepted by size exactly when it is non-empty and within the
/// format's cap, or empty in a database without groups.
pub proof fn lemma_empty_database_rule(len: nat, num_groups: u32)
    ensures
        len == 0 && num_groups == 0 ==> size_ok(len, num_groups),
        len == 0 && num_groups > 0 ==> !size_ok(len, num_groups),
        len > MAX_CONTENT_LEN ==> !size_ok(len, num_groups),
{
}

} // verus!
