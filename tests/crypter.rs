use kpdb::crypter::Crypter;
use kpdb::error::V1KpdbError;
use kpdb::header::V1Header;
use kpdb::keys::{get_masterkey, keyfile_key_from_contents};
use kpdb::sec_str::SecureString;
use kpdb::v1group::{Tm, V1Group};

fn seq(n: u8) -> Vec<u8> {
    (0..n).collect()
}

fn header_for(plaintext: &[u8], rounds: u32) -> V1Header {
    V1Header {
        transf_randomseed: seq(32),
        key_transf_rounds: rounds,
        final_randomseed: seq(16),
        iv: seq(16),
        content_hash: Crypter::get_content_hash(&plaintext.to_vec()).unwrap(),
        num_groups: 1,
    }
}

fn password(p: &str) -> Option<SecureString> {
    Some(SecureString::new(p.as_bytes().to_vec()))
}

fn master(pw: Option<SecureString>, kf: Option<SecureString>) -> Result<Vec<u8>, V1KpdbError> {
    let mut pw = pw;
    let mut kf = kf;
    get_masterkey(&mut pw, &mut kf)
}

#[test]
fn round_trip_with_password() {
    let header = header_for(b"hello", 6000);
    let mut enc = Crypter::new(password("test"), None);
    let ciphertext = enc.encrypt_database(&header, b"hello".to_vec()).unwrap();
    assert_eq!(ciphertext.len(), 16);
    assert_ne!(&ciphertext[..5], b"hello");
    let mut dec = Crypter::new(password("test"), None);
    assert_eq!(dec.decrypt_database(&header, ciphertext).unwrap(), b"hello".to_vec());
}

#[test]
fn same_crypter_twice() {
    let header = header_for(b"hello", 10);
    let mut c = Crypter::new(password("test"), None);
    let ciphertext = c.encrypt_database(&header, b"hello".to_vec()).unwrap();
    assert_eq!(c.decrypt_database(&header, ciphertext).unwrap(), b"hello".to_vec());
}

#[test]
fn wrong_password_is_rejected() {
    let header = header_for(b"hello", 6000);
    let mut enc = Crypter::new(password("test"), None);
    let ciphertext = enc.encrypt_database(&header, b"hello".to_vec()).unwrap();
    let mut dec = Crypter::new(password("wrong"), None);
    let r = dec.decrypt_database(&header, ciphertext);
    assert!(matches!(r, Err(V1KpdbError::HashErr) | Err(V1KpdbError::DecryptErr)));
}

#[test]
fn flipped_bit_is_rejected() {
    let header = header_for(b"hello world, a longer payload", 5);
    let mut c = Crypter::new(password("test"), None);
    let ciphertext = c.encrypt_database(&header, b"hello world, a longer payload".to_vec()).unwrap();
    for i in 0..ciphertext.len() {
        let mut bad = ciphertext.clone();
        bad[i] ^= 1;
        let r = c.decrypt_database(&header, bad);
        assert!(matches!(r, Err(V1KpdbError::HashErr) | Err(V1KpdbError::DecryptErr)));
    }
    let mut h2 = header_for(b"hello world, a longer payload", 5);
    h2.final_randomseed[0] ^= 1;
    let r = c.decrypt_database(&h2, ciphertext.clone());
    assert!(matches!(r, Err(V1KpdbError::HashErr) | Err(V1KpdbError::DecryptErr)));
    let mut h3 = header_for(b"hello world, a longer payload", 5);
    h3.transf_randomseed[31] ^= 0x80;
    let r = c.decrypt_database(&h3, ciphertext);
    assert!(matches!(r, Err(V1KpdbError::HashErr) | Err(V1KpdbError::DecryptErr)));
}

#[test]
fn no_credentials_is_pass_err() {
    let header = header_for(b"hello", 1);
    let mut c = Crypter::new(None, None);
    assert_eq!(c.encrypt_database(&header, b"hello".to_vec()), Err(V1KpdbError::PassErr));
    assert_eq!(c.decrypt_database(&header, vec![0u8; 16]), Err(V1KpdbError::PassErr));
}

#[test]
fn passphrase_master_key_is_its_digest() {
    let m = master(password("test"), None).unwrap();
    assert_eq!(m, openssl::sha::sha256(b"test").to_vec());
}

#[test]
fn keyfile_of_32_raw_bytes() {
    let contents = seq(32);
    assert_eq!(keyfile_key_from_contents(&contents), contents);
    let m = master(None, Some(SecureString::new(seq(32)))).unwrap();
    assert_eq!(m, seq(32));
}

#[test]
fn keyfile_of_64_hex_digits() {
    let mut text = String::new();
    for b in 1u8..=32 {
        text.push_str(&format!("{:02X}", b));
    }
    assert_eq!(text.len(), 64);
    let m = master(None, Some(SecureString::new(text.into_bytes()))).unwrap();
    assert_eq!(m, (1u8..=32).collect::<Vec<u8>>());
}

#[test]
fn keyfile_of_64_lowercase_hex_digits() {
    let text = "ff".repeat(32);
    assert_eq!(keyfile_key_from_contents(&text.into_bytes()), vec![0xffu8; 32]);
}

#[test]
fn keyfile_of_64_non_hex_bytes_is_hashed() {
    let contents = vec![b'Z'; 64];
    let m = master(None, Some(SecureString::new(contents.clone()))).unwrap();
    assert_eq!(m, openssl::sha::sha256(&contents).to_vec());
}

#[test]
fn keyfile_of_other_length_is_hashed() {
    let contents = b"some key file".to_vec();
    assert_eq!(keyfile_key_from_contents(&contents), openssl::sha::sha256(&contents).to_vec());
    assert_eq!(keyfile_key_from_contents(&vec![]), openssl::sha::sha256(b"").to_vec());
}

#[test]
fn password_and_keyfile_combined() {
    let m = master(password("p"), Some(SecureString::new(vec![0xAA; 32]))).unwrap();
    let mut both = openssl::sha::sha256(b"p").to_vec();
    both.extend_from_slice(&[0xAA; 32]);
    assert_eq!(m, openssl::sha::sha256(&both).to_vec());
}

#[test]
fn no_credentials_master_key() {
    assert_eq!(master(None, None), Err(V1KpdbError::PassErr));
}

#[test]
fn zero_rounds_final_key() {
    // With no rounds, the payload key is SHA-256(final seed ++ SHA-256(master)).
    let header = header_for(b"x", 0);
    let m = openssl::sha::sha256(b"test");
    let mut seeded = seq(16);
    seeded.extend_from_slice(&openssl::sha::sha256(&m));
    let key = openssl::sha::sha256(&seeded);
    let expected = openssl::symm::encrypt(openssl::symm::Cipher::aes_256_cbc(), &key, Some(&seq(16)), b"x").unwrap();
    let mut c = Crypter::new(password("test"), None);
    assert_eq!(c.encrypt_database(&header, b"x".to_vec()).unwrap(), expected);
}

#[test]
fn rounds_change_the_key() {
    let mut c = Crypter::new(password("test"), None);
    let a = c.encrypt_database(&header_for(b"x", 1), b"x".to_vec()).unwrap();
    let b = c.encrypt_database(&header_for(b"x", 2), b"x".to_vec()).unwrap();
    assert_ne!(a, b);
}

#[test]
fn empty_database_rule() {
    let mut h = header_for(b"", 1);
    h.num_groups = 0;
    assert_eq!(Crypter::check_decryption_success(&h, &vec![]), Ok(()));
    h.num_groups = 3;
    assert_eq!(Crypter::check_decryption_success(&h, &vec![]), Err(V1KpdbError::DecryptErr));
    assert_eq!(Crypter::check_decryption_success(&h, &vec![1]), Ok(()));
}

#[test]
fn content_hash_check() {
    let h = header_for(b"abc", 1);
    assert_eq!(Crypter::check_content_hash(&h, &b"abc".to_vec()), Ok(()));
    assert_eq!(Crypter::check_content_hash(&h, &b"abd".to_vec()), Err(V1KpdbError::HashErr));
}

#[test]
fn secure_string_lifecycle() {
    let mut s = SecureString::new(b"pw".to_vec());
    assert!(s.bytes().is_empty());
    s.unlock();
    assert_eq!(s.bytes(), &b"pw".to_vec());
    s.delete();
    assert!(s.bytes().is_empty());
    s.unlock();
    assert_eq!(s.bytes(), &b"pw".to_vec());
}

#[test]
fn new_group_is_empty() {
    let g = V1Group::new();
    assert_eq!(g.id, 0);
    assert_eq!(g.title, "");
    assert_eq!(g.creation, Tm::new());
    assert!(g.parent.is_none());
    assert!(g.children.is_empty() && g.entries.is_empty());
}

#[test]
fn checks_after_decryption_in_order() {
    let mut h = header_for(b"abc", 1);
    assert_eq!(Crypter::check_plaintext(&h, b"abc".to_vec()), Ok(b"abc".to_vec()));
    assert_eq!(Crypter::check_plaintext(&h, b"abd".to_vec()), Err(V1KpdbError::HashErr));
    assert_eq!(Crypter::check_plaintext(&h, vec![]), Err(V1KpdbError::DecryptErr));
    h.num_groups = 0;
    h.content_hash = Crypter::get_content_hash(&vec![]).unwrap();
    assert_eq!(Crypter::check_plaintext(&h, vec![]), Ok(vec![]));
}

#[test]
fn round_step_keeps_two_blocks() {
    let next = seq(48);
    assert_eq!(Crypter::take_two_blocks(next), Ok(seq(32)));
    assert_eq!(Crypter::take_two_blocks(seq(31)), Err(V1KpdbError::DecryptErr));
}

#[test]
fn transform_with_zero_rounds() {
    let h = header_for(b"x", 0);
    let m = openssl::sha::sha256(b"test");
    let mut seeded = seq(16);
    seeded.extend_from_slice(&openssl::sha::sha256(&m));
    let expected = openssl::sha::sha256(&seeded).to_vec();
    assert_eq!(Crypter::transform_key(m.to_vec(), &h), Ok(expected));
}

#[test]
fn transform_one_round_matches_ecb() {
    let h = header_for(b"x", 1);
    let m = seq(32);
    let ecb = openssl::symm::encrypt(openssl::symm::Cipher::aes_256_ecb(), &seq(32), None, &m).unwrap();
    assert_eq!(ecb.len(), 48);
    let mut seeded = seq(16);
    seeded.extend_from_slice(&openssl::sha::sha256(&ecb[..32]));
    let expected = openssl::sha::sha256(&seeded).to_vec();
    assert_eq!(Crypter::transform_key(m, &h), Ok(expected));
}

#[test]
fn raw_round_trip() {
    let h = header_for(b"payload of some length", 1);
    let key = vec![7u8; 32];
    let ct = Crypter::encrypt_raw(&h, b"payload of some length".to_vec(), key.clone()).unwrap();
    assert_eq!(ct.len(), 32);
    assert_eq!(Crypter::decrypt_raw(&h, ct, key), Ok(b"payload of some length".to_vec()));
}

#[test]
fn bad_ciphertext_length_is_decrypt_err() {
    let h = header_for(b"hello", 1);
    let mut c = Crypter::new(password("test"), None);
    assert_eq!(c.decrypt_database(&h, vec![1, 2, 3]), Err(V1KpdbError::DecryptErr));
    assert_eq!(c.decrypt_database(&h, vec![]), Err(V1KpdbError::DecryptErr));
}

#[test]
fn content_hash_is_32_bytes() {
    assert_eq!(Crypter::get_content_hash(&b"abc".to_vec()).unwrap().len(), 32);
}
