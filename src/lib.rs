//! The cipher core of a KeePass v1 database: key material from a passphrase
//! and a key file, the key transform, and the payload cipher with its checks.

pub mod crypto;
pub mod error;
pub mod header;
pub mod sec_str;
pub mod keys;
pub mod crypter;
pub mod v1group;
