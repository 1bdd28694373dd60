use vstd::prelude::*;

verus! {

/// Why an operation on the database payload failed.
#[derive(Clone, Copy, Debug, PartialEq, Eq, Structural)]
pub enum V1KpdbError {
    /// No credential was supplied.
    PassErr,
    /// The key file could not be opened, stat'd or seeked.
    FileErr,
    /// The key file could not be read.
    ReadErr,
    /// A cipher step failed, or the plaintext size is out of bounds.
    DecryptErr,
    /// The plaintext does not hash to the recorded content hash.
    HashErr,
    /// Memory for a secret could not be locked.
    ResourceErr,
}

} // verus!
