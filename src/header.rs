use vstd::prelude::*;

verus! {

/// The header fields that the cipher pipeline reads.
pub struct V1Header {
    pub transf_randomseed: Vec<u8>,
    pub key_transf_rounds: u32,
    pub final_randomseed: Vec<u8>,
    pub iv: Vec<u8>,
    pub content_hash: Vec<u8>,
    pub num_groups: u32,
}

impl V1Header {
    /// The seeds, the IV and the hash have the sizes the format fixes.
    pub open spec fn wf(&self) -> bool {
        &&& self.transf_randomseed@.len() == 32
        &&& self.final_randomseed@.len() == 16
        &&& self.iv@.len() == 16
        &&& self.content_hash@.len() == 32
    }
}

} // verus!
