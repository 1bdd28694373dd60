use vstd::prelude::*;
use crate::crypto::keep_zeroed;

verus! {

/// Overwrites every byte of `b` with zero, then empties it.
pub fn wipe(b: &mut Vec<u8>)
    ensures
        final(b)@.len() == 0,
{
    let n = b.len();
    let mut i: usize = 0;
    while i < n
        invariant
            b@.len() == n,
            i <= n,
            forall|j: int| 0 <= j < i ==> b@[j] == 0u8,
        decreases n - i,
    {
        b.set(i, 0u8);
        i = i + 1;
    }
    keep_zeroed(b.as_slice());
    b.clear();
}

/// A credential: the secret it holds, and a readable copy that exists only
/// between `unlock` and `delete`.
pub struct SecureString {
    secret: Vec<u8>,
    string: Vec<u8>,
}

impl SecureString {
    /// The secret held.
    pub closed spec fn view(&self) -> Seq<u8> {
        self.secret@
    }

    /// The readable copy.
    pub closed spec fn readable(&self) -> Seq<u8> {
        self.string@
    }

    /// Borrows the readable copy.
    pub fn bytes(&self) -> (r: &Vec<u8>)
        ensures
            r@ == self.readable(),
    {
        &self.string
    }

    pub fn new(secret: Vec<u8>) -> (r: SecureString)
        ensures
            r@ == secret@,
            r.readable().len() == 0,
    {
        SecureString { secret, string: Vec::new() }
    }

    /// Makes the secret readable through `string`.
    pub fn unlock(&mut self)
        ensures
            final(self)@ == old(self)@,
            final(self).readable() == old(self)@,
    {
        let mut copy: Vec<u8> = Vec::with_capacity(self.secret.len());
        let mut i: usize = 0;
        while i < self.secret.len()
            invariant
                i <= self.secret@.len(),
                copy@ == self.secret@.subrange(0, i as int),
            decreases self.secret@.len() - i,
        {
            copy.push(self.secret[i]);
            i = i + 1;
        }
        assert(copy@ == self.secret@.subrange(0, self.secret@.len() as int));
        wipe(&mut self.string);
        self.string = copy;
    }

    /// Zeroes the readable copy; the secret stays held.
    pub fn delete(&mut self)
        ensures
            final(self)@ == old(self)@,
            final(self).readable().len() == 0,
    {
        wipe(&mut self.string);
    }
}

} // verus!
