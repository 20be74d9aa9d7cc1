//! A buffer for secret bytes.

use vstd::prelude::*;

verus! {

/// A fixed-length run of bytes that may be secret: key material, a seed, a
/// message, a signature.
///
/// The bytes are reached only through [`SecretBuf::as_slice`]; the type has no
/// `Debug` and no `Clone`, and [`SecretBuf::wipe`] overwrites the content with
/// zeros in place.
pub struct SecretBuf {
    bytes: Vec<u8>,
}

impl View for SecretBuf {
    type V = Seq<u8>;

    closed spec fn view(&self) -> Seq<u8> {
        self.bytes@
    }
}

/// A sequence of `len` zero bytes.
pub open spec fn zeros(len: nat) -> Seq<u8> {
    Seq::new(len, |i: int| 0u8)
}

proof fn lemma_or_xor_zero(acc: u8, a: u8, b: u8)
    ensures
        (acc | (a ^ b)) == 0 <==> (acc == 0 && a == b),
{
    assert((acc | (a ^ b)) == 0 <==> (acc == 0 && a == b)) by (bit_vector);
}

impl SecretBuf {
    /// Takes ownership of `bytes` as the buffer's content.
    pub fn from_bytes(bytes: Vec<u8>) -> (buf: SecretBuf)
        ensures
            buf@ == bytes@,
    {
        SecretBuf { bytes }
    }

    /// A buffer of `len` zero bytes.
    pub fn zeroed(len: usize) -> (buf: SecretBuf)
        ensures
            buf@ == zeros(len as nat),
    {
        let mut bytes: Vec<u8> = Vec::new();
        let mut i: usize = 0;
        while i < len
            invariant
                i <= len,
                bytes@ == zeros(i as nat),
            decreases len - i,
        {
            bytes.push(0u8);
            i = i + 1;
            assert(bytes@ =~= zeros(i as nat));
        }
        SecretBuf { bytes }
    }

    /// Number of bytes in the buffer.
    pub fn len(&self) -> (n: usize)
        ensures
            n == self@.len(),
    {
        self.bytes.len()
    }

    /// Read access to the content, for as long as the borrow lasts.
    pub fn as_slice(&self) -> (s: &[u8])
        ensures
            s@ == self@,
    {
        self.bytes.as_slice()
    }

    /// Whether the two buffers hold the same bytes.
    ///
    /// Buffers of equal length are compared byte by byte to the end, with no
    /// early exit, so the time taken does not tell where they differ.
    pub fn same_bytes(&self, other: &SecretBuf) -> (same: bool)
        ensures
            same == (self@ == other@),
    {
        let n: usize = self.bytes.len();
        if other.bytes.len() != n {
            return false;
        }
        let mut diff: u8 = 0;
        let mut i: usize = 0;
        while i < n
            invariant
                i <= n,
                n == self.bytes@.len(),
                n == other.bytes@.len(),
                (diff == 0) <==> (forall|k: int| 0 <= k < i ==> self.bytes@[k] == other.bytes@[k]),
            decreases n - i,
        {
            let a: u8 = self.bytes[i];
            let b: u8 = other.bytes[i];
            proof {
                lemma_or_xor_zero(diff, a, b);
            }
            diff = diff | (a ^ b);
            i = i + 1;
        }
        assert(diff == 0 <==> self.bytes@ =~= other.bytes@);
        diff == 0
    }

    /// Overwrites every byte with zero; the length stays.
    pub fn wipe(&mut self)
        ensures
            final(self)@ == zeros(old(self)@.len()),
    {
        let n: usize = self.bytes.len();
        let mut i: usize = 0;
        while i < n
            invariant
                i <= n,
                n == self.bytes@.len(),
                forall|k: int| 0 <= k < i ==> self.bytes@[k] == 0u8,
            decreases n - i,
        {
            self.bytes.set(i, 0u8);
            i = i + 1;
        }
        assert(self.bytes@ =~= zeros(n as nat));
    }
}

} // verus!
