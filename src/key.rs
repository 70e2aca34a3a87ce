use vstd::prelude::*;

verus! {

/// Length in bytes of a symmetric key.
pub const KEY_LEN: usize = 32;

/// A 32-byte symmetric key for the AEAD envelope.
#[derive(Clone)]
pub struct EncryptionKey {
    bytes: [u8; 32],
}

impl View for EncryptionKey {
    type V = Seq<u8>;

    closed spec fn view(&self) -> Seq<u8> {
        self.bytes@
    }
}

impl EncryptionKey {
    /// A key made of the given bytes, if there are exactly 32 of them.
    pub fn from_bytes(b: &[u8]) -> (r: Option<EncryptionKey>)
        ensures
            r is Some <==> b@.len() == KEY_LEN,
            r matches Some(k) ==> k@ == b@,
    {
        if b.len() != KEY_LEN {
            return None;
        }
        let mut bytes = [0u8; 32];
        let mut i: usize = 0;
        while i < KEY_LEN
            invariant
                b@.len() == KEY_LEN,
                i <= KEY_LEN,
                bytes@.len() == KEY_LEN,
                forall|j: int| 0 <= j < i ==> bytes@[j] == b@[j],
            decreases KEY_LEN - i,
        {
            bytes[i] = b[i];
            i += 1;
        }
        let k = EncryptionKey { bytes };
        assert(k@ =~= b@);
        Some(k)
    }

    /// The key's bytes.
    pub fn as_array(&self) -> (r: &[u8; 32])
        ensures
            r@ == self@,
    {
        &self.bytes
    }

    /// Overwrites the key material with zeros, so that no secret stays in memory.
    pub fn wipe(&mut self)
        ensures
            final(self)@ == Seq::new(KEY_LEN as nat, |i: int| 0u8),
    {
        let mut i: usize = 0;
        while i < KEY_LEN
            invariant
                i <= KEY_LEN,
                self.bytes@.len() == KEY_LEN,
                forall|j: int| 0 <= j < i ==> self.bytes@[j] == 0u8,
            decreases KEY_LEN - i,
        {
            self.bytes[i] = 0u8;
            i += 1;
        }
        assert(self@ =~= Seq::new(KEY_LEN as nat, |i: int| 0u8));
    }
}

} // verus!
