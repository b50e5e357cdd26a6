use vstd::prelude::*;

verus! {

/// A 32-byte account address, the form in which the host chain identifies
/// programs, realms, mints and signers.
#[derive(Clone, Copy, Debug)]
pub struct AccountKey {
    pub bytes: [u8; 32],
}

impl View for AccountKey {
    type V = Seq<u8>;

    open spec fn view(&self) -> Seq<u8> {
        self.bytes@
    }
}

impl AccountKey {
    pub fn new(bytes: [u8; 32]) -> (r: AccountKey)
        ensures
            r@ == bytes@,
    {
        AccountKey { bytes }
    }

    pub fn to_array(&self) -> (r: [u8; 32])
        ensures
            r@ == self@,
    {
        self.bytes
    }

    /// Byte-for-byte equality of two account keys.
    pub fn key_eq(&self, other: &AccountKey) -> (r: bool)
        ensures
            r == (self@ == other@),
    {
        let mut i: usize = 0;
        while i < 32
            invariant
                i <= 32,
                forall|j: int| 0 <= j < i ==> self.bytes@[j] == other.bytes@[j],
            decreases 32 - i,
        {
            if self.bytes[i] != other.bytes[i] {
                return false;
            }
            i += 1;
        }
        proof {
            assert(self@ =~= other@);
        }
        true
    }
}

/// The abstract content of a list of keys: each key's byte sequence, in order.
pub open spec fn keys_view(s: Seq<AccountKey>) -> Seq<Seq<u8>> {
    s.map_values(|k: AccountKey| k@)
}

} // verus!
