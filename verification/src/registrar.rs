use vstd::prelude::*;

use crate::identity::AccountKey;
use crate::identity::keys_view;

verus! {

/// Size in bytes of the fixed part of a persisted registrar record: the
/// host's 8-byte record tag, three 32-byte identities and a 4-byte list
/// length prefix.
pub const REGISTRAR_BASE_SPACE: usize = 8 + 3 * 32 + 4;

/// Size in bytes that each recognized mint identity adds to the record.
pub const MINT_SPACE: usize = 32;

/// The abstract content of a registrar record.
pub ghost struct RegistrarView {
    pub governance_program_id: Seq<u8>,
    pub realm: Seq<u8>,
    pub governing_token_mint: Seq<u8>,
    pub mints: Seq<Seq<u8>>,
}

/// Voter configuration for one (realm, governing token mint) pair: the
/// governance program and realm it is bound to, and the mint identities it
/// recognizes. Created once per pair and sized at creation to its mint list.
pub struct Registrar {
    pub governance_program_id: AccountKey,
    pub realm: AccountKey,
    pub governing_token_mint: AccountKey,
    pub mints: Vec<AccountKey>,
}

impl View for Registrar {
    type V = RegistrarView;

    open spec fn view(&self) -> RegistrarView {
        RegistrarView {
            governance_program_id: self.governance_program_id@,
            realm: self.realm@,
            governing_token_mint: self.governing_token_mint@,
            mints: keys_view(self.mints@),
        }
    }
}

/// The bytes a persisted registrar record with `mints_count` recognized
/// mints occupies: the fixed header plus 32 bytes per mint.
pub open spec fn spec_space(mints_count: nat) -> nat {
    (REGISTRAR_BASE_SPACE + mints_count * MINT_SPACE) as nat
}

impl Registrar {
    /// The storage the host must allocate for a record with `mints_count`
    /// recognized mints.
    pub fn get_space(mints_count: u8) -> (r: usize)
        ensures
            r == spec_space(mints_count as nat),
    {
        REGISTRAR_BASE_SPACE + (mints_count as usize) * MINT_SPACE
    }
}

/// Whether `s` already holds a record for the (realm, governing token mint)
/// pair.
pub open spec fn contains_pair(
    s: Seq<RegistrarView>,
    realm: Seq<u8>,
    governing_token_mint: Seq<u8>,
) -> bool {
    exists|i: int|
        0 <= i < s.len() && s[i].realm == realm && s[i].governing_token_mint
            == governing_token_mint
}

/// The persisted registrar records, keyed by their (realm, governing token
/// mint) pair. It stands for the host's storage, where each record sits at
/// an address derived from that pair, so at most one record per pair can
/// ever exist.
pub struct RegistrarStore {
    entries: Vec<Registrar>,
}

impl View for RegistrarStore {
    type V = Seq<RegistrarView>;

    closed spec fn view(&self) -> Seq<RegistrarView> {
        self.entries@.map_values(|r: Registrar| r@)
    }
}

impl RegistrarStore {
    /// No two records share a (realm, governing token mint) pair, and each
    /// record's mint list fits the byte-sized count its storage was sized
    /// with.
    pub open spec fn wf(&self) -> bool {
        &&& forall|i: int, j: int|
            0 <= i < j < self@.len() ==> !(self@[i].realm == self@[j].realm
                && self@[i].governing_token_mint == self@[j].governing_token_mint)
        &&& forall|i: int| 0 <= i < self@.len() ==> self@[i].mints.len() <= 255
    }

    /// An empty store: no registrar has been created yet.
    pub fn new() -> (r: RegistrarStore)
        ensures
            r@ == Seq::<RegistrarView>::empty(),
            r.wf(),
    {
        let r = RegistrarStore { entries: Vec::new() };
        proof {
            assert(r@ =~= Seq::<RegistrarView>::empty());
        }
        r
    }

    /// How many registrar records exist.
    pub fn len(&self) -> (r: usize)
        ensures
            r == self@.len(),
    {
        self.entries.len()
    }

    /// Whether a record for the pair already exists.
    pub fn has_pair(&self, realm: &AccountKey, governing_token_mint: &AccountKey) -> (r: bool)
        ensures
            r == contains_pair(self@, realm@, governing_token_mint@),
    {
        let mut i: usize = 0;
        while i < self.entries.len()
            invariant
                i <= self.entries@.len(),
                forall|j: int|
                    0 <= j < i ==> !(self@[j].realm == realm@ && self@[j].governing_token_mint
                        == governing_token_mint@),
            decreases self.entries@.len() - i,
        {
            let entry = &self.entries[i];
            if entry.realm.key_eq(realm) && entry.governing_token_mint.key_eq(
                governing_token_mint,
            ) {
                proof {
                    assert(self@[i as int].realm == realm@ && self@[i as int].governing_token_mint
                        == governing_token_mint@);
                }
                return true;
            }
            i += 1;
        }
        false
    }

    /// The record for the pair, where one exists.
    pub fn find(&self, realm: &AccountKey, governing_token_mint: &AccountKey) -> (r: Option<
        &Registrar,
    >)
        ensures
            match r {
                Some(reg) => reg@.realm == realm@ && reg@.governing_token_mint
                    == governing_token_mint@ && self@.contains(reg@),
                None => !contains_pair(self@, realm@, governing_token_mint@),
            },
    {
        let mut i: usize = 0;
        while i < self.entries.len()
            invariant
                i <= self.entries@.len(),
                forall|j: int|
                    0 <= j < i ==> !(self@[j].realm == realm@ && self@[j].governing_token_mint
                        == governing_token_mint@),
            decreases self.entries@.len() - i,
        {
            let entry = &self.entries[i];
            if entry.realm.key_eq(realm) && entry.governing_token_mint.key_eq(
                governing_token_mint,
            ) {
                proof {
                    assert(self@[i as int] == entry@);
                }
                return Some(entry);
            }
            i += 1;
        }
        None
    }

    /// Adds a record whose (realm, governing token mint) pair is not yet
    /// present; the store stays well formed and gains exactly that record.
    pub fn insert(&mut self, registrar: Registrar)
        requires
            old(self).wf(),
            !contains_pair(old(self)@, registrar@.realm, registrar@.governing_token_mint),
            registrar@.mints.len() <= 255,
        ensures
            final(self)@ == old(self)@.push(registrar@),
            final(self).wf(),
    {
        let ghost prev = self@;
        let ghost rec = registrar@;
        self.entries.push(registrar);
        proof {
            assert(self@ =~= prev.push(rec));
            assert forall|i: int, j: int| 0 <= i < j < self@.len() implies !(self@[i].realm
                == self@[j].realm && self@[i].governing_token_mint
                == self@[j].governing_token_mint) by {
                if j == prev.len() {
                    assert(!(prev[i].realm == rec.realm && prev[i].governing_token_mint
                        == rec.governing_token_mint));
                }
            }
        }
    }
}

/// In a well-formed store a (realm, governing token mint) pair determines
/// its record: any two records of the store with the same pair are the same
/// record.
pub proof fn lemma_pair_unique(store: RegistrarStore, a: RegistrarView, b: RegistrarView)
    requires
        store.wf(),
        store@.contains(a),
        store@.contains(b),
        a.realm == b.realm,
        a.governing_token_mint == b.governing_token_mint,
    ensures
        a == b,
{
    let i = choose|i: int| 0 <= i < store@.len() && store@[i] == a;
    let j = choose|j: int| 0 <= j < store@.len() && store@[j] == b;
    if i < j {
        assert(!(store@[i].realm == store@[j].realm && store@[i].governing_token_mint
            == store@[j].governing_token_mint));
    } else if j < i {
        assert(!(store@[j].realm == store@[i].realm && store@[j].governing_token_mint
            == store@[i].governing_token_mint));
    }
}

} // verus!
