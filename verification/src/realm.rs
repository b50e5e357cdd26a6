use vstd::prelude::*;

use crate::identity::AccountKey;
use solana_program::account_info::AccountInfo;
use solana_program::pubkey::Pubkey;
use spl_governance::state::realm;

verus! {

/// The abstract content of a realm record: its recorded authority and the
/// mints it recognizes.
pub ghost struct RealmView {
    pub authority: Option<Seq<u8>>,
    pub community_mint: Seq<u8>,
    pub council_mint: Option<Seq<u8>>,
}

/// The fields of a governance realm record that registrar creation reads:
/// the realm's recorded authority, its community mint and its optional
/// council mint.
pub struct RealmInfo {
    pub authority: Option<AccountKey>,
    pub community_mint: AccountKey,
    pub council_mint: Option<AccountKey>,
}

impl View for RealmInfo {
    type V = RealmView;

    open spec fn view(&self) -> RealmView {
        RealmView {
            authority: match self.authority {
                Some(k) => Some(k@),
                None => None,
            },
            community_mint: self.community_mint@,
            council_mint: match self.council_mint {
                Some(k) => Some(k@),
                None => None,
            },
        }
    }
}

/// What the governance program's realm lookup extracts from a realm account
/// owned by the program with the given id: `None` where the lookup fails
/// (account empty, owned by another program, undecodable, or not a realm
/// record), else the realm's fields. The result depends on nothing but the
/// three arguments.
pub uninterp spec fn realm_parse(program_id: Seq<u8>, owner: Seq<u8>, data: Seq<u8>) -> Option<
    RealmView,
>;

#[verifier::external_type_specification]
#[verifier::external_body]
pub struct ExProgramError(solana_program::program_error::ProgramError);

/// Relies on `spl_governance::state::realm::get_realm_data`: it deserializes
/// a realm record out of an account's bytes after checking that the account
/// is non-empty and owned by the given program, and reads nothing besides the
/// program id, the owner and the bytes (the account's address, flags and
/// balance play no part), so the result is a function of those three alone.
#[verifier::external_body]
pub(crate) fn fetch_realm_data(program_id: &AccountKey, owner: &AccountKey, data: &Vec<u8>) -> (r:
    Result<RealmInfo, solana_program::program_error::ProgramError>)
    ensures
        match r {
            Ok(info) => realm_parse(program_id@, owner@, data@) == Some(info@),
            Err(_) => realm_parse(program_id@, owner@, data@) is None,
        },
{
    let pid = Pubkey::new_from_array(program_id.bytes);
    let own = Pubkey::new_from_array(owner.bytes);
    let mut lamports: u64 = 0;
    let mut buf = data.clone();
    let info = AccountInfo::new(&pid, false, false, &mut lamports, &mut buf, &own, false, 0);
    match realm::get_realm_data(&pid, &info) {
        Ok(r) => Ok(RealmInfo {
            authority: r.authority.map(|k| AccountKey { bytes: k.to_bytes() }),
            community_mint: AccountKey { bytes: r.community_mint.to_bytes() },
            council_mint: r.config.council_mint.map(|k| AccountKey { bytes: k.to_bytes() }),
        }),
        Err(e) => Err(e),
    }
}

/// Whether a governing token mint is one of the realm's recognized mints:
/// its community mint or its council mint.
pub open spec fn mint_recognized(rv: RealmView, mint: Seq<u8>) -> bool {
    mint == rv.community_mint || rv.council_mint == Some(mint)
}

impl RealmInfo {
    /// Whether `mint` is this realm's community mint or its council mint.
    pub fn recognizes(&self, mint: &AccountKey) -> (r: bool)
        ensures
            r == mint_recognized(self@, mint@),
    {
        if mint.key_eq(&self.community_mint) {
            return true;
        }
        match &self.council_mint {
            Some(council) => council.key_eq(mint),
            None => false,
        }
    }
}

} // verus!
