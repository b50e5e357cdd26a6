use vstd::prelude::*;

use crate::error::RegistrarError;
use crate::identity::AccountKey;
use crate::identity::keys_view;
use crate::realm::fetch_realm_data;
use crate::realm::mint_recognized;
use crate::realm::realm_parse;
use crate::registrar::Registrar;
use crate::registrar::RegistrarStore;
use crate::registrar::RegistrarView;
use crate::registrar::contains_pair;
use crate::registrar::lemma_pair_unique;

verus! {

/// An executable-program account: its address and the host's executable
/// flag.
pub struct ProgramAccount {
    pub key: AccountKey,
    pub executable: bool,
}

/// A realm account as the host hands it over: its address, the program that
/// owns it, and its raw record bytes.
pub struct RealmAccount {
    pub key: AccountKey,
    pub owner: AccountKey,
    pub data: Vec<u8>,
}

/// The accounts a `create_registrar` request presents: the governance
/// program the realm belongs to, the realm account, the governing token
/// mint, and the identity that signed the request as realm authority.
pub struct CreateRegistrar {
    pub governance_program_id: ProgramAccount,
    pub realm: RealmAccount,
    pub governing_token_mint: AccountKey,
    pub realm_authority: AccountKey,
}

/// The abstract content of a `create_registrar` request.
pub ghost struct CreateRegistrarView {
    pub governance_program_id: Seq<u8>,
    pub program_executable: bool,
    pub realm: Seq<u8>,
    pub realm_owner: Seq<u8>,
    pub realm_data: Seq<u8>,
    pub governing_token_mint: Seq<u8>,
    pub realm_authority: Seq<u8>,
}

impl View for CreateRegistrar {
    type V = CreateRegistrarView;

    open spec fn view(&self) -> CreateRegistrarView {
        CreateRegistrarView {
            governance_program_id: self.governance_program_id.key@,
            program_executable: self.governance_program_id.executable,
            realm: self.realm.key@,
            realm_owner: self.realm.owner@,
            realm_data: self.realm.data@,
            governing_token_mint: self.governing_token_mint@,
            realm_authority: self.realm_authority@,
        }
    }
}

/// The record `create_registrar` persists for the accounts `a` and mint
/// list `mints` against the records `prev`, or the error it refuses them
/// with. The checks run in validation order and the first failure decides:
/// pair not yet taken, program executable, realm owned by the program,
/// realm data decodable, governing token mint recognized by the realm,
/// signer equal to the realm's recorded authority.
pub open spec fn create_registrar_spec(
    prev: Seq<RegistrarView>,
    a: CreateRegistrarView,
    mints: Seq<Seq<u8>>,
) -> Result<RegistrarView, RegistrarError> {
    if contains_pair(prev, a.realm, a.governing_token_mint) {
        Err(RegistrarError::DuplicateRegistrar)
    } else if !a.program_executable {
        Err(RegistrarError::ProgramNotExecutable)
    } else if a.realm_owner != a.governance_program_id {
        Err(RegistrarError::InvalidRealmOwner)
    } else {
        match realm_parse(a.governance_program_id, a.realm_owner, a.realm_data) {
            None => Err(RegistrarError::RealmDataInvalid),
            Some(rv) => if !mint_recognized(rv, a.governing_token_mint) {
                Err(RegistrarError::InvalidGoverningTokenMint)
            } else if rv.authority != Some(a.realm_authority) {
                Err(RegistrarError::InvalidRealmAuthority)
            } else {
                Ok(
                    RegistrarView {
                        governance_program_id: a.governance_program_id,
                        realm: a.realm,
                        governing_token_mint: a.governing_token_mint,
                        mints,
                    },
                )
            },
        }
    }
}

/// Creates a new registrar for the realm and governing token mint named in
/// `accounts`, recognizing exactly the mint identities of `mints`.
///
/// The record is persisted only when every validation passes: no record
/// for the (realm, governing token mint) pair exists yet, the governance
/// program is executable and owns the realm account, the realm account
/// decodes as one of that program's realms, the governing token mint is
/// the realm's community or council mint, and the signer is the realm's
/// recorded authority. On any failure the store is left unchanged.
pub fn create_registrar(
    store: &mut RegistrarStore,
    accounts: &CreateRegistrar,
    mints: Vec<AccountKey>,
) -> (r: Result<(), RegistrarError>)
    requires
        old(store).wf(),
        mints@.len() <= 255,
    ensures
        final(store).wf(),
        match create_registrar_spec(old(store)@, accounts@, keys_view(mints@)) {
            Ok(rec) => r is Ok && final(store)@ == old(store)@.push(rec),
            Err(e) => r == Err::<(), RegistrarError>(e) && final(store)@ == old(store)@,
        },
{
    if store.has_pair(&accounts.realm.key, &accounts.governing_token_mint) {
        return Err(RegistrarError::DuplicateRegistrar);
    }
    if !accounts.governance_program_id.executable {
        return Err(RegistrarError::ProgramNotExecutable);
    }
    if !accounts.realm.owner.key_eq(&accounts.governance_program_id.key) {
        return Err(RegistrarError::InvalidRealmOwner);
    }
    let realm_info = match fetch_realm_data(
        &accounts.governance_program_id.key,
        &accounts.realm.owner,
        &accounts.realm.data,
    ) {
        Ok(info) => info,
        Err(_) => {
            return Err(RegistrarError::RealmDataInvalid);
        },
    };
    if !realm_info.recognizes(&accounts.governing_token_mint) {
        return Err(RegistrarError::InvalidGoverningTokenMint);
    }
    let authorized = match &realm_info.authority {
        Some(authority) => authority.key_eq(&accounts.realm_authority),
        None => false,
    };
    if !authorized {
        return Err(RegistrarError::InvalidRealmAuthority);
    }
    store.insert(
        Registrar {
            governance_program_id: accounts.governance_program_id.key,
            realm: accounts.realm.key,
            governing_token_mint: accounts.governing_token_mint,
            mints,
        },
    );
    Ok(())
}

/// An authorized creation succeeds: where no registrar exists yet for the
/// pair, the governance program is executable and owns the realm account,
/// the realm decodes, the governing token mint is one the realm recognizes
/// and the signer equals the realm's recorded authority, the request is
/// accepted and the persisted record's fields are exactly the supplied
/// inputs.
pub proof fn lemma_authorized_create_succeeds(
    prev: Seq<RegistrarView>,
    a: CreateRegistrarView,
    mints: Seq<Seq<u8>>,
)
    requires
        !contains_pair(prev, a.realm, a.governing_token_mint),
        a.program_executable,
        a.realm_owner == a.governance_program_id,
        realm_parse(a.governance_program_id, a.realm_owner, a.realm_data) matches Some(rv)
            && mint_recognized(rv, a.governing_token_mint) && rv.authority == Some(
            a.realm_authority,
        ),
    ensures
        create_registrar_spec(prev, a, mints) == Ok::<RegistrarView, RegistrarError>(
            RegistrarView {
                governance_program_id: a.governance_program_id,
                realm: a.realm,
                governing_token_mint: a.governing_token_mint,
                mints,
            },
        ),
{
}

/// A creation signed by anything but the realm's recorded authority is
/// refused with `InvalidRealmAuthority` (a realm without a recorded
/// authority authorizes nobody), however valid the rest of the request.
pub proof fn lemma_wrong_authority_fails(
    prev: Seq<RegistrarView>,
    a: CreateRegistrarView,
    mints: Seq<Seq<u8>>,
)
    requires
        !contains_pair(prev, a.realm, a.governing_token_mint),
        a.program_executable,
        a.realm_owner == a.governance_program_id,
        realm_parse(a.governance_program_id, a.realm_owner, a.realm_data) matches Some(rv)
            && mint_recognized(rv, a.governing_token_mint) && rv.authority != Some(
            a.realm_authority,
        ),
    ensures
        create_registrar_spec(prev, a, mints) == Err::<RegistrarView, RegistrarError>(
            RegistrarError::InvalidRealmAuthority,
        ),
{
}

/// A governing token mint that is neither the realm's community mint nor
/// its council mint is refused with `InvalidGoverningTokenMint`, whoever
/// signed.
pub proof fn lemma_unrecognized_mint_fails(
    prev: Seq<RegistrarView>,
    a: CreateRegistrarView,
    mints: Seq<Seq<u8>>,
)
    requires
        !contains_pair(prev, a.realm, a.governing_token_mint),
        a.program_executable,
        a.realm_owner == a.governance_program_id,
        realm_parse(a.governance_program_id, a.realm_owner, a.realm_data) matches Some(rv)
            && !mint_recognized(rv, a.governing_token_mint),
    ensures
        create_registrar_spec(prev, a, mints) == Err::<RegistrarView, RegistrarError>(
            RegistrarError::InvalidGoverningTokenMint,
        ),
{
}

/// A request for a (realm, governing token mint) pair that the store
/// already holds is refused with `DuplicateRegistrar`, whatever the other
/// accounts say and whoever signed.
pub proof fn lemma_duplicate_pair_fails(
    prev: Seq<RegistrarView>,
    a: CreateRegistrarView,
    mints: Seq<Seq<u8>>,
)
    requires
        contains_pair(prev, a.realm, a.governing_token_mint),
    ensures
        create_registrar_spec(prev, a, mints) == Err::<RegistrarView, RegistrarError>(
            RegistrarError::DuplicateRegistrar,
        ),
{
}

/// After a successful creation the pair is taken: against the resulting
/// records, a second request naming the same realm and governing token
/// mint is refused with `DuplicateRegistrar`, regardless of the validity
/// of its signer or of any other account.
pub proof fn lemma_create_not_repeatable(
    prev: Seq<RegistrarView>,
    a: CreateRegistrarView,
    mints: Seq<Seq<u8>>,
    b: CreateRegistrarView,
    mints2: Seq<Seq<u8>>,
)
    requires
        create_registrar_spec(prev, a, mints) is Ok,
        b.realm == a.realm,
        b.governing_token_mint == a.governing_token_mint,
    ensures
        create_registrar_spec(
            prev.push(create_registrar_spec(prev, a, mints)->Ok_0),
            b,
            mints2,
        ) == Err::<RegistrarView, RegistrarError>(RegistrarError::DuplicateRegistrar),
{
    let rec = create_registrar_spec(prev, a, mints)->Ok_0;
    let next = prev.push(rec);
    assert(next[prev.len() as int] == rec);
    assert(contains_pair(next, b.realm, b.governing_token_mint));
}

/// Reading back a creation: where a well-formed store holds the record of
/// a successful creation, any record of the store under the same (realm,
/// governing token mint) pair is that record, so it carries exactly the
/// mint identities supplied at creation, in their order.
pub proof fn lemma_mints_read_back(
    store: RegistrarStore,
    prev: Seq<RegistrarView>,
    a: CreateRegistrarView,
    mints: Seq<Seq<u8>>,
    found: RegistrarView,
)
    requires
        store.wf(),
        create_registrar_spec(prev, a, mints) is Ok,
        store@.contains(create_registrar_spec(prev, a, mints)->Ok_0),
        store@.contains(found),
        found.realm == a.realm,
        found.governing_token_mint == a.governing_token_mint,
    ensures
        found == create_registrar_spec(prev, a, mints)->Ok_0,
        found.mints == mints,
{
    let rec = create_registrar_spec(prev, a, mints)->Ok_0;
    lemma_pair_unique(store, rec, found);
}

} // verus!
