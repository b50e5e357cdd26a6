use borsh::BorshSerialize;
use solana_program::pubkey::Pubkey;
use spl_governance::state::enums::GovernanceAccountType;
use spl_governance::state::enums::MintMaxVoterWeightSource;
use spl_governance::state::legacy::RealmV1;
use spl_governance::state::realm::RealmConfig;
use spl_governance::state::realm::RealmV2;
use token_haver::error::NftLockerError;
use token_haver::error::RegistrarError;
use token_haver::identity::AccountKey;
use token_haver::instruction::create_registrar;
use token_haver::instruction::CreateRegistrar;
use token_haver::instruction::ProgramAccount;
use token_haver::instruction::RealmAccount;
use token_haver::registrar::Registrar;
use token_haver::registrar::RegistrarStore;

fn key(seed: u8) -> AccountKey {
    AccountKey::new([seed; 32])
}

fn pk(k: &AccountKey) -> Pubkey {
    Pubkey::new_from_array(k.to_array())
}

fn realm_config(council: Option<&AccountKey>) -> RealmConfig {
    RealmConfig {
        legacy1: 0,
        legacy2: 0,
        reserved: [0; 6],
        min_community_weight_to_create_governance: 1,
        community_mint_max_voter_weight_source: MintMaxVoterWeightSource::SupplyFraction(
            10_000_000_000,
        ),
        council_mint: council.map(pk),
    }
}

fn realm_bytes(
    authority: Option<&AccountKey>,
    community: &AccountKey,
    council: Option<&AccountKey>,
) -> Vec<u8> {
    let realm = RealmV2 {
        account_type: GovernanceAccountType::RealmV2,
        community_mint: pk(community),
        config: realm_config(council),
        reserved: [0; 6],
        legacy1: 0,
        authority: authority.map(pk),
        name: "realm".to_string(),
        reserved_v2: [0; 128],
    };
    realm.try_to_vec().unwrap()
}

fn accounts(
    program: &AccountKey,
    executable: bool,
    realm_key: &AccountKey,
    owner: &AccountKey,
    data: Vec<u8>,
    mint: &AccountKey,
    signer: &AccountKey,
) -> CreateRegistrar {
    CreateRegistrar {
        governance_program_id: ProgramAccount { key: *program, executable },
        realm: RealmAccount { key: *realm_key, owner: *owner, data },
        governing_token_mint: *mint,
        realm_authority: *signer,
    }
}

#[test]
fn create_registrar_succeeds_for_realm_authority() {
    let program = key(1);
    let realm = key(2);
    let community = key(3);
    let authority = key(4);
    let mint_x = key(5);
    let mint_y = key(6);
    let data = realm_bytes(Some(&authority), &community, None);
    let acc = accounts(&program, true, &realm, &program, data, &community, &authority);
    let mut store = RegistrarStore::new();

    let result = create_registrar(&mut store, &acc, vec![mint_x, mint_y]);

    assert_eq!(result, Ok(()));
    assert_eq!(store.len(), 1);
    let record = store.find(&realm, &community).unwrap();
    assert_eq!(record.governance_program_id.to_array(), program.to_array());
    assert_eq!(record.realm.to_array(), realm.to_array());
    assert_eq!(record.governing_token_mint.to_array(), community.to_array());
    assert_eq!(record.mints.len(), 2);
    assert_eq!(record.mints[0].to_array(), mint_x.to_array());
    assert_eq!(record.mints[1].to_array(), mint_y.to_array());
}

#[test]
fn wrong_authority_fails_and_persists_nothing() {
    let program = key(1);
    let realm = key(2);
    let community = key(3);
    let authority = key(4);
    let other_signer = key(9);
    let data = realm_bytes(Some(&authority), &community, None);
    let acc = accounts(&program, true, &realm, &program, data, &community, &other_signer);
    let mut store = RegistrarStore::new();

    let result = create_registrar(&mut store, &acc, vec![key(5)]);

    assert_eq!(result, Err(RegistrarError::InvalidRealmAuthority));
    assert_eq!(store.len(), 0);
    assert!(store.find(&realm, &community).is_none());
}

#[test]
fn realm_without_authority_fails() {
    let program = key(1);
    let realm = key(2);
    let community = key(3);
    let data = realm_bytes(None, &community, None);
    let acc = accounts(&program, true, &realm, &program, data, &community, &key(4));
    let mut store = RegistrarStore::new();

    let result = create_registrar(&mut store, &acc, vec![]);

    assert_eq!(result, Err(RegistrarError::InvalidRealmAuthority));
    assert_eq!(store.len(), 0);
}

#[test]
fn unrecognized_mint_fails_even_for_valid_signer() {
    let program = key(1);
    let realm = key(2);
    let community = key(3);
    let council = key(7);
    let authority = key(4);
    let stranger_mint = key(8);
    let data = realm_bytes(Some(&authority), &community, Some(&council));
    let acc = accounts(&program, true, &realm, &program, data, &stranger_mint, &authority);
    let mut store = RegistrarStore::new();

    let result = create_registrar(&mut store, &acc, vec![key(5)]);

    assert_eq!(result, Err(RegistrarError::InvalidGoverningTokenMint));
    assert_eq!(store.len(), 0);
}

#[test]
fn council_mint_is_recognized() {
    let program = key(1);
    let realm = key(2);
    let community = key(3);
    let council = key(7);
    let authority = key(4);
    let data = realm_bytes(Some(&authority), &community, Some(&council));
    let acc = accounts(&program, true, &realm, &program, data, &council, &authority);
    let mut store = RegistrarStore::new();

    let result = create_registrar(&mut store, &acc, vec![key(5)]);

    assert_eq!(result, Ok(()));
    assert!(store.find(&realm, &council).is_some());
}

#[test]
fn second_create_for_same_pair_fails_even_with_valid_signer() {
    let program = key(1);
    let realm = key(2);
    let community = key(3);
    let authority = key(4);
    let acc = accounts(
        &program,
        true,
        &realm,
        &program,
        realm_bytes(Some(&authority), &community, None),
        &community,
        &authority,
    );
    let mut store = RegistrarStore::new();
    assert_eq!(create_registrar(&mut store, &acc, vec![key(5)]), Ok(()));

    let again = accounts(
        &program,
        true,
        &realm,
        &program,
        realm_bytes(Some(&authority), &community, None),
        &community,
        &authority,
    );
    let result = create_registrar(&mut store, &again, vec![key(6)]);

    assert_eq!(result, Err(RegistrarError::DuplicateRegistrar));
    assert_eq!(store.len(), 1);
    let record = store.find(&realm, &community).unwrap();
    assert_eq!(record.mints.len(), 1);
    assert_eq!(record.mints[0].to_array(), key(5).to_array());
}

#[test]
fn same_realm_with_other_recognized_mint_succeeds() {
    let program = key(1);
    let realm = key(2);
    let community = key(3);
    let council = key(7);
    let authority = key(4);
    let mut store = RegistrarStore::new();
    let first = accounts(
        &program,
        true,
        &realm,
        &program,
        realm_bytes(Some(&authority), &community, Some(&council)),
        &community,
        &authority,
    );
    assert_eq!(create_registrar(&mut store, &first, vec![]), Ok(()));

    let second = accounts(
        &program,
        true,
        &realm,
        &program,
        realm_bytes(Some(&authority), &community, Some(&council)),
        &council,
        &authority,
    );
    assert_eq!(create_registrar(&mut store, &second, vec![]), Ok(()));
    assert_eq!(store.len(), 2);
}

#[test]
fn not_executable_program_fails() {
    let program = key(1);
    let realm = key(2);
    let community = key(3);
    let authority = key(4);
    let data = realm_bytes(Some(&authority), &community, None);
    let acc = accounts(&program, false, &realm, &program, data, &community, &authority);
    let mut store = RegistrarStore::new();

    let result = create_registrar(&mut store, &acc, vec![]);

    assert_eq!(result, Err(RegistrarError::ProgramNotExecutable));
    assert_eq!(store.len(), 0);
}

#[test]
fn realm_owned_by_other_program_fails() {
    let program = key(1);
    let other_owner = key(10);
    let realm = key(2);
    let community = key(3);
    let authority = key(4);
    let data = realm_bytes(Some(&authority), &community, None);
    let acc = accounts(&program, true, &realm, &other_owner, data, &community, &authority);
    let mut store = RegistrarStore::new();

    let result = create_registrar(&mut store, &acc, vec![]);

    assert_eq!(result, Err(RegistrarError::InvalidRealmOwner));
    assert_eq!(store.len(), 0);
}

#[test]
fn undecodable_realm_data_fails() {
    let program = key(1);
    let realm = key(2);
    let acc = accounts(&program, true, &realm, &program, vec![7, 7, 7], &key(3), &key(4));
    let mut store = RegistrarStore::new();

    let result = create_registrar(&mut store, &acc, vec![]);

    assert_eq!(result, Err(RegistrarError::RealmDataInvalid));
    assert_eq!(store.len(), 0);
}

#[test]
fn empty_realm_data_fails() {
    let program = key(1);
    let realm = key(2);
    let acc = accounts(&program, true, &realm, &program, vec![], &key(3), &key(4));
    let mut store = RegistrarStore::new();

    let result = create_registrar(&mut store, &acc, vec![]);

    assert_eq!(result, Err(RegistrarError::RealmDataInvalid));
}

#[test]
fn non_realm_account_type_fails() {
    let program = key(1);
    let realm = key(2);
    let community = key(3);
    let authority = key(4);
    let not_a_realm = RealmV2 {
        account_type: GovernanceAccountType::Uninitialized,
        community_mint: pk(&community),
        config: realm_config(None),
        reserved: [0; 6],
        legacy1: 0,
        authority: Some(pk(&authority)),
        name: "realm".to_string(),
        reserved_v2: [0; 128],
    };
    let data = not_a_realm.try_to_vec().unwrap();
    let acc = accounts(&program, true, &realm, &program, data, &community, &authority);
    let mut store = RegistrarStore::new();

    let result = create_registrar(&mut store, &acc, vec![]);

    assert_eq!(result, Err(RegistrarError::RealmDataInvalid));
}

#[test]
fn legacy_realm_record_also_decodes() {
    let program = key(1);
    let realm = key(2);
    let community = key(3);
    let authority = key(4);
    let legacy = RealmV1 {
        account_type: GovernanceAccountType::RealmV1,
        community_mint: pk(&community),
        config: realm_config(None),
        reserved: [0; 6],
        voting_proposal_count: 0,
        authority: Some(pk(&authority)),
        name: "realm".to_string(),
    };
    let data = legacy.try_to_vec().unwrap();
    let acc = accounts(&program, true, &realm, &program, data, &community, &authority);
    let mut store = RegistrarStore::new();

    let result = create_registrar(&mut store, &acc, vec![key(5)]);

    assert_eq!(result, Ok(()));
    assert_eq!(store.len(), 1);
}

#[test]
fn mints_read_back_in_order() {
    let program = key(1);
    let realm = key(2);
    let community = key(3);
    let authority = key(4);
    let mints: Vec<AccountKey> = (20u8..25u8).map(|s| key(s)).collect();
    let acc = accounts(
        &program,
        true,
        &realm,
        &program,
        realm_bytes(Some(&authority), &community, None),
        &community,
        &authority,
    );
    let mut store = RegistrarStore::new();

    assert_eq!(create_registrar(&mut store, &acc, mints.clone()), Ok(()));

    let record = store.find(&realm, &community).unwrap();
    assert_eq!(record.mints.len(), mints.len());
    for (stored, supplied) in record.mints.iter().zip(mints.iter()) {
        assert_eq!(stored.to_array(), supplied.to_array());
    }
}

#[test]
fn get_space_is_proportional_to_mint_count() {
    assert_eq!(Registrar::get_space(0), 108);
    assert_eq!(Registrar::get_space(1), 140);
    assert_eq!(Registrar::get_space(2), 172);
    assert_eq!(Registrar::get_space(255), 108 + 255 * 32);
    for n in 0u8..=255u8 {
        assert_eq!(Registrar::get_space(n), 108 + 32 * (n as usize));
    }
}

#[test]
fn key_equality_is_byte_for_byte() {
    let a = key(11);
    let b = key(11);
    let mut c_bytes = [11u8; 32];
    c_bytes[31] = 12;
    let c = AccountKey::new(c_bytes);
    assert!(a.key_eq(&b));
    assert!(!a.key_eq(&c));
    assert_eq!(a.to_array(), [11u8; 32]);
}

#[test]
fn plugin_error_codes_and_messages() {
    assert_eq!(NftLockerError::InvalidRealmAuthority.code(), 6000);
    assert_eq!(NftLockerError::DecodeMetadataFailed.code(), 6001);
    assert_eq!(NftLockerError::InvalidCollection.code(), 6002);
    assert_eq!(NftLockerError::UnverifiedCollection.code(), 6003);
    assert_eq!(NftLockerError::InsufficientAmountOnNFTAccount.code(), 6004);
    assert_eq!(NftLockerError::InvalidRealmAuthority.message(), "Invalid Realm Authority");
    assert_eq!(NftLockerError::DecodeMetadataFailed.message(), "Failed to decode metadata");
    assert_eq!(
        NftLockerError::InsufficientAmountOnNFTAccount.message(),
        "There is no NFT in the account"
    );
}
