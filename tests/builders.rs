use hapi_core::enums::{CaseStatus, Category, ReporterType};
use hapi_core::error::HapiError;
use hapi_core::instruction::{create_case, create_community, report_address, update_community, AccountMeta};
use hapi_core::key::Key;
use hapi_core::pda::{
    get_address_address_seeds, get_case_address_seeds, get_community_address_seeds,
    get_network_address_seeds, get_reporter_address_seeds, get_address_address, get_case_address, get_community_address, get_network_address,
    get_reporter_address,
};
use hapi_core::processor::{assert_reporter_belongs_to_community, creation_seeds, process, HapiInstruction};
use hapi_core::slot::Slot;
use hapi_core::state::{AccountData, Network, Reporter};

fn program() -> Key {
    Key::new([7u8; 32])
}

fn slot(key: Key, owner: Key, is_signer: bool, data: AccountData) -> Slot {
    Slot { key, owner, is_signer, lamports: 1_000_000, capacity: 80, data }
}

#[test]
fn create_community_lists_authority_and_slot() {
    let pid = program();
    let authority = Key::new([1u8; 32]);
    let i = create_community(&authority, "acme", &pid).unwrap();
    let community = get_community_address("acme", &pid).unwrap();
    assert_eq!(i.program_id, pid);
    assert_eq!(
        i.accounts,
        vec![
            AccountMeta { pubkey: authority, is_signer: true, is_writable: true },
            AccountMeta { pubkey: community, is_signer: false, is_writable: true },
        ]
    );
    match i.data {
        HapiInstruction::CreateCommunity { name } => assert_eq!(name, "acme"),
        _ => panic!("wrong operation"),
    }
}

#[test]
fn update_community_lists_new_authority() {
    let pid = program();
    let authority = Key::new([1u8; 32]);
    let next = Key::new([9u8; 32]);
    let i = update_community(&authority, Some(&next), "acme", "acme2", &pid).unwrap();
    assert_eq!(i.accounts.len(), 3);
    assert_eq!(i.accounts[2], AccountMeta { pubkey: next, is_signer: false, is_writable: false });
    let i = update_community(&authority, None, "acme", "acme2", &pid).unwrap();
    assert_eq!(i.accounts.len(), 2);
}

#[test]
fn create_case_lists_derived_slots() {
    let pid = program();
    let reporter = Key::new([2u8; 32]);
    let i = create_case(&reporter, "acme", 3, "c", Category::Scam.mask(), CaseStatus::Open, &pid).unwrap();
    let community = get_community_address("acme", &pid).unwrap();
    let keys: Vec<Key> = i.accounts.iter().map(|m| m.pubkey).collect();
    assert_eq!(
        keys,
        vec![
            reporter,
            community,
            get_reporter_address(&community, &reporter, &pid).unwrap(),
            get_case_address(&community, 3, &pid).unwrap(),
        ]
    );
    assert!(i.accounts[1].is_writable);
    assert!(!i.accounts[2].is_writable);
}

#[test]
fn report_address_splits_path() {
    let pid = program();
    let reporter = Key::new([2u8; 32]);
    let value = Key::new([42u8; 32]);
    let i = report_address(&reporter, "acme/eth", &value, 0, 7, Category::Scam, &pid).unwrap();
    let community = get_community_address("acme", &pid).unwrap();
    let network = get_network_address(&community, "eth", &pid).unwrap();
    assert_eq!(i.accounts.len(), 6);
    assert_eq!(i.accounts[2].pubkey, network);
    assert_eq!(i.accounts[5].pubkey, get_address_address(&network, &value, &pid).unwrap());
    assert!(i.accounts[5].is_writable);
    assert!(report_address(&reporter, "acme-eth", &value, 0, 7, Category::Scam, &pid).is_none());
}

#[test]
fn update_network_is_reserved() {
    let pid = program();
    let authority = Key::new([1u8; 32]);
    let community_key = get_community_address("acme", &pid).unwrap();
    let mut accounts = vec![
        slot(authority, Key::new([0u8; 32]), true, AccountData::Empty),
        Slot { key: community_key, owner: Key::new([0u8; 32]), is_signer: false, lamports: 0, capacity: 0, data: AccountData::Empty },
    ];
    process(&pid, &mut accounts, HapiInstruction::CreateCommunity { name: "acme".to_string() }, 100).unwrap();
    let network_key = get_network_address(&community_key, "eth", &pid).unwrap();
    accounts.push(slot(network_key, pid, false, AccountData::Network(Network { name: "eth".to_string() })));
    assert_eq!(process(&pid, &mut accounts, HapiInstruction::UpdateNetwork, 0), Err(HapiError::NotImplemented));
    accounts[2].key = Key::new([5u8; 32]);
    assert_eq!(
        process(&pid, &mut accounts, HapiInstruction::UpdateNetwork, 0),
        Err(HapiError::InvalidAccountAddress)
    );
}

#[test]
fn seeds_of_created_slots() {
    let community = Key::new([3u8; 32]);
    let accounts = vec![
        slot(Key::new([1u8; 32]), Key::new([0u8; 32]), true, AccountData::Empty),
        slot(community, program(), false, AccountData::Empty),
    ];
    let create = HapiInstruction::CreateCase { case_id: 258, name: "c".to_string(), categories: 0, status: CaseStatus::Open };
    let seeds = creation_seeds(&create, &accounts).unwrap();
    assert_eq!(seeds, vec![b"case".to_vec(), community.bytes.to_vec(), vec![2, 1, 0, 0, 0, 0, 0, 0]]);
    let seeds = creation_seeds(&HapiInstruction::CreateCommunity { name: "acme".to_string() }, &vec![]).unwrap();
    assert_eq!(seeds, vec![b"community".to_vec(), b"acme".to_vec()]);
    assert!(creation_seeds(&HapiInstruction::UpdateNetwork, &accounts).is_none());
    let reporter = HapiInstruction::CreateReporter { reporter_type: ReporterType::Full, name: "r".to_string() };
    assert!(creation_seeds(&reporter, &accounts).is_none());
}

#[test]
fn seed_lists_start_with_their_tag() {
    let community = Key::new([3u8; 32]);
    let other = Key::new([4u8; 32]);
    assert_eq!(get_community_address_seeds("acme"), vec![b"community".to_vec(), b"acme".to_vec()]);
    assert_eq!(
        get_network_address_seeds(&community, "eth"),
        vec![b"network".to_vec(), community.bytes.to_vec(), b"eth".to_vec()]
    );
    assert_eq!(
        get_reporter_address_seeds(&community, &other),
        vec![b"reporter".to_vec(), community.bytes.to_vec(), other.bytes.to_vec()]
    );
    assert_eq!(
        get_case_address_seeds(&community, 1),
        vec![b"case".to_vec(), community.bytes.to_vec(), vec![1, 0, 0, 0, 0, 0, 0, 0]]
    );
    assert_eq!(
        get_address_address_seeds(&community, &other),
        vec![b"address".to_vec(), community.bytes.to_vec(), other.bytes.to_vec()]
    );
}

#[test]
fn seed_lists_derive_the_slots() {
    let pid = program();
    let seeds = get_community_address_seeds("acme");
    let refs: Vec<&[u8]> = seeds.iter().map(|s| s.as_slice()).collect();
    let (expected, _) = solana_program::pubkey::Pubkey::find_program_address(
        &refs,
        &solana_program::pubkey::Pubkey::new_from_array(pid.bytes),
    );
    assert_eq!(get_community_address("acme", &pid).unwrap().bytes, expected.to_bytes());
}

#[test]
fn reporter_membership() {
    let pid = program();
    let community = Key::new([3u8; 32]);
    let reporter = Key::new([2u8; 32]);
    let key = get_reporter_address(&community, &reporter, &pid).unwrap();
    let record = Reporter { reporter_type: ReporterType::Tracer, name: "t".to_string() };
    let s = slot(key, pid, false, AccountData::Reporter(record.clone()));
    assert_eq!(assert_reporter_belongs_to_community(&s, &community, &reporter, &pid), Ok(record));
    assert_eq!(
        assert_reporter_belongs_to_community(&s, &community, &Key::new([4u8; 32]), &pid),
        Err(HapiError::InvalidReporter)
    );
    let foreign = slot(key, Key::new([0u8; 32]), false, AccountData::Empty);
    assert_eq!(
        assert_reporter_belongs_to_community(&foreign, &community, &reporter, &pid),
        Err(HapiError::InvalidAccountOwner)
    );
}
