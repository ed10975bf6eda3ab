use hapi_core::enums::{CaseStatus, Category, CategorySetBitmask, HapiAccountType, ReporterType};
use hapi_core::error::HapiError;
use hapi_core::key::Key;
use hapi_core::pda::{
    get_address_address, get_case_address, get_community_address, get_network_address,
    get_reporter_address,
};
use hapi_core::processor::{process, HapiInstruction};
use hapi_core::slot::Slot;
use hapi_core::state::{AccountData, Address, Case, Community, Network, Reporter};

const MINIMUM: u64 = 1_000;

fn program() -> Key {
    Key::new([7u8; 32])
}

fn nobody() -> Key {
    Key::new([0u8; 32])
}

fn signer(b: u8) -> Slot {
    Slot {
        key: Key::new([b; 32]),
        owner: nobody(),
        is_signer: true,
        lamports: 1_000_000_000,
        capacity: 0,
        data: AccountData::Empty,
    }
}

fn plain(key: Key) -> Slot {
    Slot { key, owner: nobody(), is_signer: false, lamports: 0, capacity: 0, data: AccountData::Empty }
}

/// A registry with community "acme" whose authority is key 1, network "eth",
/// and reporters: key 2 at `Full`, key 3 at `Tracer`, key 4 at `Full`,
/// key 5 at `Authority`, key 6 at `Inactive`.
struct World {
    community: Slot,
    network: Slot,
    reporters: Vec<(u8, Slot)>,
}

impl World {
    fn new() -> World {
        let pid = program();
        let community_key = get_community_address("acme", &pid).unwrap();
        let mut accounts = vec![signer(1), plain(community_key)];
        process(&pid, &mut accounts, HapiInstruction::CreateCommunity { name: "acme".to_string() }, MINIMUM)
            .unwrap();
        let community = accounts.remove(1);

        let network_key = get_network_address(&community_key, "eth", &pid).unwrap();
        let mut accounts = vec![signer(1), community, plain(network_key)];
        process(&pid, &mut accounts, HapiInstruction::CreateNetwork { name: "eth".to_string() }, MINIMUM)
            .unwrap();
        let network = accounts.remove(2);
        let mut community = accounts.remove(1);

        let mut reporters = Vec::new();
        for (b, level) in [
            (2u8, ReporterType::Full),
            (3u8, ReporterType::Tracer),
            (4u8, ReporterType::Full),
            (5u8, ReporterType::Authority),
            (6u8, ReporterType::Inactive),
        ] {
            let reporter_key = Key::new([b; 32]);
            let slot_key = get_reporter_address(&community_key, &reporter_key, &pid).unwrap();
            let mut accounts = vec![signer(1), community, plain(reporter_key), plain(slot_key)];
            process(
                &pid,
                &mut accounts,
                HapiInstruction::CreateReporter { reporter_type: level, name: format!("Reporter #{}", b) },
                MINIMUM,
            )
            .unwrap();
            reporters.push((b, accounts.remove(3)));
            community = accounts.remove(1);
        }
        World { community, network, reporters }
    }

    fn reporter(&self, b: u8) -> Slot {
        self.reporters.iter().find(|(k, _)| *k == b).unwrap().1.clone()
    }

    fn next_case_id(&self) -> u64 {
        match &self.community.data {
            AccountData::Community(c) => c.next_case_id,
            _ => panic!("not a community"),
        }
    }

    fn case_slot(&self, case_id: u64) -> Slot {
        plain(get_case_address(&self.community.key, case_id, &program()).unwrap())
    }

    /// Runs CreateCase from reporter `b`; on success returns the case slot.
    fn create_case(&mut self, b: u8, case_id: u64, categories: u32) -> Result<Slot, HapiError> {
        let case = self.case_slot(case_id);
        let mut accounts = vec![signer(b), self.community.clone(), self.reporter(b), case];
        let r = process(
            &program(),
            &mut accounts,
            HapiInstruction::CreateCase {
                case_id,
                name: format!("Case {}", case_id),
                categories,
                status: CaseStatus::Open,
            },
            MINIMUM,
        );
        self.community = accounts[1].clone();
        r.map(|_| accounts[3].clone())
    }

    fn update_case(&self, b: u8, case: Slot, case_id: u64, categories: u32) -> (Result<(), HapiError>, Slot) {
        let mut accounts = vec![signer(b), self.community.clone(), self.reporter(b), case];
        let r = process(
            &program(),
            &mut accounts,
            HapiInstruction::UpdateCase { case_id, categories, status: CaseStatus::Closed },
            0,
        );
        (r, accounts.remove(3))
    }

    fn address_accounts(&self, b: u8, case: Slot, target: Slot) -> Vec<Slot> {
        vec![signer(b), self.community.clone(), self.network.clone(), self.reporter(b), case, target]
    }
}

#[test]
fn basic_flow() {
    let mut w = World::new();
    let case = w.create_case(2, 0, Category::Scam.mask()).unwrap();
    let value = Key::new([42u8; 32]);
    let address_key = get_address_address(&w.network.key, &value, &program()).unwrap();
    let mut accounts = w.address_accounts(2, case, plain(address_key));
    process(
        &program(),
        &mut accounts,
        HapiInstruction::CreateAddress { address: value, case_id: 0, risk: 7, category: Category::Scam },
        MINIMUM,
    )
    .unwrap();
    assert_eq!(
        accounts[5].data,
        AccountData::Address(Address { risk: 7, case_id: 0, category: Category::Scam })
    );
    assert_eq!(accounts[5].owner, program());
    assert_eq!(accounts[5].lamports, MINIMUM);
    assert_eq!(accounts[5].capacity, 11);
    assert_eq!(accounts[0].lamports, 1_000_000_000 - MINIMUM);
}

#[test]
fn community_record_after_creation() {
    let w = World::new();
    assert_eq!(
        w.community.data,
        AccountData::Community(Community {
            authority: Key::new([1u8; 32]),
            name: "acme".to_string(),
            next_case_id: 0,
        })
    );
    assert_eq!(w.community.capacity, 77);
    assert_eq!(w.network.data, AccountData::Network(Network { name: "eth".to_string() }));
    assert_eq!(
        w.reporter(2).data,
        AccountData::Reporter(Reporter { reporter_type: ReporterType::Full, name: "Reporter #2".to_string() })
    );
}

#[test]
fn case_record_after_creation() {
    let mut w = World::new();
    let case = w.create_case(2, 0, Category::Scam.union(Category::Mixer)).unwrap();
    assert_eq!(
        case.data,
        AccountData::Case(Case {
            reporter_key: Key::new([2u8; 32]),
            categories: 4096 | 1024,
            status: CaseStatus::Open,
            name: "Case 0".to_string(),
        })
    );
    assert_eq!(w.next_case_id(), 1);
}

#[test]
fn tracer_cannot_create_case() {
    let mut w = World::new();
    let before = w.community.clone();
    let r = w.create_case(3, 0, Category::Scam.mask());
    assert_eq!(r, Err(HapiError::InvalidReporterPermissions));
    assert_eq!(w.community, before);
    assert_eq!(w.next_case_id(), 0);
}

#[test]
fn inactive_cannot_create_case() {
    let mut w = World::new();
    assert_eq!(w.create_case(6, 0, 0), Err(HapiError::InvalidReporterPermissions));
}

#[test]
fn cross_reporter_update_denied() {
    let mut w = World::new();
    let case = w.create_case(2, 0, Category::Scam.mask()).unwrap();
    let (r, case) = w.update_case(4, case, 0, Category::Theft.mask());
    assert_eq!(r, Err(HapiError::InvalidReporterPermissions));
    match &case.data {
        AccountData::Case(c) => assert_eq!(c.categories, Category::Scam.mask()),
        _ => panic!("not a case"),
    }
    let (r, case) = w.update_case(5, case, 0, Category::Theft.mask());
    assert_eq!(r, Ok(()));
    match &case.data {
        AccountData::Case(c) => {
            assert_eq!(c.categories, Category::Theft.mask());
            assert_eq!(c.status, CaseStatus::Closed);
            assert_eq!(c.reporter_key, Key::new([2u8; 32]));
        }
        _ => panic!("not a case"),
    }
}

#[test]
fn creator_updates_own_case() {
    let mut w = World::new();
    let case = w.create_case(2, 0, Category::Scam.mask()).unwrap();
    let (r, _) = w.update_case(2, case, 0, Category::Mixer.mask());
    assert_eq!(r, Ok(()));
}

#[test]
fn tracer_cannot_update_case() {
    let mut w = World::new();
    let case = w.create_case(2, 0, Category::Scam.mask()).unwrap();
    let (r, _) = w.update_case(3, case, 0, Category::Mixer.mask());
    assert_eq!(r, Err(HapiError::InvalidReporterPermissions));
}

#[test]
fn case_id_race() {
    let mut w = World::new();
    for id in 0..5u64 {
        w.create_case(2, id, 0).unwrap();
    }
    assert_eq!(w.next_case_id(), 5);
    assert!(w.create_case(2, 5, Category::Scam.mask()).is_ok());
    assert_eq!(w.create_case(4, 5, Category::Mixer.mask()), Err(HapiError::CaseIDMismatch));
    assert_eq!(w.next_case_id(), 6);
}

#[test]
fn stale_case_id_rejected() {
    let mut w = World::new();
    assert_eq!(w.create_case(2, 1, 0), Err(HapiError::CaseIDMismatch));
    assert_eq!(w.next_case_id(), 0);
}

#[test]
fn counter_counts_created_cases() {
    let mut w = World::new();
    let mut ids = Vec::new();
    for round in 0..4u64 {
        let id = w.next_case_id();
        let _ = w.create_case(3, id, 0);
        w.create_case(2, id, 0).unwrap();
        ids.push(id);
        assert_eq!(w.next_case_id(), round + 1);
    }
    assert_eq!(ids, vec![0, 1, 2, 3]);
}

#[test]
fn second_community_create_fails() {
    let w = World::new();
    let before = w.community.clone();
    let mut accounts = vec![signer(9), w.community.clone()];
    let r = process(&program(), &mut accounts, HapiInstruction::CreateCommunity { name: "acme".to_string() }, MINIMUM);
    assert_eq!(r, Err(HapiError::AlreadyInUse));
    assert_eq!(accounts[1], before);
    assert_eq!(accounts[0].lamports, 1_000_000_000);
}

#[test]
fn second_reporter_create_fails() {
    let w = World::new();
    let mut accounts = vec![signer(1), w.community.clone(), plain(Key::new([2u8; 32])), w.reporter(2)];
    let r = process(
        &program(),
        &mut accounts,
        HapiInstruction::CreateReporter { reporter_type: ReporterType::Authority, name: "again".to_string() },
        MINIMUM,
    );
    assert_eq!(r, Err(HapiError::AlreadyInUse));
    assert_eq!(accounts[3], w.reporter(2));
}

#[test]
fn second_address_create_fails() {
    let mut w = World::new();
    let case = w.create_case(2, 0, 0).unwrap();
    let value = Key::new([42u8; 32]);
    let address_key = get_address_address(&w.network.key, &value, &program()).unwrap();
    let mut accounts = w.address_accounts(3, case.clone(), plain(address_key));
    let instruction = || HapiInstruction::CreateAddress { address: value, case_id: 0, risk: 3, category: Category::Theft };
    process(&program(), &mut accounts, instruction(), MINIMUM).unwrap();
    let stored = accounts[5].clone();
    let mut again = w.address_accounts(2, case, stored.clone());
    assert_eq!(process(&program(), &mut again, instruction(), MINIMUM), Err(HapiError::AlreadyInUse));
    assert_eq!(again[5], stored);
}

#[test]
fn update_address_requires_existing_record() {
    let mut w = World::new();
    let case = w.create_case(2, 0, 0).unwrap();
    let value = Key::new([42u8; 32]);
    let address_key = get_address_address(&w.network.key, &value, &program()).unwrap();
    let update = || HapiInstruction::UpdateAddress { address: value, case_id: 0, risk: 9, category: Category::Mixer };
    let mut accounts = w.address_accounts(2, case.clone(), plain(address_key));
    assert_eq!(process(&program(), &mut accounts, update(), 0), Err(HapiError::InvalidAccountOwner));
    assert_eq!(accounts[5], plain(address_key));

    let create = HapiInstruction::CreateAddress { address: value, case_id: 0, risk: 1, category: Category::Scam };
    process(&program(), &mut accounts, create, MINIMUM).unwrap();
    let stored = accounts[5].clone();
    let mut accounts = w.address_accounts(3, case, stored);
    assert_eq!(process(&program(), &mut accounts, update(), 0), Ok(()));
    assert_eq!(accounts[5].data, AccountData::Address(Address { risk: 9, case_id: 0, category: Category::Mixer }));
}

#[test]
fn update_reporter_on_wrong_type_fails() {
    let w = World::new();
    let mut wrong = w.network.clone();
    let reporter_key = Key::new([8u8; 32]);
    wrong.key = get_reporter_address(&w.community.key, &reporter_key, &program()).unwrap();
    let mut accounts = vec![signer(1), w.community.clone(), plain(reporter_key), wrong.clone()];
    let r = process(
        &program(),
        &mut accounts,
        HapiInstruction::UpdateReporter { reporter_type: ReporterType::Full, name: "x".to_string() },
        0,
    );
    assert_eq!(r, Err(HapiError::InvalidAccountType));
    assert_eq!(accounts[3], wrong);
}

#[test]
fn update_reporter_changes_level() {
    let w = World::new();
    let mut accounts = vec![signer(1), w.community.clone(), plain(Key::new([3u8; 32])), w.reporter(3)];
    let r = process(
        &program(),
        &mut accounts,
        HapiInstruction::UpdateReporter { reporter_type: ReporterType::Authority, name: "Updated".to_string() },
        0,
    );
    assert_eq!(r, Ok(()));
    assert_eq!(
        accounts[3].data,
        AccountData::Reporter(Reporter { reporter_type: ReporterType::Authority, name: "Updated".to_string() })
    );
}

#[test]
fn update_case_on_empty_slot_fails() {
    let w = World::new();
    let empty = w.case_slot(0);
    let (r, slot) = w.update_case(5, empty.clone(), 0, 0);
    assert_eq!(r, Err(HapiError::InvalidAccountOwner));
    assert_eq!(slot, empty);
}

#[test]
fn update_community_rotates_authority() {
    let w = World::new();
    let mut accounts = vec![signer(1), w.community.clone(), plain(Key::new([9u8; 32]))];
    let r = process(&program(), &mut accounts, HapiInstruction::UpdateCommunity { name: "acme2".to_string() }, 0);
    assert_eq!(r, Ok(()));
    assert_eq!(
        accounts[1].data,
        AccountData::Community(Community {
            authority: Key::new([9u8; 32]),
            name: "acme2".to_string(),
            next_case_id: 0,
        })
    );
}

#[test]
fn update_community_keeps_authority_without_third_slot() {
    let w = World::new();
    let mut accounts = vec![signer(1), w.community.clone()];
    process(&program(), &mut accounts, HapiInstruction::UpdateCommunity { name: "renamed".to_string() }, 0).unwrap();
    match &accounts[1].data {
        AccountData::Community(c) => assert_eq!(c.authority, Key::new([1u8; 32])),
        _ => panic!("not a community"),
    }
}

#[test]
fn update_community_by_stranger_fails() {
    let w = World::new();
    let mut accounts = vec![signer(2), w.community.clone()];
    let r = process(&program(), &mut accounts, HapiInstruction::UpdateCommunity { name: "mine".to_string() }, 0);
    assert_eq!(r, Err(HapiError::InvalidAuthority));
}

#[test]
fn network_by_stranger_fails() {
    let w = World::new();
    let key = get_network_address(&w.community.key, "btc", &program()).unwrap();
    let mut accounts = vec![signer(2), w.community.clone(), plain(key)];
    let r = process(&program(), &mut accounts, HapiInstruction::CreateNetwork { name: "btc".to_string() }, MINIMUM);
    assert_eq!(r, Err(HapiError::InvalidAuthority));
}

#[test]
fn name_too_long() {
    let pid = program();
    let name = "a".repeat(33);
    let mut accounts = vec![signer(1), plain(Key::new([3u8; 32]))];
    let r = process(&pid, &mut accounts, HapiInstruction::CreateCommunity { name }, MINIMUM);
    assert_eq!(r, Err(HapiError::NameTooLong));
}

#[test]
fn missing_signature() {
    let pid = program();
    let key = get_community_address("acme", &pid).unwrap();
    let mut payer = signer(1);
    payer.is_signer = false;
    let mut accounts = vec![payer, plain(key)];
    let r = process(&pid, &mut accounts, HapiInstruction::CreateCommunity { name: "acme".to_string() }, MINIMUM);
    assert_eq!(r, Err(HapiError::SignatureMissing));
}

#[test]
fn wrong_community_slot() {
    let pid = program();
    let key = get_community_address("other", &pid).unwrap();
    let mut accounts = vec![signer(1), plain(key)];
    let r = process(&pid, &mut accounts, HapiInstruction::CreateCommunity { name: "acme".to_string() }, MINIMUM);
    assert_eq!(r, Err(HapiError::InvalidAccountAddress));
}

#[test]
fn payer_cannot_fund() {
    let pid = program();
    let key = get_community_address("acme", &pid).unwrap();
    let mut payer = signer(1);
    payer.lamports = 10;
    let mut accounts = vec![payer, plain(key)];
    let r = process(&pid, &mut accounts, HapiInstruction::CreateCommunity { name: "acme".to_string() }, MINIMUM);
    assert_eq!(r, Err(HapiError::InsufficientFunds));
    assert_eq!(accounts[1], plain(key));
}

#[test]
fn not_enough_slots() {
    let mut accounts = vec![signer(1)];
    let r = process(&program(), &mut accounts, HapiInstruction::CreateCommunity { name: "acme".to_string() }, MINIMUM);
    assert_eq!(r, Err(HapiError::NotEnoughAccountKeys));
}

#[test]
fn reporter_slot_of_someone_else() {
    let mut w = World::new();
    let case = w.case_slot(0);
    let mut accounts = vec![signer(2), w.community.clone(), w.reporter(4), case];
    let r = process(
        &program(),
        &mut accounts,
        HapiInstruction::CreateCase { case_id: 0, name: "c".to_string(), categories: 0, status: CaseStatus::Open },
        MINIMUM,
    );
    assert_eq!(r, Err(HapiError::InvalidReporter));
    assert_eq!(w.create_case(2, 0, 0).is_ok(), true);
}

#[test]
fn unknown_category_bits_rejected() {
    let mut w = World::new();
    assert_eq!(w.create_case(2, 0, 1 << 20), Err(HapiError::InvalidInstruction));
}

#[test]
fn inactive_reporter_cannot_report_address() {
    let mut w = World::new();
    let case = w.create_case(2, 0, 0).unwrap();
    let value = Key::new([42u8; 32]);
    let address_key = get_address_address(&w.network.key, &value, &program()).unwrap();
    let mut accounts = w.address_accounts(6, case, plain(address_key));
    let r = process(
        &program(),
        &mut accounts,
        HapiInstruction::CreateAddress { address: value, case_id: 0, risk: 7, category: Category::Scam },
        MINIMUM,
    );
    assert_eq!(r, Err(HapiError::ReportingNotPermitted));
}

#[test]
fn address_for_missing_case_rejected() {
    let w = World::new();
    let value = Key::new([42u8; 32]);
    let address_key = get_address_address(&w.network.key, &value, &program()).unwrap();
    let mut accounts = w.address_accounts(2, w.case_slot(0), plain(address_key));
    let r = process(
        &program(),
        &mut accounts,
        HapiInstruction::CreateAddress { address: value, case_id: 0, risk: 7, category: Category::Scam },
        MINIMUM,
    );
    assert_eq!(r, Err(HapiError::InvalidAccountOwner));
}

#[test]
fn address_with_wrong_case_id_rejected() {
    let mut w = World::new();
    let case = w.create_case(2, 0, 0).unwrap();
    let value = Key::new([42u8; 32]);
    let address_key = get_address_address(&w.network.key, &value, &program()).unwrap();
    let mut accounts = w.address_accounts(2, case, plain(address_key));
    let r = process(
        &program(),
        &mut accounts,
        HapiInstruction::CreateAddress { address: value, case_id: 1, risk: 7, category: Category::Scam },
        MINIMUM,
    );
    assert_eq!(r, Err(HapiError::CaseIDMismatch));
}

#[test]
fn risk_above_ten_rejected() {
    let mut w = World::new();
    let case = w.create_case(2, 0, 0).unwrap();
    let value = Key::new([42u8; 32]);
    let address_key = get_address_address(&w.network.key, &value, &program()).unwrap();
    let mut accounts = w.address_accounts(2, case, plain(address_key));
    let r = process(
        &program(),
        &mut accounts,
        HapiInstruction::CreateAddress { address: value, case_id: 0, risk: 11, category: Category::Scam },
        MINIMUM,
    );
    assert_eq!(r, Err(HapiError::InvalidInstruction));
}

#[test]
fn derivation_is_deterministic() {
    let pid = program();
    let a = get_community_address("acme", &pid).unwrap();
    let b = get_community_address("acme", &pid).unwrap();
    assert_eq!(a, b);
    assert_ne!(a, get_community_address("acme2", &pid).unwrap());
    let c = get_case_address(&a, 0, &pid).unwrap();
    assert_ne!(c, get_case_address(&a, 1, &pid).unwrap());
    assert_ne!(a, pid);
}

#[test]
fn derivation_matches_host_ledger() {
    let pid = program();
    let seeds = vec![b"community".to_vec(), b"acme".to_vec()];
    let (key, bump) = hapi_core::pda::derive(b"community", &vec![b"acme".to_vec()], &pid).unwrap();
    let refs: Vec<&[u8]> = seeds.iter().map(|s| s.as_slice()).collect();
    let (expected, expected_bump) = solana_program::pubkey::Pubkey::find_program_address(
        &refs,
        &solana_program::pubkey::Pubkey::new_from_array(pid.bytes),
    );
    assert_eq!(key.bytes, expected.to_bytes());
    assert_eq!(bump, expected_bump);
    assert_eq!(get_community_address("acme", &pid).unwrap(), key);
}

#[test]
fn category_set_membership() {
    let set = Category::Scam.union(Category::Mixer);
    assert_eq!(set, 5120);
    assert!(set.contains(Category::Mixer));
    assert!(!set.contains(Category::Theft));
    assert_eq!(Category::ChildAbuse.mask(), 262144);
    assert_eq!(Category::Theft.bitor(set), 16384 | 5120);
}

#[test]
fn new_map_has_every_category_unset() {
    let map = Category::new_map();
    assert_eq!(map.len(), 20);
    assert!(map.values().all(|v| !*v));
    assert_eq!(map.get(&Category::Mixer.mask()), Some(&false));
}

#[test]
fn error_codes() {
    assert_eq!(HapiError::NotRentExempt.code(), 0);
    assert_eq!(HapiError::CaseIDMismatch.code(), 5);
    assert_eq!(HapiError::InvalidAccountType.code(), 13);
    assert_eq!(HapiError::AccountDataTooSmall.code(), 16);
}

#[test]
fn account_types() {
    assert_eq!(AccountData::Empty.account_type(), HapiAccountType::Uninitialized);
    assert_eq!(HapiAccountType::default(), HapiAccountType::Uninitialized);
    assert_eq!(ReporterType::default(), ReporterType::Inactive);
}
