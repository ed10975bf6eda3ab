//! The instruction processor: for each operation, the ordered validation
//! chain and the state transition it guards.
//!
//! Each operation reads its slots at fixed positions. The first failing check
//! ends the instruction with that error and leaves every slot as it was.
use crate::capability::{
    assert_reporter_can_report_address, assert_reporter_can_report_case,
    assert_reporter_can_update_case, permission, Operation,
};
use crate::enums::{
    is_valid_category_set, valid_category_set, CaseStatus, Category, CategorySet, HapiAccountType,
    ReporterType,
};
use crate::error::HapiError;
use crate::key::Key;
use crate::pda::{
    bytes_of, seeds_of, get_address_address_seeds, get_case_address_seeds, get_community_address_seeds,
    get_network_address_seeds, get_reporter_address_seeds, address_parts, address_tag, case_parts, case_tag, community_parts, community_tag, derived,
    get_address_address, get_case_address, get_community_address, get_network_address,
    get_reporter_address, network_parts, network_tag, reporter_parts, reporter_tag,
};
use crate::slot::{
    assert_is_valid_account, create_and_serialize_account, create_outcome, get_case_data,
    get_community_data, get_network_data, get_reporter_data, valid_account, write_account,
    write_outcome, Slot,
};
use crate::state::{
    name_len, AccountData, Address, Case, Community, Network, Reporter, ADDRESS_SIZE, CASE_SIZE,
    COMMUNITY_SIZE, MAX_NAME_LEN, NETWORK_SIZE, REPORTER_SIZE,
};
use vstd::prelude::*;

verus! {

broadcast use vstd::array::group_array_axioms;

/// The highest risk score an address record may carry.
pub const MAX_RISK: u8 = 10;

/// Whether `key` is the address that `(tag, parts)` derives under `program_id`.
pub open spec fn at_derived(key: Key, tag: Seq<u8>, parts: Seq<Seq<u8>>, program_id: Key) -> bool {
    derived(tag, parts, program_id) == Some(key.bytes@)
}

/// Whether a derivation found `key`.
fn found_key(found: Option<Key>, key: &Key) -> (r: bool)
    ensures
        r == (match found {
            Some(k) => Some(k.bytes@),
            None => None::<Seq<u8>>,
        } == Some(key.bytes@)),
{
    match found {
        Some(k) => {
            let same = k == *key;
            proof {
                if k.bytes@ == key.bytes@ {
                    assert(k.bytes =~= key.bytes);
                }
            }
            same
        },
        None => false,
    }
}

/// Whether the name fits its byte budget.
fn name_fits(name: &String) -> (r: bool)
    ensures
        r == (name_len(*name) <= MAX_NAME_LEN),
{
    let s = name.as_str();
    assert(s@ == name@);
    s.as_bytes().len() <= MAX_NAME_LEN
}

/// The community record held by a slot.
pub open spec fn community_of(s: Slot) -> Community {
    s.data->Community_0
}

/// The reporter record held by a slot.
pub open spec fn reporter_of(s: Slot) -> Reporter {
    s.data->Reporter_0
}

/// The case record held by a slot.
pub open spec fn case_of(s: Slot) -> Case {
    s.data->Case_0
}

/// The network record held by a slot.
pub open spec fn network_of(s: Slot) -> Network {
    s.data->Network_0
}

/// CreateCommunity. Slots: authority (signer), community.
pub open spec fn create_community_outcome(program_id: Key, s: Seq<Slot>, name: String, minimum: u64) -> Result<
    Seq<Slot>,
    HapiError,
> {
    if s.len() < 2 {
        Err(HapiError::NotEnoughAccountKeys)
    } else if name_len(name) > MAX_NAME_LEN {
        Err(HapiError::NameTooLong)
    } else if !s[0].is_signer {
        Err(HapiError::SignatureMissing)
    } else if !at_derived(s[1].key, community_tag(), community_parts(name@), program_id) {
        Err(HapiError::InvalidAccountAddress)
    } else {
        create_outcome(
            s,
            0,
            1,
            program_id,
            COMMUNITY_SIZE,
            minimum,
            AccountData::Community(Community { authority: s[0].key, name: name, next_case_id: 0 }),
        )
    }
}

/// The signer becomes the authority of a new community named `name`, whose
/// case counter starts at zero.
pub fn process_create_community(program_id: &Key, accounts: &mut Vec<Slot>, name: String, minimum: u64) -> (r:
    Result<(), HapiError>)
    ensures
        match create_community_outcome(*program_id, old(accounts)@, name, minimum) {
            Ok(t) => r is Ok && final(accounts)@ == t,
            Err(e) => r == Err::<(), HapiError>(e) && final(accounts)@ == old(accounts)@,
        },
{
    if accounts.len() < 2 {
        return Err(HapiError::NotEnoughAccountKeys);
    }
    if !name_fits(&name) {
        return Err(HapiError::NameTooLong);
    }
    if !accounts[0].is_signer {
        return Err(HapiError::SignatureMissing);
    }
    if !found_key(get_community_address(name.as_str(), program_id), &accounts[1].key) {
        return Err(HapiError::InvalidAccountAddress);
    }
    let data = AccountData::Community(
        Community { authority: accounts[0].key, name, next_case_id: 0 },
    );
    create_and_serialize_account(accounts, 0, 1, program_id, COMMUNITY_SIZE, minimum, data)
}

/// UpdateCommunity. Slots: authority (signer), community, and optionally the
/// new authority.
pub open spec fn update_community_outcome(program_id: Key, s: Seq<Slot>, name: String) -> Result<
    Seq<Slot>,
    HapiError,
> {
    if s.len() < 2 {
        Err(HapiError::NotEnoughAccountKeys)
    } else if name_len(name) > MAX_NAME_LEN {
        Err(HapiError::NameTooLong)
    } else if !s[0].is_signer {
        Err(HapiError::SignatureMissing)
    } else if valid_account(s[1], HapiAccountType::Community, program_id) is Err {
        Err(valid_account(s[1], HapiAccountType::Community, program_id)->Err_0)
    } else if s[0].key != community_of(s[1]).authority {
        Err(HapiError::InvalidAuthority)
    } else {
        write_outcome(
            s,
            1,
            AccountData::Community(
                Community {
                    authority: if s.len() > 2 {
                        s[2].key
                    } else {
                        community_of(s[1]).authority
                    },
                    name: name,
                    next_case_id: community_of(s[1]).next_case_id,
                },
            ),
        )
    }
}

/// The authority renames its community and, where a third slot is given,
/// hands the authority over to that slot's key.
pub fn process_update_community(program_id: &Key, accounts: &mut Vec<Slot>, name: String) -> (r: Result<
    (),
    HapiError,
>)
    ensures
        match update_community_outcome(*program_id, old(accounts)@, name) {
            Ok(t) => r is Ok && final(accounts)@ == t,
            Err(e) => r == Err::<(), HapiError>(e) && final(accounts)@ == old(accounts)@,
        },
{
    if accounts.len() < 2 {
        return Err(HapiError::NotEnoughAccountKeys);
    }
    if !name_fits(&name) {
        return Err(HapiError::NameTooLong);
    }
    if !accounts[0].is_signer {
        return Err(HapiError::SignatureMissing);
    }
    let community = get_community_data(&accounts[1], program_id)?;
    if accounts[0].key != community.authority {
        return Err(HapiError::InvalidAuthority);
    }
    let authority = if accounts.len() > 2 {
        accounts[2].key
    } else {
        community.authority
    };
    let data = AccountData::Community(
        Community { authority, name, next_case_id: community.next_case_id },
    );
    write_account(accounts, 1, data)
}

/// The checks shared by the operations of the community authority: a signer
/// in slot 0 that is the authority of the community in slot 1.
pub open spec fn authority_check(program_id: Key, s: Seq<Slot>) -> Result<(), HapiError> {
    if !s[0].is_signer {
        Err(HapiError::SignatureMissing)
    } else if valid_account(s[1], HapiAccountType::Community, program_id) is Err {
        valid_account(s[1], HapiAccountType::Community, program_id)
    } else if s[0].key != community_of(s[1]).authority {
        Err(HapiError::InvalidAuthority)
    } else {
        Ok(())
    }
}

/// Checks that slot 0 signed and is the authority of the community in slot 1.
fn check_authority(program_id: &Key, accounts: &Vec<Slot>) -> (r: Result<(), HapiError>)
    requires
        accounts.len() >= 2,
    ensures
        r == authority_check(*program_id, accounts@),
{
    if !accounts[0].is_signer {
        return Err(HapiError::SignatureMissing);
    }
    let community = get_community_data(&accounts[1], program_id)?;
    if accounts[0].key != community.authority {
        return Err(HapiError::InvalidAuthority);
    }
    Ok(())
}

/// CreateNetwork. Slots: authority (signer), community, network.
pub open spec fn create_network_outcome(program_id: Key, s: Seq<Slot>, name: String, minimum: u64) -> Result<
    Seq<Slot>,
    HapiError,
> {
    if s.len() < 3 {
        Err(HapiError::NotEnoughAccountKeys)
    } else if name_len(name) > MAX_NAME_LEN {
        Err(HapiError::NameTooLong)
    } else if authority_check(program_id, s) is Err {
        Err(authority_check(program_id, s)->Err_0)
    } else if !at_derived(s[2].key, network_tag(), network_parts(s[1].key.bytes@, name@), program_id) {
        Err(HapiError::InvalidAccountAddress)
    } else {
        create_outcome(s, 0, 2, program_id, NETWORK_SIZE, minimum, AccountData::Network(Network { name: name }))
    }
}

/// The community authority creates a network named `name` in its community.
pub fn process_create_network(program_id: &Key, accounts: &mut Vec<Slot>, name: String, minimum: u64) -> (r:
    Result<(), HapiError>)
    ensures
        match create_network_outcome(*program_id, old(accounts)@, name, minimum) {
            Ok(t) => r is Ok && final(accounts)@ == t,
            Err(e) => r == Err::<(), HapiError>(e) && final(accounts)@ == old(accounts)@,
        },
{
    if accounts.len() < 3 {
        return Err(HapiError::NotEnoughAccountKeys);
    }
    if !name_fits(&name) {
        return Err(HapiError::NameTooLong);
    }
    check_authority(program_id, accounts)?;
    if !found_key(get_network_address(&accounts[1].key, name.as_str(), program_id), &accounts[2].key) {
        return Err(HapiError::InvalidAccountAddress);
    }
    let data = AccountData::Network(Network { name });
    create_and_serialize_account(accounts, 0, 2, program_id, NETWORK_SIZE, minimum, data)
}

/// UpdateNetwork. Slots: authority (signer), community, network. The
/// operation is reserved: once the slots check out it fails with
/// `NotImplemented`.
pub open spec fn update_network_outcome(program_id: Key, s: Seq<Slot>) -> Result<Seq<Slot>, HapiError> {
    if s.len() < 3 {
        Err(HapiError::NotEnoughAccountKeys)
    } else if authority_check(program_id, s) is Err {
        Err(authority_check(program_id, s)->Err_0)
    } else if valid_account(s[2], HapiAccountType::Network, program_id) is Err {
        Err(valid_account(s[2], HapiAccountType::Network, program_id)->Err_0)
    } else if !at_derived(s[2].key, network_tag(), network_parts(s[1].key.bytes@, network_of(s[2]).name@), program_id) {
        Err(HapiError::InvalidAccountAddress)
    } else {
        Err(HapiError::NotImplemented)
    }
}

/// Checks a network of the authority's community, then refuses: updating
/// networks is reserved.
pub fn process_update_network(program_id: &Key, accounts: &mut Vec<Slot>) -> (r: Result<(), HapiError>)
    ensures
        match update_network_outcome(*program_id, old(accounts)@) {
            Ok(t) => r is Ok && final(accounts)@ == t,
            Err(e) => r == Err::<(), HapiError>(e) && final(accounts)@ == old(accounts)@,
        },
{
    if accounts.len() < 3 {
        return Err(HapiError::NotEnoughAccountKeys);
    }
    check_authority(program_id, accounts)?;
    let network = get_network_data(&accounts[2], program_id)?;
    if !found_key(get_network_address(&accounts[1].key, network.name.as_str(), program_id), &accounts[2].key) {
        return Err(HapiError::InvalidAccountAddress);
    }
    Err(HapiError::NotImplemented)
}

/// CreateReporter. Slots: authority (signer), community, reporter's public
/// key, reporter.
pub open spec fn create_reporter_outcome(
    program_id: Key,
    s: Seq<Slot>,
    reporter_type: ReporterType,
    name: String,
    minimum: u64,
) -> Result<Seq<Slot>, HapiError> {
    if s.len() < 4 {
        Err(HapiError::NotEnoughAccountKeys)
    } else if name_len(name) > MAX_NAME_LEN {
        Err(HapiError::NameTooLong)
    } else if authority_check(program_id, s) is Err {
        Err(authority_check(program_id, s)->Err_0)
    } else if !at_derived(s[3].key, reporter_tag(), reporter_parts(s[1].key.bytes@, s[2].key.bytes@), program_id) {
        Err(HapiError::InvalidReporter)
    } else {
        create_outcome(
            s,
            0,
            3,
            program_id,
            REPORTER_SIZE,
            minimum,
            AccountData::Reporter(Reporter { reporter_type: reporter_type, name: name }),
        )
    }
}

/// The community authority registers the key in slot 2 as a reporter of
/// level `reporter_type`.
pub fn process_create_reporter(
    program_id: &Key,
    accounts: &mut Vec<Slot>,
    reporter_type: ReporterType,
    name: String,
    minimum: u64,
) -> (r: Result<(), HapiError>)
    ensures
        match create_reporter_outcome(*program_id, old(accounts)@, reporter_type, name, minimum) {
            Ok(t) => r is Ok && final(accounts)@ == t,
            Err(e) => r == Err::<(), HapiError>(e) && final(accounts)@ == old(accounts)@,
        },
{
    if accounts.len() < 4 {
        return Err(HapiError::NotEnoughAccountKeys);
    }
    if !name_fits(&name) {
        return Err(HapiError::NameTooLong);
    }
    check_authority(program_id, accounts)?;
    if !found_key(get_reporter_address(&accounts[1].key, &accounts[2].key, program_id), &accounts[3].key) {
        return Err(HapiError::InvalidReporter);
    }
    let data = AccountData::Reporter(Reporter { reporter_type, name });
    create_and_serialize_account(accounts, 0, 3, program_id, REPORTER_SIZE, minimum, data)
}

/// UpdateReporter. Slots: authority (signer), community, reporter's public
/// key, reporter.
pub open spec fn update_reporter_outcome(
    program_id: Key,
    s: Seq<Slot>,
    reporter_type: ReporterType,
    name: String,
) -> Result<Seq<Slot>, HapiError> {
    if s.len() < 4 {
        Err(HapiError::NotEnoughAccountKeys)
    } else if name_len(name) > MAX_NAME_LEN {
        Err(HapiError::NameTooLong)
    } else if authority_check(program_id, s) is Err {
        Err(authority_check(program_id, s)->Err_0)
    } else if !at_derived(s[3].key, reporter_tag(), reporter_parts(s[1].key.bytes@, s[2].key.bytes@), program_id) {
        Err(HapiError::InvalidReporter)
    } else if valid_account(s[3], HapiAccountType::Reporter, program_id) is Err {
        Err(valid_account(s[3], HapiAccountType::Reporter, program_id)->Err_0)
    } else {
        write_outcome(s, 3, AccountData::Reporter(Reporter { reporter_type: reporter_type, name: name }))
    }
}

/// The community authority renames a registered reporter and sets its level.
pub fn process_update_reporter(
    program_id: &Key,
    accounts: &mut Vec<Slot>,
    reporter_type: ReporterType,
    name: String,
) -> (r: Result<(), HapiError>)
    ensures
        match update_reporter_outcome(*program_id, old(accounts)@, reporter_type, name) {
            Ok(t) => r is Ok && final(accounts)@ == t,
            Err(e) => r == Err::<(), HapiError>(e) && final(accounts)@ == old(accounts)@,
        },
{
    if accounts.len() < 4 {
        return Err(HapiError::NotEnoughAccountKeys);
    }
    if !name_fits(&name) {
        return Err(HapiError::NameTooLong);
    }
    check_authority(program_id, accounts)?;
    if !found_key(get_reporter_address(&accounts[1].key, &accounts[2].key, program_id), &accounts[3].key) {
        return Err(HapiError::InvalidReporter);
    }
    assert_is_valid_account(&accounts[3], HapiAccountType::Reporter, program_id)?;
    let data = AccountData::Reporter(Reporter { reporter_type, name });
    write_account(accounts, 3, data)
}

/// The checks shared by the operations of reporters: a signer in slot 0, a
/// community in slot 1, and in slot `reporter` the signer's reporter record
/// in that community.
pub open spec fn reporter_check(program_id: Key, s: Seq<Slot>, reporter: int) -> Result<(), HapiError> {
    if !s[0].is_signer {
        Err(HapiError::SignatureMissing)
    } else if valid_account(s[1], HapiAccountType::Community, program_id) is Err {
        valid_account(s[1], HapiAccountType::Community, program_id)
    } else if !at_derived(s[reporter].key, reporter_tag(), reporter_parts(s[1].key.bytes@, s[0].key.bytes@), program_id) {
        Err(HapiError::InvalidReporter)
    } else {
        valid_account(s[reporter], HapiAccountType::Reporter, program_id)
    }
}

/// Checks that `reporter` is the reporter slot of `reporter_key` in the
/// community at `community`, and that it holds a reporter record of this
/// program; returns that record.
pub fn assert_reporter_belongs_to_community(
    reporter: &Slot,
    community: &Key,
    reporter_key: &Key,
    program_id: &Key,
) -> (r: Result<Reporter, HapiError>)
    ensures
        !at_derived(reporter.key, reporter_tag(), reporter_parts(community.bytes@, reporter_key.bytes@), *program_id)
            ==> r == Err::<Reporter, HapiError>(HapiError::InvalidReporter),
        at_derived(reporter.key, reporter_tag(), reporter_parts(community.bytes@, reporter_key.bytes@), *program_id)
            ==> match valid_account(*reporter, HapiAccountType::Reporter, *program_id) {
            Ok(_) => r == Ok::<Reporter, HapiError>(reporter_of(*reporter)),
            Err(e) => r == Err::<Reporter, HapiError>(e),
        },
{
    if !found_key(get_reporter_address(community, reporter_key, program_id), &reporter.key) {
        return Err(HapiError::InvalidReporter);
    }
    get_reporter_data(reporter, program_id)
}

/// Checks that slot 0 signed and that slot `reporter` is its reporter record
/// in the community of slot 1; returns that record.
fn check_reporter(program_id: &Key, accounts: &Vec<Slot>, reporter: usize) -> (r: Result<Reporter, HapiError>)
    requires
        2 <= reporter < accounts.len(),
    ensures
        match reporter_check(*program_id, accounts@, reporter as int) {
            Ok(_) => r == Ok::<Reporter, HapiError>(reporter_of(accounts[reporter as int])),
            Err(e) => r == Err::<Reporter, HapiError>(e),
        },
{
    if !accounts[0].is_signer {
        return Err(HapiError::SignatureMissing);
    }
    assert_is_valid_account(&accounts[1], HapiAccountType::Community, program_id)?;
    assert_reporter_belongs_to_community(&accounts[reporter], &accounts[1].key, &accounts[0].key, program_id)
}

/// CreateCase. Slots: reporter's key (signer), community, reporter, case.
pub open spec fn create_case_outcome(
    program_id: Key,
    s: Seq<Slot>,
    case_id: u64,
    name: String,
    categories: CategorySet,
    status: CaseStatus,
    minimum: u64,
) -> Result<Seq<Slot>, HapiError> {
    if s.len() < 4 {
        Err(HapiError::NotEnoughAccountKeys)
    } else if name_len(name) > MAX_NAME_LEN {
        Err(HapiError::NameTooLong)
    } else if !valid_category_set(categories) {
        Err(HapiError::InvalidInstruction)
    } else if reporter_check(program_id, s, 2) is Err {
        Err(reporter_check(program_id, s, 2)->Err_0)
    } else if permission(reporter_of(s[2]).reporter_type, Operation::CreateCase, false) is Err {
        Err(permission(reporter_of(s[2]).reporter_type, Operation::CreateCase, false)->Err_0)
    } else if case_id != community_of(s[1]).next_case_id || case_id == u64::MAX {
        Err(HapiError::CaseIDMismatch)
    } else if !at_derived(s[3].key, case_tag(), case_parts(s[1].key.bytes@, case_id), program_id) {
        Err(HapiError::CaseIDMismatch)
    } else if (AccountData::Community(community_of(s[1]))).spec_size() > s[1].capacity {
        Err(HapiError::AccountDataTooSmall)
    } else {
        match create_outcome(
            s,
            0,
            3,
            program_id,
            CASE_SIZE,
            minimum,
            AccountData::Case(
                Case { reporter_key: s[0].key, categories: categories, status: status, name: name },
            ),
        ) {
            Err(e) => Err(e),
            Ok(t) => write_outcome(
                t,
                1,
                AccountData::Community(
                    Community {
                        authority: community_of(s[1]).authority,
                        name: community_of(s[1]).name,
                        next_case_id: (case_id + 1) as u64,
                    },
                ),
            ),
        }
    }
}

/// A reporter of level `Full` or `Authority` opens case `case_id`, which must
/// be the community's next case id; the counter moves on by one and the
/// signer is recorded as the case's creator.
pub fn process_create_case(
    program_id: &Key,
    accounts: &mut Vec<Slot>,
    case_id: u64,
    name: String,
    categories: CategorySet,
    status: CaseStatus,
    minimum: u64,
) -> (r: Result<(), HapiError>)
    ensures
        match create_case_outcome(*program_id, old(accounts)@, case_id, name, categories, status, minimum) {
            Ok(t) => r is Ok && final(accounts)@ == t,
            Err(e) => r == Err::<(), HapiError>(e) && final(accounts)@ == old(accounts)@,
        },
{
    if accounts.len() < 4 {
        return Err(HapiError::NotEnoughAccountKeys);
    }
    if !name_fits(&name) {
        return Err(HapiError::NameTooLong);
    }
    if !is_valid_category_set(categories) {
        return Err(HapiError::InvalidInstruction);
    }
    let reporter = check_reporter(program_id, accounts, 2)?;
    assert_reporter_can_report_case(&reporter)?;
    let community = get_community_data(&accounts[1], program_id)?;
    if case_id != community.next_case_id || case_id == u64::MAX {
        return Err(HapiError::CaseIDMismatch);
    }
    if !found_key(get_case_address(&accounts[1].key, case_id, program_id), &accounts[3].key) {
        return Err(HapiError::CaseIDMismatch);
    }
    let counted = AccountData::Community(
        Community { authority: community.authority, name: community.name, next_case_id: case_id + 1 },
    );
    if !counted.fits(accounts[1].capacity) {
        return Err(HapiError::AccountDataTooSmall);
    }
    let data = AccountData::Case(Case { reporter_key: accounts[0].key, categories, status, name });
    create_and_serialize_account(accounts, 0, 3, program_id, CASE_SIZE, minimum, data)?;
    write_account(accounts, 1, counted)
}

/// UpdateCase. Slots: reporter's key (signer), community, reporter, case.
pub open spec fn update_case_outcome(
    program_id: Key,
    s: Seq<Slot>,
    case_id: u64,
    categories: CategorySet,
    status: CaseStatus,
) -> Result<Seq<Slot>, HapiError> {
    if s.len() < 4 {
        Err(HapiError::NotEnoughAccountKeys)
    } else if !valid_category_set(categories) {
        Err(HapiError::InvalidInstruction)
    } else if reporter_check(program_id, s, 2) is Err {
        Err(reporter_check(program_id, s, 2)->Err_0)
    } else if valid_account(s[3], HapiAccountType::Case, program_id) is Err {
        Err(valid_account(s[3], HapiAccountType::Case, program_id)->Err_0)
    } else if !at_derived(s[3].key, case_tag(), case_parts(s[1].key.bytes@, case_id), program_id) {
        Err(HapiError::CaseIDMismatch)
    } else if permission(
        reporter_of(s[2]).reporter_type,
        Operation::UpdateCase,
        s[0].key == case_of(s[3]).reporter_key,
    ) is Err {
        Err(
            permission(
                reporter_of(s[2]).reporter_type,
                Operation::UpdateCase,
                s[0].key == case_of(s[3]).reporter_key,
            )->Err_0,
        )
    } else {
        write_outcome(
            s,
            3,
            AccountData::Case(
                Case {
                    reporter_key: case_of(s[3]).reporter_key,
                    categories: categories,
                    status: status,
                    name: case_of(s[3]).name,
                },
            ),
        )
    }
}

/// A reporter sets the categories and status of case `case_id`: one of level
/// `Authority` on any case, one of level `Full` on the cases it created.
pub fn process_update_case(
    program_id: &Key,
    accounts: &mut Vec<Slot>,
    case_id: u64,
    categories: CategorySet,
    status: CaseStatus,
) -> (r: Result<(), HapiError>)
    ensures
        match update_case_outcome(*program_id, old(accounts)@, case_id, categories, status) {
            Ok(t) => r is Ok && final(accounts)@ == t,
            Err(e) => r == Err::<(), HapiError>(e) && final(accounts)@ == old(accounts)@,
        },
{
    if accounts.len() < 4 {
        return Err(HapiError::NotEnoughAccountKeys);
    }
    if !is_valid_category_set(categories) {
        return Err(HapiError::InvalidInstruction);
    }
    let reporter = check_reporter(program_id, accounts, 2)?;
    let case = get_case_data(&accounts[3], program_id)?;
    if !found_key(get_case_address(&accounts[1].key, case_id, program_id), &accounts[3].key) {
        return Err(HapiError::CaseIDMismatch);
    }
    assert_reporter_can_update_case(&accounts[0].key, &reporter, &case.reporter_key)?;
    let data = AccountData::Case(
        Case { reporter_key: case.reporter_key, categories, status, name: case.name },
    );
    write_account(accounts, 3, data)
}

/// The checks shared by CreateAddress and UpdateAddress, up to the address
/// record's own slot. Slots: reporter's key (signer), community, network,
/// reporter, case, address record.
pub open spec fn address_check(program_id: Key, s: Seq<Slot>, case_id: u64, risk: u8) -> Result<(), HapiError> {
    if risk > MAX_RISK {
        Err(HapiError::InvalidInstruction)
    } else if reporter_check(program_id, s, 3) is Err {
        reporter_check(program_id, s, 3)
    } else if permission(reporter_of(s[3]).reporter_type, Operation::ReportAddress, false) is Err {
        permission(reporter_of(s[3]).reporter_type, Operation::ReportAddress, false)
    } else if valid_account(s[2], HapiAccountType::Network, program_id) is Err {
        valid_account(s[2], HapiAccountType::Network, program_id)
    } else if !at_derived(s[2].key, network_tag(), network_parts(s[1].key.bytes@, network_of(s[2]).name@), program_id) {
        Err(HapiError::InvalidAccountAddress)
    } else if valid_account(s[4], HapiAccountType::Case, program_id) is Err {
        valid_account(s[4], HapiAccountType::Case, program_id)
    } else if !at_derived(s[4].key, case_tag(), case_parts(s[1].key.bytes@, case_id), program_id) {
        Err(HapiError::CaseIDMismatch)
    } else {
        Ok(())
    }
}

/// Runs the checks shared by CreateAddress and UpdateAddress.
fn check_address_parents(program_id: &Key, accounts: &Vec<Slot>, case_id: u64, risk: u8) -> (r: Result<
    (),
    HapiError,
>)
    requires
        accounts.len() >= 6,
    ensures
        r == address_check(*program_id, accounts@, case_id, risk),
{
    if risk > MAX_RISK {
        return Err(HapiError::InvalidInstruction);
    }
    let reporter = check_reporter(program_id, accounts, 3)?;
    assert_reporter_can_report_address(&reporter)?;
    let network = get_network_data(&accounts[2], program_id)?;
    if !found_key(get_network_address(&accounts[1].key, network.name.as_str(), program_id), &accounts[2].key) {
        return Err(HapiError::InvalidAccountAddress);
    }
    assert_is_valid_account(&accounts[4], HapiAccountType::Case, program_id)?;
    if !found_key(get_case_address(&accounts[1].key, case_id, program_id), &accounts[4].key) {
        return Err(HapiError::CaseIDMismatch);
    }
    Ok(())
}

/// CreateAddress.
pub open spec fn create_address_outcome(
    program_id: Key,
    s: Seq<Slot>,
    address: Key,
    case_id: u64,
    risk: u8,
    category: Category,
    minimum: u64,
) -> Result<Seq<Slot>, HapiError> {
    if s.len() < 6 {
        Err(HapiError::NotEnoughAccountKeys)
    } else if address_check(program_id, s, case_id, risk) is Err {
        Err(address_check(program_id, s, case_id, risk)->Err_0)
    } else if !at_derived(s[5].key, address_tag(), address_parts(s[2].key.bytes@, address.bytes@), program_id) {
        Err(HapiError::InvalidAccountAddress)
    } else {
        create_outcome(
            s,
            0,
            5,
            program_id,
            ADDRESS_SIZE,
            minimum,
            AccountData::Address(Address { risk: risk, case_id: case_id, category: category }),
        )
    }
}

/// A reporter above `Inactive` files a record on `address` in the network of
/// slot 2, linked to the existing case `case_id`.
pub fn process_create_address(
    program_id: &Key,
    accounts: &mut Vec<Slot>,
    address: Key,
    case_id: u64,
    risk: u8,
    category: Category,
    minimum: u64,
) -> (r: Result<(), HapiError>)
    ensures
        match create_address_outcome(*program_id, old(accounts)@, address, case_id, risk, category, minimum) {
            Ok(t) => r is Ok && final(accounts)@ == t,
            Err(e) => r == Err::<(), HapiError>(e) && final(accounts)@ == old(accounts)@,
        },
{
    if accounts.len() < 6 {
        return Err(HapiError::NotEnoughAccountKeys);
    }
    check_address_parents(program_id, accounts, case_id, risk)?;
    if !found_key(get_address_address(&accounts[2].key, &address, program_id), &accounts[5].key) {
        return Err(HapiError::InvalidAccountAddress);
    }
    let data = AccountData::Address(Address { risk, case_id, category });
    create_and_serialize_account(accounts, 0, 5, program_id, ADDRESS_SIZE, minimum, data)
}

/// UpdateAddress.
pub open spec fn update_address_outcome(
    program_id: Key,
    s: Seq<Slot>,
    address: Key,
    case_id: u64,
    risk: u8,
    category: Category,
) -> Result<Seq<Slot>, HapiError> {
    if s.len() < 6 {
        Err(HapiError::NotEnoughAccountKeys)
    } else if address_check(program_id, s, case_id, risk) is Err {
        Err(address_check(program_id, s, case_id, risk)->Err_0)
    } else if !at_derived(s[5].key, address_tag(), address_parts(s[2].key.bytes@, address.bytes@), program_id) {
        Err(HapiError::InvalidAccountAddress)
    } else if valid_account(s[5], HapiAccountType::Address, program_id) is Err {
        Err(valid_account(s[5], HapiAccountType::Address, program_id)->Err_0)
    } else {
        write_outcome(s, 5, AccountData::Address(Address { risk: risk, case_id: case_id, category: category }))
    }
}

/// A reporter above `Inactive` rewrites the existing record on `address`.
pub fn process_update_address(
    program_id: &Key,
    accounts: &mut Vec<Slot>,
    address: Key,
    case_id: u64,
    risk: u8,
    category: Category,
) -> (r: Result<(), HapiError>)
    ensures
        match update_address_outcome(*program_id, old(accounts)@, address, case_id, risk, category) {
            Ok(t) => r is Ok && final(accounts)@ == t,
            Err(e) => r == Err::<(), HapiError>(e) && final(accounts)@ == old(accounts)@,
        },
{
    if accounts.len() < 6 {
        return Err(HapiError::NotEnoughAccountKeys);
    }
    check_address_parents(program_id, accounts, case_id, risk)?;
    if !found_key(get_address_address(&accounts[2].key, &address, program_id), &accounts[5].key) {
        return Err(HapiError::InvalidAccountAddress);
    }
    assert_is_valid_account(&accounts[5], HapiAccountType::Address, program_id)?;
    let data = AccountData::Address(Address { risk, case_id, category });
    write_account(accounts, 5, data)
}

/// The operations of the registry, with their arguments.
#[derive(Debug)]
pub enum HapiInstruction {
    CreateCommunity { name: String },
    UpdateCommunity { name: String },
    CreateNetwork { name: String },
    UpdateNetwork,
    CreateReporter { reporter_type: ReporterType, name: String },
    UpdateReporter { reporter_type: ReporterType, name: String },
    CreateCase { case_id: u64, name: String, categories: CategorySet, status: CaseStatus },
    UpdateCase { case_id: u64, categories: CategorySet, status: CaseStatus },
    CreateAddress { address: Key, case_id: u64, risk: u8, category: Category },
    UpdateAddress { address: Key, case_id: u64, risk: u8, category: Category },
}

impl HapiInstruction {
    /// The space the instruction allocates for a new slot; zero for updates.
    pub open spec fn spec_allocation(&self) -> usize {
        match self {
            HapiInstruction::CreateCommunity { .. } => COMMUNITY_SIZE,
            HapiInstruction::CreateNetwork { .. } => NETWORK_SIZE,
            HapiInstruction::CreateReporter { .. } => REPORTER_SIZE,
            HapiInstruction::CreateCase { .. } => CASE_SIZE,
            HapiInstruction::CreateAddress { .. } => ADDRESS_SIZE,
            _ => 0,
        }
    }

    /// The space the instruction allocates for a new slot; zero for updates.
    /// The host computes from it the balance that `process` takes.
    pub fn allocation(&self) -> (r: usize)
        ensures
            r == self.spec_allocation(),
    {
        match self {
            HapiInstruction::CreateCommunity { .. } => COMMUNITY_SIZE,
            HapiInstruction::CreateNetwork { .. } => NETWORK_SIZE,
            HapiInstruction::CreateReporter { .. } => REPORTER_SIZE,
            HapiInstruction::CreateCase { .. } => CASE_SIZE,
            HapiInstruction::CreateAddress { .. } => ADDRESS_SIZE,
            _ => 0,
        }
    }
}

/// The derivation tag and parts of the slot that `instruction` creates from
/// the slots `s`; `None` for updates.
pub open spec fn created_seeds(instruction: HapiInstruction, s: Seq<Slot>) -> Option<(Seq<u8>, Seq<Seq<u8>>)> {
    match instruction {
        HapiInstruction::CreateCommunity { name } => Some((community_tag(), community_parts(name@))),
        HapiInstruction::CreateNetwork { name } => Some((network_tag(), network_parts(s[1].key.bytes@, name@))),
        HapiInstruction::CreateReporter { .. } => Some((reporter_tag(), reporter_parts(s[1].key.bytes@, s[2].key.bytes@))),
        HapiInstruction::CreateCase { case_id, .. } => Some((case_tag(), case_parts(s[1].key.bytes@, case_id))),
        HapiInstruction::CreateAddress { address, .. } => Some((address_tag(), address_parts(s[2].key.bytes@, address.bytes@))),
        _ => None,
    }
}

/// How many leading slots the seeds of the created slot are read from.
pub open spec fn seed_slots(instruction: HapiInstruction) -> nat {
    match instruction {
        HapiInstruction::CreateNetwork { .. } => 2,
        HapiInstruction::CreateReporter { .. } => 3,
        HapiInstruction::CreateCase { .. } => 2,
        HapiInstruction::CreateAddress { .. } => 3,
        _ => 0,
    }
}

/// How many leading slots the seeds of the created slot are read from.
fn seeds_slot_count(instruction: &HapiInstruction) -> (r: usize)
    ensures
        r == seed_slots(*instruction),
{
    match instruction {
        HapiInstruction::CreateNetwork { .. } => 2,
        HapiInstruction::CreateReporter { .. } => 3,
        HapiInstruction::CreateCase { .. } => 2,
        HapiInstruction::CreateAddress { .. } => 3,
        _ => 0,
    }
}

/// The full seed list (tag first) of the slot that `instruction` creates,
/// which the host needs to sign the allocation; `None` for updates and where
/// `accounts` is too short for the operation.
pub fn creation_seeds(instruction: &HapiInstruction, accounts: &Vec<Slot>) -> (r: Option<Vec<Vec<u8>>>)
    ensures
        r matches Some(p) ==> created_seeds(*instruction, accounts@) matches Some(q) && bytes_of(p@)
            == seeds_of(q.0, q.1),
        r is None <==> (created_seeds(*instruction, accounts@) is None || accounts.len() < seed_slots(
            *instruction,
        )),
{
    if accounts.len() < seeds_slot_count(instruction) {
        return None;
    }
    match instruction {
        HapiInstruction::CreateCommunity { name } => Some(get_community_address_seeds(name.as_str())),
        HapiInstruction::CreateNetwork { name } => Some(get_network_address_seeds(&accounts[1].key, name.as_str())),
        HapiInstruction::CreateReporter { .. } => Some(get_reporter_address_seeds(&accounts[1].key, &accounts[2].key)),
        HapiInstruction::CreateCase { case_id, .. } => Some(get_case_address_seeds(&accounts[1].key, *case_id)),
        HapiInstruction::CreateAddress { address, .. } => Some(get_address_address_seeds(&accounts[2].key, address)),
        _ => None,
    }
}

/// The outcome of an instruction on the slots `s`.
pub open spec fn outcome(program_id: Key, s: Seq<Slot>, instruction: HapiInstruction, minimum: u64) -> Result<
    Seq<Slot>,
    HapiError,
> {
    match instruction {
        HapiInstruction::CreateCommunity { name } => create_community_outcome(program_id, s, name, minimum),
        HapiInstruction::UpdateCommunity { name } => update_community_outcome(program_id, s, name),
        HapiInstruction::CreateNetwork { name } => create_network_outcome(program_id, s, name, minimum),
        HapiInstruction::UpdateNetwork => update_network_outcome(program_id, s),
        HapiInstruction::CreateReporter { reporter_type, name } => create_reporter_outcome(
            program_id,
            s,
            reporter_type,
            name,
            minimum,
        ),
        HapiInstruction::UpdateReporter { reporter_type, name } => update_reporter_outcome(
            program_id,
            s,
            reporter_type,
            name,
        ),
        HapiInstruction::CreateCase { case_id, name, categories, status } => create_case_outcome(
            program_id,
            s,
            case_id,
            name,
            categories,
            status,
            minimum,
        ),
        HapiInstruction::UpdateCase { case_id, categories, status } => update_case_outcome(
            program_id,
            s,
            case_id,
            categories,
            status,
        ),
        HapiInstruction::CreateAddress { address, case_id, risk, category } => create_address_outcome(
            program_id,
            s,
            address,
            case_id,
            risk,
            category,
            minimum,
        ),
        HapiInstruction::UpdateAddress { address, case_id, risk, category } => update_address_outcome(
            program_id,
            s,
            address,
            case_id,
            risk,
            category,
        ),
    }
}

/// Runs one instruction against its slots. `minimum` is the balance that
/// keeps the instruction's allocation stored; updates ignore it. The
/// instruction is applied whole or not at all.
pub fn process(program_id: &Key, accounts: &mut Vec<Slot>, instruction: HapiInstruction, minimum: u64) -> (r:
    Result<(), HapiError>)
    ensures
        match outcome(*program_id, old(accounts)@, instruction, minimum) {
            Ok(t) => r is Ok && final(accounts)@ == t,
            Err(e) => r == Err::<(), HapiError>(e) && final(accounts)@ == old(accounts)@,
        },
{
    match instruction {
        HapiInstruction::CreateCommunity { name } => process_create_community(program_id, accounts, name, minimum),
        HapiInstruction::UpdateCommunity { name } => process_update_community(program_id, accounts, name),
        HapiInstruction::CreateNetwork { name } => process_create_network(program_id, accounts, name, minimum),
        HapiInstruction::UpdateNetwork => process_update_network(program_id, accounts),
        HapiInstruction::CreateReporter { reporter_type, name } => process_create_reporter(
            program_id,
            accounts,
            reporter_type,
            name,
            minimum,
        ),
        HapiInstruction::UpdateReporter { reporter_type, name } => process_update_reporter(
            program_id,
            accounts,
            reporter_type,
            name,
        ),
        HapiInstruction::CreateCase { case_id, name, categories, status } => process_create_case(
            program_id,
            accounts,
            case_id,
            name,
            categories,
            status,
            minimum,
        ),
        HapiInstruction::UpdateCase { case_id, categories, status } => process_update_case(
            program_id,
            accounts,
            case_id,
            categories,
            status,
        ),
        HapiInstruction::CreateAddress { address, case_id, risk, category } => process_create_address(
            program_id,
            accounts,
            address,
            case_id,
            risk,
            category,
            minimum,
        ),
        HapiInstruction::UpdateAddress { address, case_id, risk, category } => process_update_address(
            program_id,
            accounts,
            address,
            case_id,
            risk,
            category,
        ),
    }
}

} // verus!
