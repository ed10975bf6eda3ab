//! Storage slots: typed records behind an owner check and a type check.
use crate::enums::HapiAccountType;
use crate::error::HapiError;
use crate::key::Key;
use crate::state::{AccountData, Address, Case, Community, Network, Reporter};
use vstd::prelude::*;

verus! {

/// A storage location as an instruction sees it.
#[derive(Clone, Debug, PartialEq, Eq)]
pub struct Slot {
    /// The slot's address.
    pub key: Key,
    /// The program that may write the slot.
    pub owner: Key,
    /// Whether the instruction carries this key's signature.
    pub is_signer: bool,
    /// The slot's balance.
    pub lamports: u64,
    /// Bytes allocated for the record, fixed at creation.
    pub capacity: usize,
    /// The record the slot holds.
    pub data: AccountData,
}

/// The owner check, then the type check.
pub open spec fn valid_account(s: Slot, t: HapiAccountType, program_id: Key) -> Result<(), HapiError> {
    if s.owner != program_id {
        Err(HapiError::InvalidAccountOwner)
    } else if s.data.spec_account_type() != t {
        Err(HapiError::InvalidAccountType)
    } else {
        Ok(())
    }
}

/// Checks that the slot is owned by this program and holds a record of type `t`.
pub fn assert_is_valid_account(slot: &Slot, t: HapiAccountType, program_id: &Key) -> (r: Result<(), HapiError>)
    ensures
        r == valid_account(*slot, t, *program_id),
{
    if slot.owner != *program_id {
        Err(HapiError::InvalidAccountOwner)
    } else if slot.data.account_type() != t {
        Err(HapiError::InvalidAccountType)
    } else {
        Ok(())
    }
}

/// Checks that nothing has been written to the slot yet.
pub fn assert_is_empty_account(slot: &Slot) -> (r: Result<(), HapiError>)
    ensures
        r == if slot.data is Empty {
            Ok(())
        } else {
            Err(HapiError::AlreadyInUse)
        },
{
    match slot.data {
        AccountData::Empty => Ok(()),
        _ => Err(HapiError::AlreadyInUse),
    }
}

/// Checks that the slot holds a community record of this program.
pub fn assert_is_valid_community(slot: &Slot, program_id: &Key) -> (r: Result<(), HapiError>)
    ensures
        r == valid_account(*slot, HapiAccountType::Community, *program_id),
{
    assert_is_valid_account(slot, HapiAccountType::Community, program_id)
}

/// Checks that the slot holds a network record of this program.
pub fn assert_is_valid_network(slot: &Slot, program_id: &Key) -> (r: Result<(), HapiError>)
    ensures
        r == valid_account(*slot, HapiAccountType::Network, *program_id),
{
    assert_is_valid_account(slot, HapiAccountType::Network, program_id)
}

/// Checks that the slot holds a reporter record of this program.
pub fn assert_is_valid_reporter(slot: &Slot, program_id: &Key) -> (r: Result<(), HapiError>)
    ensures
        r == valid_account(*slot, HapiAccountType::Reporter, *program_id),
{
    assert_is_valid_account(slot, HapiAccountType::Reporter, program_id)
}

/// Checks that the slot holds a case record of this program.
pub fn assert_is_valid_case(slot: &Slot, program_id: &Key) -> (r: Result<(), HapiError>)
    ensures
        r == valid_account(*slot, HapiAccountType::Case, *program_id),
{
    assert_is_valid_account(slot, HapiAccountType::Case, program_id)
}

/// Checks that the slot holds an address record of this program.
pub fn assert_is_valid_address(slot: &Slot, program_id: &Key) -> (r: Result<(), HapiError>)
    ensures
        r == valid_account(*slot, HapiAccountType::Address, *program_id),
{
    assert_is_valid_account(slot, HapiAccountType::Address, program_id)
}

/// Reads the community record of a slot of this program.
pub fn get_community_data(slot: &Slot, program_id: &Key) -> (r: Result<Community, HapiError>)
    ensures
        match valid_account(*slot, HapiAccountType::Community, *program_id) {
            Err(e) => r == Err::<Community, HapiError>(e),
            Ok(_) => slot.data matches AccountData::Community(c) && r == Ok::<Community, HapiError>(c),
        },
{
    assert_is_valid_community(slot, program_id)?;
    match &slot.data {
        AccountData::Community(c) => Ok(
            Community { authority: c.authority, name: c.name.clone(), next_case_id: c.next_case_id },
        ),
        _ => Err(HapiError::InvalidAccountType),
    }
}

/// Reads the network record of a slot of this program.
pub fn get_network_data(slot: &Slot, program_id: &Key) -> (r: Result<Network, HapiError>)
    ensures
        match valid_account(*slot, HapiAccountType::Network, *program_id) {
            Err(e) => r == Err::<Network, HapiError>(e),
            Ok(_) => slot.data matches AccountData::Network(n) && r == Ok::<Network, HapiError>(n),
        },
{
    assert_is_valid_network(slot, program_id)?;
    match &slot.data {
        AccountData::Network(n) => Ok(Network { name: n.name.clone() }),
        _ => Err(HapiError::InvalidAccountType),
    }
}

/// Reads the reporter record of a slot of this program.
pub fn get_reporter_data(slot: &Slot, program_id: &Key) -> (r: Result<Reporter, HapiError>)
    ensures
        match valid_account(*slot, HapiAccountType::Reporter, *program_id) {
            Err(e) => r == Err::<Reporter, HapiError>(e),
            Ok(_) => slot.data matches AccountData::Reporter(p) && r == Ok::<Reporter, HapiError>(p),
        },
{
    assert_is_valid_reporter(slot, program_id)?;
    match &slot.data {
        AccountData::Reporter(p) => Ok(Reporter { reporter_type: p.reporter_type, name: p.name.clone() }),
        _ => Err(HapiError::InvalidAccountType),
    }
}

/// Reads the case record of a slot of this program.
pub fn get_case_data(slot: &Slot, program_id: &Key) -> (r: Result<Case, HapiError>)
    ensures
        match valid_account(*slot, HapiAccountType::Case, *program_id) {
            Err(e) => r == Err::<Case, HapiError>(e),
            Ok(_) => slot.data matches AccountData::Case(c) && r == Ok::<Case, HapiError>(c),
        },
{
    assert_is_valid_case(slot, program_id)?;
    match &slot.data {
        AccountData::Case(c) => Ok(
            Case {
                reporter_key: c.reporter_key,
                categories: c.categories,
                status: c.status,
                name: c.name.clone(),
            },
        ),
        _ => Err(HapiError::InvalidAccountType),
    }
}

/// Reads the address record of a slot of this program.
pub fn get_address_data(slot: &Slot, program_id: &Key) -> (r: Result<Address, HapiError>)
    ensures
        match valid_account(*slot, HapiAccountType::Address, *program_id) {
            Err(e) => r == Err::<Address, HapiError>(e),
            Ok(_) => slot.data matches AccountData::Address(a) && r == Ok::<Address, HapiError>(a),
        },
{
    assert_is_valid_address(slot, program_id)?;
    match &slot.data {
        AccountData::Address(a) => Ok(Address { risk: a.risk, case_id: a.case_id, category: a.category }),
        _ => Err(HapiError::InvalidAccountType),
    }
}

/// What the payer must add so that a slot holding `lamports` reaches `minimum`.
pub open spec fn shortfall(lamports: u64, minimum: u64) -> u64 {
    if lamports >= minimum {
        0
    } else {
        (minimum - lamports) as u64
    }
}

/// Allocating slot `target` for `data`: it must be empty and `data` must fit
/// `size`; the payer tops the slot up to `minimum`, and the slot passes to
/// this program with `size` bytes and the record.
pub open spec fn create_outcome(
    s: Seq<Slot>,
    payer: int,
    target: int,
    program_id: Key,
    size: usize,
    minimum: u64,
    data: AccountData,
) -> Result<Seq<Slot>, HapiError> {
    let t = s[target];
    let p = s[payer];
    let fee = shortfall(t.lamports, minimum);
    if !(t.data is Empty) {
        Err(HapiError::AlreadyInUse)
    } else if data.spec_size() > size {
        Err(HapiError::AccountDataTooSmall)
    } else if p.lamports < fee {
        Err(HapiError::InsufficientFunds)
    } else {
        Ok(
            s.update(
                payer,
                Slot {
                    key: p.key,
                    owner: p.owner,
                    is_signer: p.is_signer,
                    lamports: (p.lamports - fee) as u64,
                    capacity: p.capacity,
                    data: p.data,
                },
            ).update(
                target,
                Slot {
                    key: t.key,
                    owner: program_id,
                    is_signer: t.is_signer,
                    lamports: (t.lamports + fee) as u64,
                    capacity: size,
                    data: data,
                },
            ),
        )
    }
}

/// Replacing the record of slot `target` by `data`, which must fit its space.
pub open spec fn write_outcome(s: Seq<Slot>, target: int, data: AccountData) -> Result<Seq<Slot>, HapiError> {
    let t = s[target];
    if data.spec_size() > t.capacity {
        Err(HapiError::AccountDataTooSmall)
    } else {
        Ok(
            s.update(
                target,
                Slot {
                    key: t.key,
                    owner: t.owner,
                    is_signer: t.is_signer,
                    lamports: t.lamports,
                    capacity: t.capacity,
                    data: data,
                },
            ),
        )
    }
}

/// Moves the record out of slot `i`, leaving it empty.
fn take_data(accounts: &mut Vec<Slot>, i: usize) -> (r: AccountData)
    requires
        i < old(accounts).len(),
    ensures
        r == old(accounts)[i as int].data,
        final(accounts)@ == old(accounts)@.update(
            i as int,
            Slot {
                key: old(accounts)[i as int].key,
                owner: old(accounts)[i as int].owner,
                is_signer: old(accounts)[i as int].is_signer,
                lamports: old(accounts)[i as int].lamports,
                capacity: old(accounts)[i as int].capacity,
                data: AccountData::Empty,
            },
        ),
{
    let mut slot = Slot {
        key: accounts[i].key,
        owner: accounts[i].owner,
        is_signer: accounts[i].is_signer,
        lamports: accounts[i].lamports,
        capacity: accounts[i].capacity,
        data: AccountData::Empty,
    };
    accounts.set_and_swap(i, &mut slot);
    slot.data
}

/// Writes `data` to slot `target` in place; fails, changing nothing, where
/// the record does not fit the slot's space.
pub fn write_account(accounts: &mut Vec<Slot>, target: usize, data: AccountData) -> (r: Result<(), HapiError>)
    requires
        target < old(accounts).len(),
    ensures
        match write_outcome(old(accounts)@, target as int, data) {
            Ok(t) => r is Ok && final(accounts)@ == t,
            Err(e) => r == Err::<(), HapiError>(e) && final(accounts)@ == old(accounts)@,
        },
{
    if !data.fits(accounts[target].capacity) {
        return Err(HapiError::AccountDataTooSmall);
    }
    let t = Slot {
        key: accounts[target].key,
        owner: accounts[target].owner,
        is_signer: accounts[target].is_signer,
        lamports: accounts[target].lamports,
        capacity: accounts[target].capacity,
        data,
    };
    accounts.set(target, t);
    Ok(())
}

/// Allocates slot `target` for `data`, funded by slot `payer` up to `minimum`,
/// the balance that keeps `size` bytes stored; fails, changing nothing, where
/// the slot is in use, the record does not fit or the payer cannot pay.
pub fn create_and_serialize_account(
    accounts: &mut Vec<Slot>,
    payer: usize,
    target: usize,
    program_id: &Key,
    size: usize,
    minimum: u64,
    data: AccountData,
) -> (r: Result<(), HapiError>)
    requires
        payer < old(accounts).len(),
        target < old(accounts).len(),
        payer != target,
    ensures
        match create_outcome(old(accounts)@, payer as int, target as int, *program_id, size, minimum, data) {
            Ok(t) => r is Ok && final(accounts)@ == t,
            Err(e) => r == Err::<(), HapiError>(e) && final(accounts)@ == old(accounts)@,
        },
{
    assert_is_empty_account(&accounts[target])?;
    if !data.fits(size) {
        return Err(HapiError::AccountDataTooSmall);
    }
    let held = accounts[target].lamports;
    let fee: u64 = if held >= minimum {
        0
    } else {
        minimum - held
    };
    if accounts[payer].lamports < fee {
        return Err(HapiError::InsufficientFunds);
    }
    let p = Slot {
        key: accounts[payer].key,
        owner: accounts[payer].owner,
        is_signer: accounts[payer].is_signer,
        lamports: accounts[payer].lamports - fee,
        capacity: accounts[payer].capacity,
        data: take_data(accounts, payer),
    };
    accounts.set(payer, p);
    let t = Slot {
        key: accounts[target].key,
        owner: *program_id,
        is_signer: accounts[target].is_signer,
        lamports: held + fee,
        capacity: size,
        data,
    };
    accounts.set(target, t);
    Ok(())
}

} // verus!
