//! The records kept in storage slots.
use crate::enums::{CaseStatus, Category, CategorySet, HapiAccountType, ReporterType};
use crate::key::Key;
use vstd::prelude::*;
use vstd::utf8::encode_utf8;

verus! {

/// The byte budget of every display name.
pub const MAX_NAME_LEN: usize = 32;

/// Space allocated for a community record: tag, authority, name, counter.
pub const COMMUNITY_SIZE: usize = 77;

/// Space allocated for a network record: tag, name.
pub const NETWORK_SIZE: usize = 37;

/// Space allocated for a reporter record: tag, level, name.
pub const REPORTER_SIZE: usize = 38;

/// Space allocated for a case record: tag, creator, categories, status, name.
pub const CASE_SIZE: usize = 74;

/// Space allocated for an address record: tag, risk, case id, category.
pub const ADDRESS_SIZE: usize = 11;

/// The length in bytes of a name's UTF-8 encoding.
pub open spec fn name_len(name: String) -> nat {
    encode_utf8(name@).len()
}

/// Root tenant: holds the authority key, the name and the case-id counter.
#[derive(Clone, Debug, PartialEq, Eq)]
pub struct Community {
    pub authority: Key,
    pub name: String,
    pub next_case_id: u64,
}

/// Named sub-scope of a community under which address records are filed.
#[derive(Clone, Debug, PartialEq, Eq)]
pub struct Network {
    pub name: String,
}

/// A public key registered under a community with a capability level.
#[derive(Clone, Debug, PartialEq, Eq)]
pub struct Reporter {
    pub reporter_type: ReporterType,
    pub name: String,
}

/// A named investigation record with its creator and categories.
#[derive(Clone, Debug, PartialEq, Eq)]
pub struct Case {
    pub reporter_key: Key,
    pub categories: CategorySet,
    pub status: CaseStatus,
    pub name: String,
}

/// A risk annotation on a blockchain address, linked to a case.
#[derive(Clone, Debug, PartialEq, Eq)]
pub struct Address {
    pub risk: u8,
    pub case_id: u64,
    pub category: Category,
}

/// What a slot holds; the variant is the record's type discriminant.
#[derive(Clone, Debug, PartialEq, Eq)]
pub enum AccountData {
    Empty,
    Community(Community),
    Network(Network),
    Reporter(Reporter),
    Case(Case),
    Address(Address),
}

impl AccountData {
    /// The type discriminant of the record.
    pub open spec fn spec_account_type(&self) -> HapiAccountType {
        match self {
            AccountData::Empty => HapiAccountType::Uninitialized,
            AccountData::Community(_) => HapiAccountType::Community,
            AccountData::Network(_) => HapiAccountType::Network,
            AccountData::Reporter(_) => HapiAccountType::Reporter,
            AccountData::Case(_) => HapiAccountType::Case,
            AccountData::Address(_) => HapiAccountType::Address,
        }
    }

    /// The type discriminant of the record.
    pub fn account_type(&self) -> (r: HapiAccountType)
        ensures
            r == self.spec_account_type(),
    {
        match self {
            AccountData::Empty => HapiAccountType::Uninitialized,
            AccountData::Community(_) => HapiAccountType::Community,
            AccountData::Network(_) => HapiAccountType::Network,
            AccountData::Reporter(_) => HapiAccountType::Reporter,
            AccountData::Case(_) => HapiAccountType::Case,
            AccountData::Address(_) => HapiAccountType::Address,
        }
    }

    /// The number of bytes the record takes in its binary layout: a one-byte
    /// tag, fixed-width fields, and each name prefixed by its 4-byte length.
    pub open spec fn spec_size(&self) -> nat {
        match self {
            AccountData::Empty => 0,
            AccountData::Community(c) => 1 + 32 + 4 + name_len(c.name) + 8,
            AccountData::Network(n) => 1 + 4 + name_len(n.name),
            AccountData::Reporter(r) => 1 + 1 + 4 + name_len(r.name),
            AccountData::Case(c) => 1 + 32 + 4 + 1 + 4 + name_len(c.name),
            AccountData::Address(_) => 1 + 1 + 8 + 1,
        }
    }

    /// Whether the record fits in `capacity` bytes.
    pub fn fits(&self, capacity: usize) -> (r: bool)
        ensures
            r == (self.spec_size() <= capacity),
    {
        match self {
            AccountData::Empty => true,
            AccountData::Community(c) => capacity >= 45 && c.name.as_str().as_bytes().len() <= capacity - 45,
            AccountData::Network(n) => capacity >= 5 && n.name.as_str().as_bytes().len() <= capacity - 5,
            AccountData::Reporter(r) => capacity >= 6 && r.name.as_str().as_bytes().len() <= capacity - 6,
            AccountData::Case(c) => capacity >= 42 && c.name.as_str().as_bytes().len() <= capacity - 42,
            AccountData::Address(_) => capacity >= 11,
        }
    }
}

/// The space allocated for a record of the given type when its slot is created.
pub open spec fn spec_max_size(t: HapiAccountType) -> usize {
    match t {
        HapiAccountType::Uninitialized => 0,
        HapiAccountType::Community => COMMUNITY_SIZE,
        HapiAccountType::Network => NETWORK_SIZE,
        HapiAccountType::Reporter => REPORTER_SIZE,
        HapiAccountType::Case => CASE_SIZE,
        HapiAccountType::Address => ADDRESS_SIZE,
    }
}

/// The space allocated for a record of the given type when its slot is created.
pub fn get_max_size(t: HapiAccountType) -> (r: usize)
    ensures
        r == spec_max_size(t),
{
    match t {
        HapiAccountType::Uninitialized => 0,
        HapiAccountType::Community => COMMUNITY_SIZE,
        HapiAccountType::Network => NETWORK_SIZE,
        HapiAccountType::Reporter => REPORTER_SIZE,
        HapiAccountType::Case => CASE_SIZE,
        HapiAccountType::Address => ADDRESS_SIZE,
    }
}

} // verus!
