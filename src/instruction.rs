//! Building instructions on the client side: every slot an operation reads is
//! derived from the identifiers the user gives, in the order the processor
//! expects.
use crate::enums::{CaseStatus, Category, CategorySet, ReporterType};
use crate::key::Key;
use crate::pda::{
    address_parts, address_tag, case_parts, case_tag, community_parts, community_tag, derived,
    get_address_address, get_case_address, get_community_address, get_network_address,
    get_reporter_address, network_parts, network_tag, reporter_parts, reporter_tag,
};
use crate::processor::HapiInstruction;
use crate::tools::{parse_network_path, split_network_path};
use vstd::prelude::*;

verus! {

/// A slot reference of an instruction.
#[derive(Clone, Copy, Debug, PartialEq, Eq)]
pub struct AccountMeta {
    pub pubkey: Key,
    pub is_signer: bool,
    pub is_writable: bool,
}

impl AccountMeta {
    /// A slot the instruction may write.
    pub fn new(pubkey: Key, is_signer: bool) -> (r: AccountMeta)
        ensures
            r == (AccountMeta { pubkey, is_signer, is_writable: true }),
    {
        AccountMeta { pubkey, is_signer, is_writable: true }
    }

    /// A slot the instruction only reads.
    pub fn new_readonly(pubkey: Key, is_signer: bool) -> (r: AccountMeta)
        ensures
            r == (AccountMeta { pubkey, is_signer, is_writable: false }),
    {
        AccountMeta { pubkey, is_signer, is_writable: false }
    }
}

/// An operation with the slots it reads, for a given program.
#[derive(Debug)]
pub struct Instruction {
    pub program_id: Key,
    pub accounts: Vec<AccountMeta>,
    pub data: HapiInstruction,
}

/// The slot references as (key bytes, signer, writable).
pub open spec fn metas(a: Seq<AccountMeta>) -> Seq<(Seq<u8>, bool, bool)> {
    a.map_values(|m: AccountMeta| (m.pubkey.bytes@, m.is_signer, m.is_writable))
}

/// The community slot of `name`.
pub open spec fn community_at(name: Seq<char>, program_id: Key) -> Option<Seq<u8>> {
    derived(community_tag(), community_parts(name), program_id)
}

/// Creates a CreateCommunity instruction; `None` where no slot can be derived.
pub fn create_community(authority: &Key, name: &str, program_id: &Key) -> (r: Option<Instruction>)
    ensures
        ({
            let c = community_at(name@, *program_id);
            if c is None {
                r is None
            } else {
                &&& r matches Some(i)
                &&& i.program_id == *program_id
                &&& metas(i.accounts@) == seq![(authority.bytes@, true, true), (c->Some_0, false, true)]
                &&& i.data matches HapiInstruction::CreateCommunity { name: n }
                &&& n@ == name@
            }
        }),
{
    let community = match get_community_address(name, program_id) {
        Some(k) => k,
        None => return None,
    };
    let accounts = vec![AccountMeta::new(*authority, true), AccountMeta::new(community, false)];
    assert(metas(accounts@) =~= seq![(authority.bytes@, true, true), (community.bytes@, false, true)]);
    Some(Instruction {
        program_id: *program_id,
        accounts,
        data: HapiInstruction::CreateCommunity { name: name.to_owned() },
    })
}

/// Creates an UpdateCommunity instruction that renames the community
/// `old_name` to `new_name` and, where `new_authority` is given, hands it the
/// authority.
pub fn update_community(
    authority: &Key,
    new_authority: Option<&Key>,
    old_name: &str,
    new_name: &str,
    program_id: &Key,
) -> (r: Option<Instruction>)
    ensures
        ({
            let c = community_at(old_name@, *program_id);
            if c is None {
                r is None
            } else {
                &&& r matches Some(i)
                &&& i.program_id == *program_id
                &&& metas(i.accounts@) == match new_authority {
                    Some(a) => seq![
                        (authority.bytes@, true, true),
                        (c->Some_0, false, true),
                        (a.bytes@, false, false),
                    ],
                    None => seq![(authority.bytes@, true, true), (c->Some_0, false, true)],
                }
                &&& i.data matches HapiInstruction::UpdateCommunity { name: n }
                &&& n@ == new_name@
            }
        }),
{
    let community = match get_community_address(old_name, program_id) {
        Some(k) => k,
        None => return None,
    };
    let mut accounts = vec![AccountMeta::new(*authority, true), AccountMeta::new(community, false)];
    match new_authority {
        Some(a) => {
            accounts.push(AccountMeta::new_readonly(*a, false));
            assert(metas(accounts@) =~= seq![
                (authority.bytes@, true, true),
                (community.bytes@, false, true),
                (a.bytes@, false, false),
            ]);
        },
        None => {
            assert(metas(accounts@) =~= seq![(authority.bytes@, true, true), (community.bytes@, false, true)]);
        },
    }
    Some(Instruction {
        program_id: *program_id,
        accounts,
        data: HapiInstruction::UpdateCommunity { name: new_name.to_owned() },
    })
}

/// Creates a CreateNetwork instruction for network `name` of the community
/// `community_name`.
pub fn create_network(authority: &Key, community_name: &str, name: &str, program_id: &Key) -> (r: Option<
    Instruction,
>)
    ensures
        ({
            let c = community_at(community_name@, *program_id);
            let n = derived(network_tag(), network_parts(c->Some_0, name@), *program_id);
            if c is None || n is None {
                r is None
            } else {
                &&& r matches Some(i)
                &&& i.program_id == *program_id
                &&& metas(i.accounts@) == seq![
                    (authority.bytes@, true, true),
                    (c->Some_0, false, false),
                    (n->Some_0, false, true),
                ]
                &&& i.data matches HapiInstruction::CreateNetwork { name: x }
                &&& x@ == name@
            }
        }),
{
    let community = match get_community_address(community_name, program_id) {
        Some(k) => k,
        None => return None,
    };
    let network = match get_network_address(&community, name, program_id) {
        Some(k) => k,
        None => return None,
    };
    let accounts = vec![
        AccountMeta::new(*authority, true),
        AccountMeta::new_readonly(community, false),
        AccountMeta::new(network, false),
    ];
    assert(metas(accounts@) =~= seq![
        (authority.bytes@, true, true),
        (community.bytes@, false, false),
        (network.bytes@, false, true),
    ]);
    Some(Instruction {
        program_id: *program_id,
        accounts,
        data: HapiInstruction::CreateNetwork { name: name.to_owned() },
    })
}

/// The slot list of the authority's reporter operations.
pub open spec fn reporter_admin_metas(
    authority: Key,
    community: Seq<u8>,
    reporter: Key,
    reporter_slot: Seq<u8>,
) -> Seq<(Seq<u8>, bool, bool)> {
    seq![
        (authority.bytes@, true, true),
        (community, false, false),
        (reporter.bytes@, false, false),
        (reporter_slot, false, true),
    ]
}

/// The slots of a reporter administration, or `None`.
fn reporter_admin_accounts(
    authority: &Key,
    community_name: &str,
    reporter: &Key,
    program_id: &Key,
) -> (r: Option<Vec<AccountMeta>>)
    ensures
        ({
            let c = community_at(community_name@, *program_id);
            let p = derived(reporter_tag(), reporter_parts(c->Some_0, reporter.bytes@), *program_id);
            if c is None || p is None {
                r is None
            } else {
                r matches Some(a) && metas(a@) == reporter_admin_metas(*authority, c->Some_0, *reporter, p->Some_0)
            }
        }),
{
    let community = match get_community_address(community_name, program_id) {
        Some(k) => k,
        None => return None,
    };
    let slot = match get_reporter_address(&community, reporter, program_id) {
        Some(k) => k,
        None => return None,
    };
    let accounts = vec![
        AccountMeta::new(*authority, true),
        AccountMeta::new_readonly(community, false),
        AccountMeta::new_readonly(*reporter, false),
        AccountMeta::new(slot, false),
    ];
    assert(metas(accounts@) =~= reporter_admin_metas(*authority, community.bytes@, *reporter, slot.bytes@));
    Some(accounts)
}

/// Creates a CreateReporter instruction registering `reporter` in the
/// community `community_name`.
pub fn create_reporter(
    authority: &Key,
    community_name: &str,
    reporter: &Key,
    reporter_type: ReporterType,
    name: &str,
    program_id: &Key,
) -> (r: Option<Instruction>)
    ensures
        ({
            let c = community_at(community_name@, *program_id);
            let p = derived(reporter_tag(), reporter_parts(c->Some_0, reporter.bytes@), *program_id);
            if c is None || p is None {
                r is None
            } else {
                &&& r matches Some(i)
                &&& i.program_id == *program_id
                &&& metas(i.accounts@) == reporter_admin_metas(*authority, c->Some_0, *reporter, p->Some_0)
                &&& i.data matches HapiInstruction::CreateReporter { reporter_type: t, name: x }
                &&& t == reporter_type
                &&& x@ == name@
            }
        }),
{
    let accounts = match reporter_admin_accounts(authority, community_name, reporter, program_id) {
        Some(a) => a,
        None => return None,
    };
    Some(Instruction {
        program_id: *program_id,
        accounts,
        data: HapiInstruction::CreateReporter { reporter_type, name: name.to_owned() },
    })
}

/// Creates an UpdateReporter instruction for `reporter` in the community
/// `community_name`.
pub fn update_reporter(
    authority: &Key,
    community_name: &str,
    reporter: &Key,
    reporter_type: ReporterType,
    name: &str,
    program_id: &Key,
) -> (r: Option<Instruction>)
    ensures
        ({
            let c = community_at(community_name@, *program_id);
            let p = derived(reporter_tag(), reporter_parts(c->Some_0, reporter.bytes@), *program_id);
            if c is None || p is None {
                r is None
            } else {
                &&& r matches Some(i)
                &&& i.program_id == *program_id
                &&& metas(i.accounts@) == reporter_admin_metas(*authority, c->Some_0, *reporter, p->Some_0)
                &&& i.data matches HapiInstruction::UpdateReporter { reporter_type: t, name: x }
                &&& t == reporter_type
                &&& x@ == name@
            }
        }),
{
    let accounts = match reporter_admin_accounts(authority, community_name, reporter, program_id) {
        Some(a) => a,
        None => return None,
    };
    Some(Instruction {
        program_id: *program_id,
        accounts,
        data: HapiInstruction::UpdateReporter { reporter_type, name: name.to_owned() },
    })
}

/// The slot list of the case operations; the community is writable where
/// the operation moves its counter.
pub open spec fn case_metas(
    reporter: Key,
    community: Seq<u8>,
    counting: bool,
    reporter_slot: Seq<u8>,
    case_slot: Seq<u8>,
) -> Seq<(Seq<u8>, bool, bool)> {
    seq![
        (reporter.bytes@, true, true),
        (community, false, counting),
        (reporter_slot, false, false),
        (case_slot, false, true),
    ]
}

/// The slots of a case operation, or `None`.
fn case_accounts(reporter: &Key, community_name: &str, case_id: u64, counting: bool, program_id: &Key) -> (r:
    Option<Vec<AccountMeta>>)
    ensures
        ({
            let c = community_at(community_name@, *program_id);
            let p = derived(reporter_tag(), reporter_parts(c->Some_0, reporter.bytes@), *program_id);
            let k = derived(case_tag(), case_parts(c->Some_0, case_id), *program_id);
            if c is None || p is None || k is None {
                r is None
            } else {
                r matches Some(a) && metas(a@) == case_metas(*reporter, c->Some_0, counting, p->Some_0, k->Some_0)
            }
        }),
{
    let community = match get_community_address(community_name, program_id) {
        Some(k) => k,
        None => return None,
    };
    let slot = match get_reporter_address(&community, reporter, program_id) {
        Some(k) => k,
        None => return None,
    };
    let case = match get_case_address(&community, case_id, program_id) {
        Some(k) => k,
        None => return None,
    };
    let community_meta = if counting {
        AccountMeta::new(community, false)
    } else {
        AccountMeta::new_readonly(community, false)
    };
    let accounts = vec![
        AccountMeta::new(*reporter, true),
        community_meta,
        AccountMeta::new_readonly(slot, false),
        AccountMeta::new(case, false),
    ];
    assert(metas(accounts@) =~= case_metas(*reporter, community.bytes@, counting, slot.bytes@, case.bytes@));
    Some(accounts)
}

/// Creates a CreateCase instruction for case `case_id` of the community
/// `community_name`, signed by `reporter`.
pub fn create_case(
    reporter: &Key,
    community_name: &str,
    case_id: u64,
    case_name: &str,
    categories: CategorySet,
    status: CaseStatus,
    program_id: &Key,
) -> (r: Option<Instruction>)
    ensures
        ({
            let c = community_at(community_name@, *program_id);
            let p = derived(reporter_tag(), reporter_parts(c->Some_0, reporter.bytes@), *program_id);
            let k = derived(case_tag(), case_parts(c->Some_0, case_id), *program_id);
            if c is None || p is None || k is None {
                r is None
            } else {
                &&& r matches Some(i)
                &&& i.program_id == *program_id
                &&& metas(i.accounts@) == case_metas(*reporter, c->Some_0, true, p->Some_0, k->Some_0)
                &&& i.data matches HapiInstruction::CreateCase { case_id: x, name: n, categories: y, status: z }
                &&& x == case_id && n@ == case_name@ && y == categories && z == status
            }
        }),
{
    let accounts = match case_accounts(reporter, community_name, case_id, true, program_id) {
        Some(a) => a,
        None => return None,
    };
    Some(Instruction {
        program_id: *program_id,
        accounts,
        data: HapiInstruction::CreateCase { case_id, name: case_name.to_owned(), categories, status },
    })
}

/// Creates an UpdateCase instruction for case `case_id` of the community
/// `community_name`, signed by `reporter`.
pub fn update_case(
    reporter: &Key,
    community_name: &str,
    case_id: u64,
    categories: CategorySet,
    status: CaseStatus,
    program_id: &Key,
) -> (r: Option<Instruction>)
    ensures
        ({
            let c = community_at(community_name@, *program_id);
            let p = derived(reporter_tag(), reporter_parts(c->Some_0, reporter.bytes@), *program_id);
            let k = derived(case_tag(), case_parts(c->Some_0, case_id), *program_id);
            if c is None || p is None || k is None {
                r is None
            } else {
                &&& r matches Some(i)
                &&& i.program_id == *program_id
                &&& metas(i.accounts@) == case_metas(*reporter, c->Some_0, false, p->Some_0, k->Some_0)
                &&& i.data == (HapiInstruction::UpdateCase { case_id, categories, status })
            }
        }),
{
    let accounts = match case_accounts(reporter, community_name, case_id, false, program_id) {
        Some(a) => a,
        None => return None,
    };
    Some(Instruction {
        program_id: *program_id,
        accounts,
        data: HapiInstruction::UpdateCase { case_id, categories, status },
    })
}

/// The slot list of the address-record operations.
pub open spec fn address_metas(
    reporter: Key,
    community: Seq<u8>,
    network: Seq<u8>,
    reporter_slot: Seq<u8>,
    case_slot: Seq<u8>,
    address_slot: Seq<u8>,
) -> Seq<(Seq<u8>, bool, bool)> {
    seq![
        (reporter.bytes@, true, true),
        (community, false, false),
        (network, false, false),
        (reporter_slot, false, false),
        (case_slot, false, false),
        (address_slot, false, true),
    ]
}

/// The slots of the record on `address` in the network at `network_path`
/// ("community/network"), linked to case `case_id`: `None` where the path has
/// no `/` or a slot cannot be derived.
pub open spec fn address_slots(
    reporter: Key,
    network_path: Seq<char>,
    address: Key,
    case_id: u64,
    program_id: Key,
) -> Option<Seq<(Seq<u8>, bool, bool)>> {
    match split_network_path(network_path) {
        None => None,
        Some(names) => {
            let c = community_at(names.0, program_id);
            let n = derived(network_tag(), network_parts(c->Some_0, names.1), program_id);
            let p = derived(reporter_tag(), reporter_parts(c->Some_0, reporter.bytes@), program_id);
            let k = derived(case_tag(), case_parts(c->Some_0, case_id), program_id);
            let a = derived(address_tag(), address_parts(n->Some_0, address.bytes@), program_id);
            if c is None || n is None || p is None || k is None || a is None {
                None
            } else {
                Some(address_metas(reporter, c->Some_0, n->Some_0, p->Some_0, k->Some_0, a->Some_0))
            }
        },
    }
}

/// The slots of an address-record operation, or `None`.
fn address_accounts(reporter: &Key, network_path: &str, address: &Key, case_id: u64, program_id: &Key) -> (r:
    Option<Vec<AccountMeta>>)
    ensures
        match address_slots(*reporter, network_path@, *address, case_id, *program_id) {
            None => r is None,
            Some(m) => r matches Some(a) && metas(a@) == m,
        },
{
    let (community_name, network_name) = match parse_network_path(network_path) {
        Ok(p) => p,
        Err(_) => return None,
    };
    let community = match get_community_address(community_name.as_str(), program_id) {
        Some(k) => k,
        None => return None,
    };
    let network = match get_network_address(&community, network_name.as_str(), program_id) {
        Some(k) => k,
        None => return None,
    };
    let slot = match get_reporter_address(&community, reporter, program_id) {
        Some(k) => k,
        None => return None,
    };
    let case = match get_case_address(&community, case_id, program_id) {
        Some(k) => k,
        None => return None,
    };
    let target = match get_address_address(&network, address, program_id) {
        Some(k) => k,
        None => return None,
    };
    let accounts = vec![
        AccountMeta::new(*reporter, true),
        AccountMeta::new_readonly(community, false),
        AccountMeta::new_readonly(network, false),
        AccountMeta::new_readonly(slot, false),
        AccountMeta::new_readonly(case, false),
        AccountMeta::new(target, false),
    ];
    assert(metas(accounts@) =~= address_metas(
        *reporter,
        community.bytes@,
        network.bytes@,
        slot.bytes@,
        case.bytes@,
        target.bytes@,
    ));
    Some(accounts)
}

/// Creates a CreateAddress instruction filing a record on `address` in the
/// network at `network_path` ("community/network").
pub fn report_address(
    reporter: &Key,
    network_path: &str,
    address: &Key,
    case_id: u64,
    risk: u8,
    category: Category,
    program_id: &Key,
) -> (r: Option<Instruction>)
    ensures
        match address_slots(*reporter, network_path@, *address, case_id, *program_id) {
            None => r is None,
            Some(m) => r matches Some(i) && i.program_id == *program_id && metas(i.accounts@) == m && i.data
                == (HapiInstruction::CreateAddress { address: *address, case_id, risk, category }),
        },
{
    let accounts = match address_accounts(reporter, network_path, address, case_id, program_id) {
        Some(a) => a,
        None => return None,
    };
    Some(Instruction {
        program_id: *program_id,
        accounts,
        data: HapiInstruction::CreateAddress { address: *address, case_id, risk, category },
    })
}

/// Creates an UpdateAddress instruction rewriting the record on `address` in
/// the network at `network_path` ("community/network").
pub fn update_address(
    reporter: &Key,
    network_path: &str,
    address: &Key,
    case_id: u64,
    risk: u8,
    category: Category,
    program_id: &Key,
) -> (r: Option<Instruction>)
    ensures
        match address_slots(*reporter, network_path@, *address, case_id, *program_id) {
            None => r is None,
            Some(m) => r matches Some(i) && i.program_id == *program_id && metas(i.accounts@) == m && i.data
                == (HapiInstruction::UpdateAddress { address: *address, case_id, risk, category }),
        },
{
    let accounts = match address_accounts(reporter, network_path, address, case_id, program_id) {
        Some(a) => a,
        None => return None,
    };
    Some(Instruction {
        program_id: *program_id,
        accounts,
        data: HapiInstruction::UpdateAddress { address: *address, case_id, risk, category },
    })
}

} // verus!
