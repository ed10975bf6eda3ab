//! Properties of the registry that span several calls or all inputs.
use crate::capability::{denial, permission, permits, Operation};
use crate::enums::{valid_category_set, ReporterType};
use crate::error::HapiError;
use crate::key::Key;
use crate::pda::is_derivation;
use crate::pda::{
    address_parts, address_tag, community_parts, community_tag, network_parts, network_tag,
    reporter_parts, reporter_tag,
};
use crate::processor::{
    address_check, at_derived, authority_check, community_of, create_address_outcome, create_case_outcome, create_community_outcome,
    create_network_outcome, create_reporter_outcome, outcome, reporter_check, reporter_of,
    update_address_outcome, update_case_outcome, update_community_outcome, update_reporter_outcome,
    HapiInstruction,
};
use crate::enums::{CaseStatus, Category, CategorySet, HapiAccountType};
use crate::slot::Slot;
use crate::state::{name_len, MAX_NAME_LEN};
use vstd::prelude::*;

verus! {

broadcast use vstd::array::group_array_axioms;

/// Deriving is deterministic: two derivations of the same tag and parts
/// under the same program give the same address and nonce.
pub proof fn lemma_derivation_deterministic(
    tag: Seq<u8>,
    parts: Seq<Seq<u8>>,
    program_id: Key,
    first: Option<(Key, u8)>,
    second: Option<(Key, u8)>,
)
    requires
        is_derivation(tag, parts, program_id, first),
        is_derivation(tag, parts, program_id, second),
    ensures
        first == second,
{
    if first is Some && second is Some {
        let (a, x) = first->Some_0;
        let (b, y) = second->Some_0;
        assert(a.bytes@ == b.bytes@);
        assert(a.bytes =~= b.bytes);
    }
}

/// Creating a community twice under the same name: the second attempt fails
/// with `AlreadyInUse`.
pub proof fn lemma_create_community_exclusive(program_id: Key, s: Seq<Slot>, t: Seq<Slot>, name: String, m1: u64, m2: u64)
    requires
        create_community_outcome(program_id, s, name, m1) == Ok::<Seq<Slot>, HapiError>(t),
    ensures
        create_community_outcome(program_id, t, name, m2) == Err::<Seq<Slot>, HapiError>(HapiError::AlreadyInUse),
{
}

/// Creating a network twice under the same name in the same community: the
/// second attempt fails with `AlreadyInUse`.
pub proof fn lemma_create_network_exclusive(program_id: Key, s: Seq<Slot>, t: Seq<Slot>, name: String, m1: u64, m2: u64)
    requires
        create_network_outcome(program_id, s, name, m1) == Ok::<Seq<Slot>, HapiError>(t),
    ensures
        create_network_outcome(program_id, t, name, m2) == Err::<Seq<Slot>, HapiError>(HapiError::AlreadyInUse),
{
}

/// Registering the same reporter key twice in a community: the second
/// attempt fails with `AlreadyInUse`, whatever level or name it asks for.
pub proof fn lemma_create_reporter_exclusive(
    program_id: Key,
    s: Seq<Slot>,
    t: Seq<Slot>,
    l1: ReporterType,
    n1: String,
    m1: u64,
    l2: ReporterType,
    n2: String,
    m2: u64,
)
    requires
        create_reporter_outcome(program_id, s, l1, n1, m1) == Ok::<Seq<Slot>, HapiError>(t),
        name_len(n2) <= MAX_NAME_LEN,
    ensures
        create_reporter_outcome(program_id, t, l2, n2, m2) == Err::<Seq<Slot>, HapiError>(HapiError::AlreadyInUse),
{
}

/// Filing a second record on the same address in the same network: it fails
/// with `AlreadyInUse`, whatever case, risk or category it names.
pub proof fn lemma_create_address_exclusive(
    program_id: Key,
    s: Seq<Slot>,
    t: Seq<Slot>,
    address: Key,
    case_id: u64,
    r1: u8,
    c1: Category,
    m1: u64,
    r2: u8,
    c2: Category,
    m2: u64,
)
    requires
        create_address_outcome(program_id, s, address, case_id, r1, c1, m1) == Ok::<Seq<Slot>, HapiError>(t),
        r2 <= 10,
    ensures
        create_address_outcome(program_id, t, address, case_id, r2, c2, m2) == Err::<Seq<Slot>, HapiError>(
            HapiError::AlreadyInUse,
        ),
{
}

/// Any create instruction whose target slot already holds a record fails.
pub proof fn lemma_create_on_occupied_fails(program_id: Key, s: Seq<Slot>, instruction: HapiInstruction, minimum: u64)
    requires
        match instruction {
            HapiInstruction::CreateCommunity { .. } => s.len() > 1 && !(s[1].data is Empty),
            HapiInstruction::CreateNetwork { .. } => s.len() > 2 && !(s[2].data is Empty),
            HapiInstruction::CreateReporter { .. } => s.len() > 3 && !(s[3].data is Empty),
            HapiInstruction::CreateCase { .. } => s.len() > 3 && !(s[3].data is Empty),
            HapiInstruction::CreateAddress { .. } => s.len() > 5 && !(s[5].data is Empty),
            _ => false,
        },
    ensures
        outcome(program_id, s, instruction, minimum) is Err,
{
}

/// A create instruction whose target slot already holds a record, and which
/// passes every check that comes before allocation, fails with
/// `AlreadyInUse`; `process` then leaves every slot as it was. (CreateCase
/// checks the counter first: see `lemma_case_id_race`.)
pub proof fn lemma_create_on_occupied_in_use(program_id: Key, s: Seq<Slot>, instruction: HapiInstruction, minimum: u64)
    requires
        match instruction {
            HapiInstruction::CreateCommunity { name } => {
                &&& s.len() >= 2
                &&& name_len(name) <= MAX_NAME_LEN
                &&& s[0].is_signer
                &&& at_derived(s[1].key, community_tag(), community_parts(name@), program_id)
                &&& !(s[1].data is Empty)
            },
            HapiInstruction::CreateNetwork { name } => {
                &&& s.len() >= 3
                &&& name_len(name) <= MAX_NAME_LEN
                &&& authority_check(program_id, s) is Ok
                &&& at_derived(s[2].key, network_tag(), network_parts(s[1].key.bytes@, name@), program_id)
                &&& !(s[2].data is Empty)
            },
            HapiInstruction::CreateReporter { name, .. } => {
                &&& s.len() >= 4
                &&& name_len(name) <= MAX_NAME_LEN
                &&& authority_check(program_id, s) is Ok
                &&& at_derived(s[3].key, reporter_tag(), reporter_parts(s[1].key.bytes@, s[2].key.bytes@), program_id)
                &&& !(s[3].data is Empty)
            },
            HapiInstruction::CreateAddress { address, case_id, risk, .. } => {
                &&& s.len() >= 6
                &&& address_check(program_id, s, case_id, risk) is Ok
                &&& at_derived(s[5].key, address_tag(), address_parts(s[2].key.bytes@, address.bytes@), program_id)
                &&& !(s[5].data is Empty)
            },
            _ => false,
        },
    ensures
        outcome(program_id, s, instruction, minimum) == Err::<Seq<Slot>, HapiError>(HapiError::AlreadyInUse),
{
}

/// An update fails, before it changes anything, when its target slot is
/// empty or holds another kind of record.
pub proof fn lemma_update_requires_existence(program_id: Key, s: Seq<Slot>, instruction: HapiInstruction, minimum: u64)
    requires
        match instruction {
            HapiInstruction::UpdateCommunity { .. } => s.len() > 1 && s[1].data.spec_account_type()
                != HapiAccountType::Community,
            HapiInstruction::UpdateReporter { .. } => s.len() > 3 && s[3].data.spec_account_type()
                != HapiAccountType::Reporter,
            HapiInstruction::UpdateCase { .. } => s.len() > 3 && s[3].data.spec_account_type()
                != HapiAccountType::Case,
            HapiInstruction::UpdateAddress { .. } => s.len() > 5 && s[5].data.spec_account_type()
                != HapiAccountType::Address,
            _ => false,
        },
    ensures
        outcome(program_id, s, instruction, minimum) is Err,
{
}

/// A successful CreateCase takes the community's counter as the case id and
/// moves the counter on by exactly one.
pub proof fn lemma_create_case_counts(
    program_id: Key,
    s: Seq<Slot>,
    t: Seq<Slot>,
    case_id: u64,
    name: String,
    categories: CategorySet,
    status: CaseStatus,
    minimum: u64,
)
    requires
        create_case_outcome(program_id, s, case_id, name, categories, status, minimum) == Ok::<Seq<Slot>, HapiError>(t),
    ensures
        case_id == community_of(s[1]).next_case_id,
        t[1].data is Community,
        community_of(t[1]).next_case_id == case_id + 1,
        community_of(t[1]).authority == community_of(s[1]).authority,
        t[1].key == s[1].key,
{
}

/// After `n` successful CreateCase instructions against one community whose
/// counter started at zero, the counter is `n` and the cases got the ids
/// `0, 1, ..., n - 1`, in order, with no gap and no repeat. `accounts[k]` are
/// the slots of the `k`-th instruction and `results[k]` what it left; each
/// instruction sees the community as the one before left it.
pub proof fn lemma_counter_monotonic(
    program_id: Key,
    accounts: Seq<Seq<Slot>>,
    results: Seq<Seq<Slot>>,
    instructions: Seq<HapiInstruction>,
    minimums: Seq<u64>,
)
    requires
        accounts.len() > 0,
        accounts.len() == results.len(),
        accounts.len() == instructions.len(),
        accounts.len() == minimums.len(),
        accounts[0].len() > 1,
        accounts[0][1].data is Community,
        community_of(accounts[0][1]).next_case_id == 0,
        forall|k: int| 0 <= k < accounts.len() ==> (#[trigger] instructions[k]) is CreateCase,
        forall|k: int|
            0 <= k < accounts.len() ==> outcome(program_id, #[trigger] accounts[k], instructions[k], minimums[k])
                == Ok::<Seq<Slot>, HapiError>(results[k]),
        forall|k: int| 0 < k < accounts.len() ==> (#[trigger] accounts[k])[1] == results[k - 1][1],
    ensures
        community_of(results[results.len() - 1][1]).next_case_id == results.len(),
        forall|k: int| 0 <= k < instructions.len() ==> (#[trigger] instructions[k])->CreateCase_case_id == k,
    decreases accounts.len(),
{
    let n = accounts.len();
    let last = n - 1;
    if n > 1 {
        lemma_counter_monotonic(
            program_id,
            accounts.take(last),
            results.take(last),
            instructions.take(last),
            minimums.take(last),
        );
        assert(outcome(program_id, accounts[last - 1], instructions[last - 1], minimums[last - 1]) == Ok::<
            Seq<Slot>,
            HapiError,
        >(results[last - 1]));
    }
    match instructions[last] {
        HapiInstruction::CreateCase { case_id, name, categories, status } => {
            assert(outcome(program_id, accounts[last], instructions[last], minimums[last]) == Ok::<
                Seq<Slot>,
                HapiError,
            >(results[last]));
            lemma_create_case_counts(program_id, accounts[last], results[last], case_id, name, categories, status, minimums[last]);
            if n > 1 {
                assert(accounts[last][1] == results[last - 1][1]);
            }
        },
        _ => {},
    }
    assert forall|k: int| 0 <= k < instructions.len() implies (#[trigger] instructions[k])->CreateCase_case_id == k by {
        if k < last {
            assert(instructions.take(last)[k] == instructions[k]);
        }
    }
}

/// Two CreateCase instructions naming the same case id against one
/// community: once the first has succeeded and moved the counter on by one,
/// the second, from any registered reporter of the community whose level
/// may create cases, fails with `CaseIDMismatch` and leaves the counter where
/// the first put it.
pub proof fn lemma_case_id_race(
    program_id: Key,
    s: Seq<Slot>,
    t: Seq<Slot>,
    u: Seq<Slot>,
    case_id: u64,
    n1: String,
    c1: CategorySet,
    st1: CaseStatus,
    m1: u64,
    n2: String,
    c2: CategorySet,
    st2: CaseStatus,
    m2: u64,
)
    requires
        create_case_outcome(program_id, s, case_id, n1, c1, st1, m1) == Ok::<Seq<Slot>, HapiError>(t),
        u.len() >= 4,
        u[1] == t[1],
        reporter_check(program_id, u, 2) is Ok,
        permits(reporter_of(u[2]).reporter_type, Operation::CreateCase, false),
        name_len(n2) <= MAX_NAME_LEN,
        valid_category_set(c2),
    ensures
        community_of(t[1]).next_case_id == case_id + 1,
        create_case_outcome(program_id, u, case_id, n2, c2, st2, m2) == Err::<Seq<Slot>, HapiError>(
            HapiError::CaseIDMismatch,
        ),
{
    lemma_create_case_counts(program_id, s, t, case_id, n1, c1, st1, m1);
}

/// The rule table, cell by cell.
pub proof fn lemma_capability_table(c: bool)
    ensures
        !permits(ReporterType::Inactive, Operation::ReportAddress, c),
        !permits(ReporterType::Inactive, Operation::UpdateAddress, c),
        !permits(ReporterType::Inactive, Operation::CreateCase, c),
        !permits(ReporterType::Inactive, Operation::UpdateCase, c),
        permits(ReporterType::Tracer, Operation::ReportAddress, c),
        permits(ReporterType::Tracer, Operation::UpdateAddress, c),
        !permits(ReporterType::Tracer, Operation::CreateCase, c),
        !permits(ReporterType::Tracer, Operation::UpdateCase, c),
        permits(ReporterType::Full, Operation::ReportAddress, c),
        permits(ReporterType::Full, Operation::UpdateAddress, c),
        permits(ReporterType::Full, Operation::CreateCase, c),
        permits(ReporterType::Full, Operation::UpdateCase, c) == c,
        permits(ReporterType::Authority, Operation::ReportAddress, c),
        permits(ReporterType::Authority, Operation::UpdateAddress, c),
        permits(ReporterType::Authority, Operation::CreateCase, c),
        permits(ReporterType::Authority, Operation::UpdateCase, c),
{
}

/// CreateCase from a registered reporter below `Full` fails with
/// `InvalidReporterPermissions` and creates nothing.
pub proof fn lemma_create_case_needs_full(
    program_id: Key,
    s: Seq<Slot>,
    case_id: u64,
    name: String,
    categories: CategorySet,
    status: CaseStatus,
    minimum: u64,
)
    requires
        s.len() >= 4,
        name_len(name) <= MAX_NAME_LEN,
        valid_category_set(categories),
        reporter_check(program_id, s, 2) is Ok,
        !permits(reporter_of(s[2]).reporter_type, Operation::CreateCase, false),
    ensures
        create_case_outcome(program_id, s, case_id, name, categories, status, minimum) == Err::<Seq<Slot>, HapiError>(
            HapiError::InvalidReporterPermissions,
        ),
{
}

/// UpdateCase on an existing case of the community, from a registered
/// reporter, succeeds as far as the rule table goes exactly when the table
/// permits it: `Authority` always, `Full` only as the case's creator; a
/// denial fails with `InvalidReporterPermissions`.
pub proof fn lemma_update_case_capability(
    program_id: Key,
    s: Seq<Slot>,
    case_id: u64,
    categories: CategorySet,
    status: CaseStatus,
)
    requires
        s.len() >= 4,
        valid_category_set(categories),
        reporter_check(program_id, s, 2) is Ok,
        s[3].owner == program_id,
        s[3].data is Case,
        crate::processor::at_derived(s[3].key, crate::pda::case_tag(), crate::pda::case_parts(s[1].key.bytes@, case_id), program_id),
    ensures
        !permits(reporter_of(s[2]).reporter_type, Operation::UpdateCase, s[0].key == s[3].data->Case_0.reporter_key)
            ==> update_case_outcome(program_id, s, case_id, categories, status) == Err::<Seq<Slot>, HapiError>(
            HapiError::InvalidReporterPermissions,
        ),
        permits(reporter_of(s[2]).reporter_type, Operation::UpdateCase, s[0].key == s[3].data->Case_0.reporter_key)
            ==> update_case_outcome(program_id, s, case_id, categories, status) != Err::<Seq<Slot>, HapiError>(
            HapiError::InvalidReporterPermissions,
        ),
{
}

/// Address records from an `Inactive` reporter are refused with
/// `ReportingNotPermitted`, for creation and update alike.
pub proof fn lemma_inactive_cannot_report(
    program_id: Key,
    s: Seq<Slot>,
    address: Key,
    case_id: u64,
    risk: u8,
    category: Category,
    minimum: u64,
)
    requires
        s.len() >= 6,
        risk <= 10,
        reporter_check(program_id, s, 3) is Ok,
        reporter_of(s[3]).reporter_type == ReporterType::Inactive,
    ensures
        create_address_outcome(program_id, s, address, case_id, risk, category, minimum) == Err::<
            Seq<Slot>,
            HapiError,
        >(HapiError::ReportingNotPermitted),
        update_address_outcome(program_id, s, address, case_id, risk, category) == Err::<Seq<Slot>, HapiError>(
            HapiError::ReportingNotPermitted,
        ),
{
}

} // verus!
