//! Derived slot addresses: every entity's storage location is computed from a
//! domain tag and its parent identifiers, never looked up.
use crate::key::Key;
use solana_program::pubkey::Pubkey;
use vstd::prelude::*;
use vstd::slice::slice_to_vec;
use vstd::utf8::encode_utf8;

verus! {

/// The program address and bump seed that the host ledger derives from a
/// list of seeds and a program id; `None` where no address can be derived.
pub uninterp spec fn program_address_of(seeds: Seq<Seq<u8>>, program_id: Seq<u8>) -> Option<(Seq<u8>, u8)>;

/// Relies on `solana_program::pubkey::Pubkey::try_find_program_address`: the
/// address and bump seed it finds depend on the seeds and the program id alone.
#[verifier::external_body]
fn try_find_program_address(seeds: &Vec<Vec<u8>>, program_id: &Key) -> (r: Option<(Key, u8)>)
    ensures
        r matches Some(p) ==> program_address_of(bytes_of(seeds@), program_id.bytes@) == Some(
            (p.0.bytes@, p.1),
        ),
        r is None ==> program_address_of(bytes_of(seeds@), program_id.bytes@) is None,
{
    let refs: Vec<&[u8]> = seeds.iter().map(|s| s.as_slice()).collect();
    let program = Pubkey::new_from_array(program_id.bytes);
    match Pubkey::try_find_program_address(&refs, &program) {
        Some((address, bump)) => Some((Key { bytes: address.to_bytes() }, bump)),
        None => None,
    }
}

/// The byte sequences held by a list of byte vectors.
pub open spec fn bytes_of(v: Seq<Vec<u8>>) -> Seq<Seq<u8>> {
    v.map_values(|p: Vec<u8>| p@)
}

/// The seeds of a derivation: the domain tag followed by the parts.
pub open spec fn seeds_of(tag: Seq<u8>, parts: Seq<Seq<u8>>) -> Seq<Seq<u8>> {
    seq![tag].add(parts)
}

/// The address that `(tag, parts)` derives under `program_id`.
pub open spec fn derived(tag: Seq<u8>, parts: Seq<Seq<u8>>, program_id: Key) -> Option<Seq<u8>> {
    match program_address_of(seeds_of(tag, parts), program_id.bytes@) {
        Some(p) => Some(p.0),
        None => None,
    }
}

/// Whether `r` is what deriving `(tag, parts)` under `program_id` gives.
pub open spec fn is_derivation(tag: Seq<u8>, parts: Seq<Seq<u8>>, program_id: Key, r: Option<(Key, u8)>) -> bool {
    program_address_of(seeds_of(tag, parts), program_id.bytes@) == match r {
        Some(p) => Some((p.0.bytes@, p.1)),
        None => None,
    }
}

/// Derives the storage location of `(tag, parts)` and the nonce that proves
/// it was derived; `None` where the host ledger derives none.
pub fn derive(tag: &[u8], parts: &Vec<Vec<u8>>, program_id: &Key) -> (r: Option<(Key, u8)>)
    ensures
        is_derivation(tag@, bytes_of(parts@), *program_id, r),
{
    let mut seeds: Vec<Vec<u8>> = Vec::new();
    seeds.push(slice_to_vec(tag));
    let mut i: usize = 0;
    while i < parts.len()
        invariant
            i <= parts.len(),
            bytes_of(seeds@) == seeds_of(tag@, bytes_of(parts@).subrange(0, i as int)),
        decreases parts.len() - i,
    {
        let part = slice_to_vec(parts[i].as_slice());
        let ghost before = seeds@;
        seeds.push(part);
        proof {
            assert(bytes_of(seeds@) =~= bytes_of(before).push(parts[i as int]@));
            assert(bytes_of(parts@).subrange(0, i + 1) =~= bytes_of(parts@).subrange(0, i as int).push(parts[i as int]@));
            assert(bytes_of(seeds@) =~= seeds_of(tag@, bytes_of(parts@).subrange(0, i + 1)));
        }
        i = i + 1;
    }
    assert(bytes_of(parts@).subrange(0, parts.len() as int) =~= bytes_of(parts@));
    try_find_program_address(&seeds, program_id)
}

/// Derives the storage location of a full seed list (tag first), without
/// the nonce.
fn derive_key(seeds: Vec<Vec<u8>>, program_id: &Key) -> (r: Option<Key>)
    ensures
        program_address_of(bytes_of(seeds@), program_id.bytes@) matches Some(p) ==> r matches Some(k)
            && k.bytes@ == p.0,
        program_address_of(bytes_of(seeds@), program_id.bytes@) is None ==> r is None,
{
    match try_find_program_address(&seeds, program_id) {
        Some(p) => Some(p.0),
        None => None,
    }
}

/// A seed list holding the tag alone.
fn tag_seed(tag: &[u8]) -> (r: Vec<Vec<u8>>)
    ensures
        bytes_of(r@) == seq![tag@],
{
    let mut seeds: Vec<Vec<u8>> = Vec::new();
    seeds.push(slice_to_vec(tag));
    assert(bytes_of(seeds@) =~= seq![tag@]);
    seeds
}

/// Domain tag of community slots.
pub open spec fn community_tag() -> Seq<u8> {
    encode_utf8("community"@)
}

/// Domain tag of network slots.
pub open spec fn network_tag() -> Seq<u8> {
    encode_utf8("network"@)
}

/// Domain tag of reporter slots.
pub open spec fn reporter_tag() -> Seq<u8> {
    encode_utf8("reporter"@)
}

/// Domain tag of case slots.
pub open spec fn case_tag() -> Seq<u8> {
    encode_utf8("case"@)
}

/// Domain tag of address-record slots.
pub open spec fn address_tag() -> Seq<u8> {
    encode_utf8("address"@)
}

/// The little-endian bytes of a case id.
pub open spec fn le_bytes(n: u64) -> Seq<u8> {
    Seq::new(8, |i: int| ((n as int / pow256(i)) % 256) as u8)
}

/// 256 to the power `i`.
pub open spec fn pow256(i: int) -> int
    decreases i,
{
    if i <= 0 {
        1
    } else {
        256 * pow256(i - 1)
    }
}

/// A community is keyed by its name.
pub open spec fn community_parts(name: Seq<char>) -> Seq<Seq<u8>> {
    seq![encode_utf8(name)]
}

/// A network is keyed by its community and its name.
pub open spec fn network_parts(community: Seq<u8>, name: Seq<char>) -> Seq<Seq<u8>> {
    seq![community, encode_utf8(name)]
}

/// A reporter is keyed by its community and its public key.
pub open spec fn reporter_parts(community: Seq<u8>, reporter: Seq<u8>) -> Seq<Seq<u8>> {
    seq![community, reporter]
}

/// A case is keyed by its community and its id.
pub open spec fn case_parts(community: Seq<u8>, case_id: u64) -> Seq<Seq<u8>> {
    seq![community, le_bytes(case_id)]
}

/// An address record is keyed by its network and the address it annotates.
pub open spec fn address_parts(network: Seq<u8>, address: Seq<u8>) -> Seq<Seq<u8>> {
    seq![network, address]
}

/// The little-endian bytes of a case id.
pub fn case_id_le_bytes(n: u64) -> (r: Vec<u8>)
    ensures
        r@ == le_bytes(n),
{
    let mut v: Vec<u8> = Vec::new();
    let mut rest: u64 = n;
    let mut i: usize = 0;
    while i < 8
        invariant
            i <= 8,
            rest as int == n as int / pow256(i as int),
            v@ == le_bytes(n).subrange(0, i as int),
            pow256(i as int) > 0,
        decreases 8 - i,
    {
        let b = (rest % 256) as u8;
        proof {
            let p = pow256(i as int);
            assert(pow256(i + 1) == 256 * p);
            assert((n as int / p) / 256 == n as int / (p * 256)) by (nonlinear_arith)
                requires p > 0;
        }
        v.push(b);
        rest = rest / 256;
        proof {
            assert(v@ =~= le_bytes(n).subrange(0, i + 1));
        }
        i = i + 1;
    }
    assert(le_bytes(n).subrange(0, 8) =~= le_bytes(n));
    v
}

/// Returns the seeds of a community slot: the tag, then the name.
pub fn get_community_address_seeds(name: &str) -> (r: Vec<Vec<u8>>)
    ensures
        bytes_of(r@) == seeds_of(community_tag(), community_parts(name@)),
{
    let mut seeds = tag_seed("community".as_bytes());
    seeds.push(slice_to_vec(name.as_bytes()));
    assert(bytes_of(seeds@) =~= seeds_of(community_tag(), community_parts(name@)));
    seeds
}

/// Returns the seeds of a network slot: the tag, the community, the name.
pub fn get_network_address_seeds(community: &Key, name: &str) -> (r: Vec<Vec<u8>>)
    ensures
        bytes_of(r@) == seeds_of(network_tag(), network_parts(community.bytes@, name@)),
{
    let mut seeds = tag_seed("network".as_bytes());
    seeds.push(community.to_vec());
    seeds.push(slice_to_vec(name.as_bytes()));
    assert(bytes_of(seeds@) =~= seeds_of(network_tag(), network_parts(community.bytes@, name@)));
    seeds
}

/// Returns the seeds of a reporter slot: the tag, the community, the
/// reporter's key.
pub fn get_reporter_address_seeds(community: &Key, reporter: &Key) -> (r: Vec<Vec<u8>>)
    ensures
        bytes_of(r@) == seeds_of(reporter_tag(), reporter_parts(community.bytes@, reporter.bytes@)),
{
    let mut seeds = tag_seed("reporter".as_bytes());
    seeds.push(community.to_vec());
    seeds.push(reporter.to_vec());
    assert(bytes_of(seeds@) =~= seeds_of(reporter_tag(), reporter_parts(community.bytes@, reporter.bytes@)));
    seeds
}

/// Returns the seeds of a case slot: the tag, the community, the case id's
/// little-endian bytes.
pub fn get_case_address_seeds(community: &Key, case_id: u64) -> (r: Vec<Vec<u8>>)
    ensures
        bytes_of(r@) == seeds_of(case_tag(), case_parts(community.bytes@, case_id)),
{
    let mut seeds = tag_seed("case".as_bytes());
    seeds.push(community.to_vec());
    seeds.push(case_id_le_bytes(case_id));
    assert(bytes_of(seeds@) =~= seeds_of(case_tag(), case_parts(community.bytes@, case_id)));
    seeds
}

/// Returns the seeds of an address-record slot: the tag, the network, the
/// annotated address.
pub fn get_address_address_seeds(network: &Key, address: &Key) -> (r: Vec<Vec<u8>>)
    ensures
        bytes_of(r@) == seeds_of(address_tag(), address_parts(network.bytes@, address.bytes@)),
{
    let mut seeds = tag_seed("address".as_bytes());
    seeds.push(network.to_vec());
    seeds.push(address.to_vec());
    assert(bytes_of(seeds@) =~= seeds_of(address_tag(), address_parts(network.bytes@, address.bytes@)));
    seeds
}

/// The slot of the community named `name`.
pub fn get_community_address(name: &str, program_id: &Key) -> (r: Option<Key>)
    ensures
        derived(community_tag(), community_parts(name@), *program_id) == match r {
            Some(k) => Some(k.bytes@),
            None => None,
        },
{
    derive_key(get_community_address_seeds(name), program_id)
}

/// The slot of the network named `name` in `community`.
pub fn get_network_address(community: &Key, name: &str, program_id: &Key) -> (r: Option<Key>)
    ensures
        derived(network_tag(), network_parts(community.bytes@, name@), *program_id) == match r {
            Some(k) => Some(k.bytes@),
            None => None,
        },
{
    derive_key(get_network_address_seeds(community, name), program_id)
}

/// The slot of the reporter with public key `reporter` in `community`.
pub fn get_reporter_address(community: &Key, reporter: &Key, program_id: &Key) -> (r: Option<Key>)
    ensures
        derived(reporter_tag(), reporter_parts(community.bytes@, reporter.bytes@), *program_id) == match r {
            Some(k) => Some(k.bytes@),
            None => None,
        },
{
    derive_key(get_reporter_address_seeds(community, reporter), program_id)
}

/// The slot of case `case_id` in `community`.
pub fn get_case_address(community: &Key, case_id: u64, program_id: &Key) -> (r: Option<Key>)
    ensures
        derived(case_tag(), case_parts(community.bytes@, case_id), *program_id) == match r {
            Some(k) => Some(k.bytes@),
            None => None,
        },
{
    derive_key(get_case_address_seeds(community, case_id), program_id)
}

/// The slot of the record on `address` in `network`.
pub fn get_address_address(network: &Key, address: &Key, program_id: &Key) -> (r: Option<Key>)
    ensures
        derived(address_tag(), address_parts(network.bytes@, address.bytes@), *program_id) == match r {
            Some(k) => Some(k.bytes@),
            None => None,
        },
{
    derive_key(get_address_address_seeds(network, address), program_id)
}

} // verus!
