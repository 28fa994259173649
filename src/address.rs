use vstd::prelude::*;
use vstd::bytes::{spec_u64_to_le_bytes, u64_to_le_bytes};
use vstd::slice::slice_to_vec;
use vstd::string::StringSliceAdditionalSpecFns;
use vstd::utf8::encode_utf8;
use anchor_lang::prelude::Pubkey;

verus! {

/// A 32-byte account address or signer key.
#[derive(Clone, Copy, Debug, Eq)]
pub struct Address {
    pub bytes: [u8; 32],
}

impl View for Address {
    type V = Seq<u8>;

    open spec fn view(&self) -> Seq<u8> {
        self.bytes@
    }
}

impl PartialEq for Address {
    fn eq(&self, other: &Address) -> (r: bool)
        ensures
            r == (*self == *other),
    {
        broadcast use vstd::array::group_array_axioms;

        let mut i: usize = 0;
        while i < 32
            invariant
                0 <= i <= 32,
                forall|j: int| 0 <= j < i ==> self.bytes[j] == other.bytes[j],
            decreases 32 - i,
        {
            if self.bytes[i] != other.bytes[i] {
                return false;
            }
            i = i + 1;
        }
        assert(self.bytes =~= other.bytes);
        true
    }
}

impl vstd::std_specs::cmp::PartialEqSpecImpl for Address {
    open spec fn obeys_eq_spec() -> bool {
        true
    }

    open spec fn eq_spec(&self, other: &Address) -> bool {
        *self == *other
    }
}

impl Address {
    pub fn new(bytes: [u8; 32]) -> (r: Address)
        ensures
            r.bytes == bytes,
    {
        Address { bytes }
    }
}

/// What `Pubkey::try_find_program_address` yields for these seeds under this
/// program id: the address and its bump seed, or nothing.
pub uninterp spec fn program_address_of(seeds: Seq<Seq<u8>>, program_id: Seq<u8>) -> Option<(Seq<u8>, u8)>;

pub open spec fn seeds_view(seeds: Seq<Vec<u8>>) -> Seq<Seq<u8>> {
    seeds.map_values(|s: Vec<u8>| s@)
}

/// Relies on anchor_lang's `Pubkey::try_find_program_address`: a pure function of
/// the seeds and the program id, which returns the derived address with its
/// bump seed, or `None` where no bump seed gives a valid address (as for 16 or
/// more seeds, or a seed longer than 32 bytes).
#[verifier::external_body]
fn try_find_program_address(seeds: &Vec<Vec<u8>>, program_id: &Address) -> (r: Option<(Address, u8)>)
    ensures
        match r {
            Some((a, bump)) => program_address_of(seeds_view(seeds@), program_id@) == Some((a@, bump)),
            None => program_address_of(seeds_view(seeds@), program_id@) is None,
        },
{
    let slices: Vec<&[u8]> = seeds.iter().map(|s| s.as_slice()).collect();
    let program = Pubkey::new_from_array(program_id.bytes);
    Pubkey::try_find_program_address(&slices, &program).map(|(k, bump)| (Address { bytes: k.to_bytes() }, bump))
}

/// Namespace tags of the program's records.
pub const EPOCH_SEED: &'static str = "epoch";

pub const PROPOSAL_SEED: &'static str = "proposal";

pub const SUPPORT_SEED: &'static str = "support";

pub const CONFIG_SEED: &'static str = "config";

pub const TREASURY_SEED: &'static str = "treasury";

pub const TREASURY_ROLES_SEED: &'static str = "treasury_roles";

pub open spec fn epoch_seeds(epoch_id: u64) -> Seq<Seq<u8>> {
    seq![EPOCH_SEED.spec_bytes(), spec_u64_to_le_bytes(epoch_id)]
}

pub open spec fn proposal_seeds(creator: Address, epoch_id: u64, token_name: Seq<char>) -> Seq<Seq<u8>> {
    seq![PROPOSAL_SEED.spec_bytes(), creator@, spec_u64_to_le_bytes(epoch_id), encode_utf8(token_name)]
}

pub open spec fn support_seeds(epoch_id: u64, user: Address, proposal: Address) -> Seq<Seq<u8>> {
    seq![SUPPORT_SEED.spec_bytes(), spec_u64_to_le_bytes(epoch_id), user@, proposal@]
}

pub open spec fn singleton_seeds(tag: &str) -> Seq<Seq<u8>> {
    seq![tag.spec_bytes()]
}

/// Whether `r` reports faithfully what derivation gives for `seeds`.
pub open spec fn derived_from(r: Option<(Address, u8)>, seeds: Seq<Seq<u8>>, program_id: Address) -> bool {
    match r {
        Some((a, bump)) => program_address_of(seeds, program_id@) == Some((a@, bump)),
        None => program_address_of(seeds, program_id@) is None,
    }
}

fn address_bytes(a: &Address) -> (r: Vec<u8>)
    ensures
        r@ == a@,
{
    slice_to_vec(vstd::array::array_as_slice(&a.bytes))
}

/// The address of the record of epoch `epoch_id`, with its bump seed.
pub fn epoch_address(epoch_id: u64, program_id: &Address) -> (r: Option<(Address, u8)>)
    ensures
        derived_from(r, epoch_seeds(epoch_id), *program_id),
{
    let seeds: Vec<Vec<u8>> = vec![slice_to_vec(EPOCH_SEED.as_bytes()), u64_to_le_bytes(epoch_id)];
    assert(seeds_view(seeds@) =~= epoch_seeds(epoch_id));
    try_find_program_address(&seeds, program_id)
}

/// The address of the proposal named `token_name` that `creator` made in epoch
/// `epoch_id`, with its bump seed.
pub fn proposal_address(creator: &Address, epoch_id: u64, token_name: &String, program_id: &Address) -> (r: Option<(Address, u8)>)
    ensures
        derived_from(r, proposal_seeds(*creator, epoch_id, token_name@), *program_id),
{
    let name: &str = token_name.as_str();
    let seeds: Vec<Vec<u8>> = vec![
        slice_to_vec(PROPOSAL_SEED.as_bytes()),
        address_bytes(creator),
        u64_to_le_bytes(epoch_id),
        slice_to_vec(name.as_bytes()),
    ];
    assert(seeds_view(seeds@) =~= proposal_seeds(*creator, epoch_id, token_name@));
    try_find_program_address(&seeds, program_id)
}

/// The address of `user`'s support record for `proposal` in epoch `epoch_id`,
/// with its bump seed.
pub fn support_address(epoch_id: u64, user: &Address, proposal: &Address, program_id: &Address) -> (r: Option<(Address, u8)>)
    ensures
        derived_from(r, support_seeds(epoch_id, *user, *proposal), *program_id),
{
    let seeds: Vec<Vec<u8>> = vec![
        slice_to_vec(SUPPORT_SEED.as_bytes()),
        u64_to_le_bytes(epoch_id),
        address_bytes(user),
        address_bytes(proposal),
    ];
    assert(seeds_view(seeds@) =~= support_seeds(epoch_id, *user, *proposal));
    try_find_program_address(&seeds, program_id)
}

fn singleton_address(tag: &str, program_id: &Address) -> (r: Option<(Address, u8)>)
    ensures
        derived_from(r, singleton_seeds(tag), *program_id),
{
    let seeds: Vec<Vec<u8>> = vec![slice_to_vec(tag.as_bytes())];
    assert(seeds_view(seeds@) =~= singleton_seeds(tag));
    try_find_program_address(&seeds, program_id)
}

/// The address of the program's configuration record.
pub fn config_address(program_id: &Address) -> (r: Option<(Address, u8)>)
    ensures
        derived_from(r, singleton_seeds(CONFIG_SEED), *program_id),
{
    singleton_address(CONFIG_SEED, program_id)
}

/// The address of the treasury record.
pub fn treasury_address(program_id: &Address) -> (r: Option<(Address, u8)>)
    ensures
        derived_from(r, singleton_seeds(TREASURY_SEED), *program_id),
{
    singleton_address(TREASURY_SEED, program_id)
}

/// The address of the treasury role registry.
pub fn treasury_roles_address(program_id: &Address) -> (r: Option<(Address, u8)>)
    ensures
        derived_from(r, singleton_seeds(TREASURY_ROLES_SEED), *program_id),
{
    singleton_address(TREASURY_ROLES_SEED, program_id)
}

} // verus!
