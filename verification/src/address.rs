//! Addresses, and how the address of a record is derived from its seeds.

use anchor_lang::prelude::Pubkey;
use vstd::prelude::*;
use vstd::slice::slice_to_vec;
use vstd::string::StringSliceAdditionalSpecFns;

verus! {

/// An account address or an identity: 32 bytes.
#[derive(Clone, Copy, Debug, PartialEq, Eq, Hash)]
pub struct Address {
    pub bytes: [u8; 32],
}

impl View for Address {
    type V = Seq<u8>;

    open spec fn view(&self) -> Seq<u8> {
        self.bytes@
    }
}

/// Two addresses with the same bytes are the same address.
pub proof fn lemma_address_by_bytes(a: Address, b: Address)
    ensures
        (a@ == b@) <==> (a == b),
{
    if a@ == b@ {
        assert(a.bytes =~= b.bytes);
    }
}

impl Address {
    /// Whether the two addresses are equal.
    pub fn same(&self, other: &Address) -> (equal: bool)
        ensures
            equal == (*self == *other),
    {
        let mut i: usize = 0;
        while i < 32
            invariant
                i <= 32,
                forall|j: int| 0 <= j < i ==> self.bytes[j] == other.bytes[j],
            decreases 32 - i,
        {
            if self.bytes[i] != other.bytes[i] {
                return false;
            }
            i += 1;
        }
        proof {
            assert(self.bytes =~= other.bytes);
        }
        true
    }
}

/// The tag under which the treasury's configuration is kept.
pub const TREASURY_CONFIG_TAG: &'static str = "treasury_config";

/// The tag of the voting token's mint.
pub const X_MINT_TAG: &'static str = "x_mint";

/// The tag under which the proposal counter is kept.
pub const PROPOSAL_COUNTER_TAG: &'static str = "proposal_counter";

/// The tag of the vault that receives the native currency.
pub const SOL_VAULT_TAG: &'static str = "sol_vault";

/// The tag of the account that may mint the voting token.
pub const MINT_AUTHORITY_TAG: &'static str = "mint_authority";

/// The tag under which the winner is kept.
pub const WINNER_TAG: &'static str = "winner";

/// The tag of a voter's record; the voter's identity follows it.
pub const VOTER_TAG: &'static str = "voter";

/// The tag of a proposal's record; the proposal's id follows it.
pub const PROPOSAL_TAG: &'static str = "proposal";

/// The seeds of a singleton: its tag alone.
pub open spec fn singleton_seeds(tag: &str) -> Seq<Seq<u8>> {
    seq![tag.spec_bytes()]
}

/// The seeds of an identity's voter record: the tag, then the identity's bytes.
pub open spec fn voter_seeds(identity: Address) -> Seq<Seq<u8>> {
    seq![VOTER_TAG.spec_bytes(), identity@]
}

/// The seeds of a proposal's record: the tag, then the id as one byte.
pub open spec fn proposal_seeds(proposal_id: u8) -> Seq<Seq<u8>> {
    seq![PROPOSAL_TAG.spec_bytes(), seq![proposal_id]]
}

/// What the address search answers for a list of seeds and a program's bytes: the
/// address found, as its bytes, and the nonce that gave it, or nothing where no
/// nonce gives a valid address. The search finds none for more than 15 seeds
/// or a seed of more than 32 bytes, and otherwise next to always one.
pub uninterp spec fn program_address(seeds: Seq<Seq<u8>>, program: Seq<u8>) -> Option<(Seq<u8>, u8)>;

/// The seeds as sequences of bytes.
pub open spec fn seed_views(seeds: Seq<Vec<u8>>) -> Seq<Seq<u8>> {
    Seq::new(seeds.len(), |i: int| seeds[i]@)
}

/// The address whose bytes are `bytes`.
pub open spec fn address_of_bytes(bytes: Seq<u8>) -> Address {
    choose|a: Address| a@ == bytes
}

/// The address derived from the seeds under the program, with its nonce.
pub open spec fn derived(seeds: Seq<Seq<u8>>, program: Address) -> Option<(Address, u8)> {
    match program_address(seeds, program@) {
        Some((bytes, nonce)) => Some((address_of_bytes(bytes), nonce)),
        None => None,
    }
}

/// Where the voter record of an identity is kept, where that can be derived.
pub open spec fn voter_address(identity: Address, program: Address) -> Option<Address> {
    match derived(voter_seeds(identity), program) {
        Some((address, _)) => Some(address),
        None => None,
    }
}

/// Where the proposal with the given id is kept, where that can be derived.
pub open spec fn proposal_address(proposal_id: u8, program: Address) -> Option<Address> {
    match derived(proposal_seeds(proposal_id), program) {
        Some((address, _)) => Some(address),
        None => None,
    }
}

/// Calls `Pubkey::try_find_program_address` of `anchor_lang` (the key type of
/// `solana_pubkey`) on the seeds and the program's key. The contract claims
/// that the answer is a function of the seeds' bytes and the program's bytes
/// alone, which it names `program_address`, and nothing else. The search
/// hashes the seeds, a nonce and the program's key, counting the nonce down
/// from 255, and answers with the first hash that is no point of the curve;
/// it reads no state and does not panic.
#[verifier::external_body]
fn find_program_address(seeds: &Vec<Vec<u8>>, program: &Address) -> (found: Option<(Address, u8)>)
    ensures
        match found {
            Some((address, nonce)) => program_address(seed_views(seeds@), program@) == Some(
                (address@, nonce),
            ),
            None => program_address(seed_views(seeds@), program@).is_none(),
        },
{
    let parts: Vec<&[u8]> = seeds.iter().map(|seed| seed.as_slice()).collect();
    let key = Pubkey::new_from_array(program.bytes);
    match Pubkey::try_find_program_address(&parts, &key) {
        Some((address, nonce)) => Some((Address { bytes: address.to_bytes() }, nonce)),
        None => None,
    }
}

/// Derives the address for the seeds, under the program.
pub fn derive_address(seeds: &Vec<Vec<u8>>, program: &Address) -> (found: Option<(Address, u8)>)
    ensures
        found == derived(seed_views(seeds@), *program),
{
    let found = find_program_address(seeds, program);
    proof {
        match found {
            Some((address, nonce)) => {
                lemma_address_by_bytes(address, address_of_bytes(address@));
            },
            None => {},
        }
    }
    found
}

/// Derives the address of the singleton with the given tag.
pub fn derive_singleton(tag: &str, program: &Address) -> (found: Option<(Address, u8)>)
    ensures
        found == derived(singleton_seeds(tag), *program),
{
    let mut seeds: Vec<Vec<u8>> = Vec::new();
    seeds.push(slice_to_vec(tag.as_bytes()));
    proof {
        assert(seed_views(seeds@) =~= singleton_seeds(tag));
    }
    derive_address(&seeds, program)
}

/// Derives the address of the voter record of an identity.
pub fn derive_voter(identity: &Address, program: &Address) -> (found: Option<(Address, u8)>)
    ensures
        found == derived(voter_seeds(*identity), *program),
{
    let mut seeds: Vec<Vec<u8>> = Vec::new();
    seeds.push(slice_to_vec(VOTER_TAG.as_bytes()));
    seeds.push(slice_to_vec(identity.bytes.as_slice()));
    proof {
        assert(seed_views(seeds@) =~= voter_seeds(*identity));
    }
    derive_address(&seeds, program)
}

/// Derives the address of the record of the proposal with the given id.
pub fn derive_proposal(proposal_id: u8, program: &Address) -> (found: Option<(Address, u8)>)
    ensures
        found == derived(proposal_seeds(proposal_id), *program),
{
    let mut seeds: Vec<Vec<u8>> = Vec::new();
    seeds.push(slice_to_vec(PROPOSAL_TAG.as_bytes()));
    let mut id_seed: Vec<u8> = Vec::new();
    id_seed.push(proposal_id);
    seeds.push(id_seed);
    proof {
        assert(seeds@[1]@ =~= seq![proposal_id]);
        assert(seed_views(seeds@) =~= proposal_seeds(proposal_id));
    }
    derive_address(&seeds, program)
}

} // verus!
