use vstd::prelude::*;
use crate::address::Address;

verus! {

/// The most seeds that a derivation takes.
pub const MAX_SEEDS: usize = 16;

/// The most bytes that one seed may have.
pub const MAX_SEED_LEN: usize = 32;

/// The address that the host's derivation gives for a list of seeds under a
/// program, or `None` where it gives none. The derivation hashes its inputs;
/// nothing more is said of it here than that it is a function of them.
pub uninterp spec fn program_address(seeds: Seq<Seq<u8>>, program: Seq<u8>) -> Option<Seq<u8>>;

/// There are no more seeds than a derivation takes, and none is too long.
pub open spec fn seeds_within_limits(seeds: Seq<Seq<u8>>) -> bool {
    &&& seeds.len() <= MAX_SEEDS
    &&& forall|i: int| 0 <= i < seeds.len() ==> (#[trigger] seeds[i]).len() <= MAX_SEED_LEN
}

/// Calls `solana_program::pubkey::Pubkey::create_program_address`.
///
/// Trusted: the call's outcome is `program_address` of the seeds and the
/// program's bytes, with every error of the call read as `None`; and the
/// call gives no address for more than sixteen seeds or for a seed of more
/// than thirty-two bytes.
#[verifier::external_body]
fn create_program_address(seeds: &Vec<Vec<u8>>, program_id: &Address) -> (derived: Option<Address>)
    ensures
        match derived {
            Some(address) => program_address(seeds.deep_view(), program_id@) == Some(address@),
            None => program_address(seeds.deep_view(), program_id@) is None,
        },
        !seeds_within_limits(seeds.deep_view()) ==> derived is None,
{
    let program = solana_program::pubkey::Pubkey::new_from_array(program_id.bytes);
    let slices: Vec<&[u8]> = seeds.iter().map(|seed| seed.as_slice()).collect();
    match solana_program::pubkey::Pubkey::create_program_address(&slices, &program) {
        Ok(key) => Some(Address::new(key.to_bytes())),
        Err(_) => None,
    }
}

/// The bytes of an optional address.
pub open spec fn address_bytes(address: Option<Address>) -> Option<Seq<u8>> {
    match address {
        Some(a) => Some(a@),
        None => None,
    }
}

/// The first seed of every balance record: the ASCII text `balance_account`.
pub open spec fn seed_prefix() -> Seq<u8> {
    seq![98u8, 97u8, 108u8, 97u8, 110u8, 99u8, 101u8, 95u8, 97u8, 99u8, 99u8, 111u8, 117u8, 110u8, 116u8]
}

/// The seeds of a user's balance record: the prefix, the user's identity and
/// the one-byte bump.
pub open spec fn balance_account_seeds(user: Address, bump: u8) -> Seq<Seq<u8>> {
    seq![seed_prefix(), user@, seq![bump]]
}

/// The address of a user's balance record under `program_id`, where the
/// derivation gives one for this bump.
pub open spec fn spec_balance_account_address(user: Address, bump: u8, program_id: Address) -> Option<
    Seq<u8>,
> {
    program_address(balance_account_seeds(user, bump), program_id@)
}

/// Derives the address that belongs to `seeds` under `program_id`. Seeds
/// beyond the limits have no address.
pub fn derive_address(seeds: &Vec<Vec<u8>>, program_id: &Address) -> (derived: Option<Address>)
    ensures
        address_bytes(derived) == program_address(seeds.deep_view(), program_id@),
        !seeds_within_limits(seeds.deep_view()) ==> derived is None,
{
    create_program_address(seeds, program_id)
}

/// Builds the seeds of a user's balance record.
pub fn signer_seeds(user: &Address, bump: u8) -> (seeds: Vec<Vec<u8>>)
    ensures
        seeds.deep_view() == balance_account_seeds(*user, bump),
{
    let prefix: Vec<u8> = vec![
        98u8, 97u8, 108u8, 97u8, 110u8, 99u8, 101u8, 95u8, 97u8, 99u8, 99u8, 111u8, 117u8, 110u8, 116u8,
    ];
    let identity: Vec<u8> = user.to_vec();
    let last: Vec<u8> = vec![bump];
    assert(prefix@ =~= seed_prefix());
    assert(last@ =~= seq![bump]);
    let seeds: Vec<Vec<u8>> = vec![prefix, identity, last];
    proof {
        assert(seeds@[0].deep_view() =~= seed_prefix());
        assert(seeds@[1].deep_view() =~= user@);
        assert(seeds@[2].deep_view() =~= seq![bump]);
        assert(seeds.deep_view() =~= balance_account_seeds(*user, bump));
    }
    seeds
}

/// Derives the address of a user's balance record.
pub fn balance_account_address(user: &Address, bump: u8, program_id: &Address) -> (derived: Option<
    Address,
>)
    ensures
        address_bytes(derived) == spec_balance_account_address(*user, bump, *program_id),
{
    let seeds = signer_seeds(user, bump);
    derive_address(&seeds, program_id)
}

/// Derivation is deterministic: two derivations from the same seeds under
/// the same program give the same address, or both give none.
pub proof fn lemma_derive_deterministic(
    first: Option<Address>,
    second: Option<Address>,
    first_seeds: Seq<Seq<u8>>,
    second_seeds: Seq<Seq<u8>>,
    first_program: Address,
    second_program: Address,
)
    requires
        first_seeds == second_seeds,
        first_program == second_program,
        address_bytes(first) == program_address(first_seeds, first_program@),
        address_bytes(second) == program_address(second_seeds, second_program@),
    ensures
        first == second,
{
    if let (Some(a), Some(b)) = (first, second) {
        Address::lemma_view_injective(a, b);
    }
}

} // verus!
