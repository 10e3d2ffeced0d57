use crate::address::{optional_view, Address};
use solana_program::pubkey::Pubkey;
use vstd::prelude::*;

verus! {

/// The address that belongs to a program under a list of seeds, with the
/// bump that was added to the seeds to find it; nothing where the seeds
/// lead to no such address.
pub uninterp spec fn program_address(seeds: Seq<Seq<u8>>, program_id: Seq<u8>) -> Option<
    (Seq<u8>, u8),
>;

/// The view of a derived address, which may be absent, with its bump.
pub open spec fn derived_view(derived: Option<(Address, u8)>) -> Option<(Seq<u8>, u8)> {
    match derived {
        Some((address, bump)) => Some((address@, bump)),
        None => None,
    }
}

/// The bump of a derived address; zero where there is no address.
pub open spec fn bump_of(derived: Option<(Seq<u8>, u8)>) -> u8 {
    match derived {
        Some((_, bump)) => bump,
        None => 0,
    }
}

/// `solana_program::pubkey::Pubkey::try_find_program_address` hashes the
/// seeds, a bump and the program's id, trying the bumps from 255 down
/// until the hash is a valid program address. It reads nothing but its
/// arguments, so what it finds has a name. It gives nothing, and does not
/// stop the program, where no bump fits or a seed is too long.
#[verifier::external_body]
pub(crate) fn find_program_address(seeds: &Vec<Vec<u8>>, program_id: &Address) -> (found: Option<
    (Address, u8),
>)
    ensures
        derived_view(found) == program_address(seeds.deep_view(), program_id@),
{
    let seeds: Vec<&[u8]> = seeds.iter().map(|seed| seed.as_slice()).collect();
    let program = Pubkey::new_from_array(program_id.bytes);
    match Pubkey::try_find_program_address(&seeds, &program) {
        Some((key, bump)) => Some((Address { bytes: key.to_bytes() }, bump)),
        None => None,
    }
}

/// The identifier of the program that keeps associated token accounts.
pub open spec fn associated_program_id() -> Seq<u8> {
    seq![
        140u8, 151, 37, 143, 78, 36, 137, 241, 187, 61, 16, 41, 20, 142, 13, 131, 11, 90, 19, 153,
        218, 255, 16, 132, 4, 142, 123, 216, 219, 233, 248, 89,
    ]
}

/// `spl_associated_token_account::id` gives the identifier under which the
/// associated token account program is deployed, a constant of that crate.
#[verifier::external_body]
pub(crate) fn associated_program() -> (id: Address)
    ensures
        id@ == associated_program_id(),
{
    Address { bytes: spl_associated_token_account::id().to_bytes() }
}

/// The seed under which the registry's storage slot is derived.
pub open spec fn state_seed() -> Seq<u8> {
    seq![115u8, 116, 97, 116, 101]
}

/// The address of the registry's storage slot under a deployment of the
/// marketplace, with its bump.
pub open spec fn state_slot(program_id: Seq<u8>) -> Option<(Seq<u8>, u8)> {
    program_address(seq![state_seed()], program_id)
}

/// Derives the address at which a deployment keeps its registry.
pub fn find_state_slot(program_id: &Address) -> (found: Option<(Address, u8)>)
    ensures
        derived_view(found) == state_slot(program_id@),
{
    let mut seed: Vec<u8> = Vec::new();
    seed.push(115);
    seed.push(116);
    seed.push(97);
    seed.push(116);
    seed.push(101);
    let mut seeds: Vec<Vec<u8>> = Vec::new();
    seeds.push(seed);
    assert(seeds.deep_view() =~= seq![state_seed()]) by {
        assert(seeds.deep_view().len() == 1);
        assert(seeds.deep_view()[0] =~= state_seed());
    }
    find_program_address(&seeds, program_id)
}

/// The account in which a wallet's asset is held under a token program:
/// the address of the associated token account program under the wallet,
/// the token program and the asset, in this order.
pub open spec fn custody_address(wallet: Seq<u8>, token_program: Seq<u8>, asset: Seq<u8>) -> Option<
    Seq<u8>,
> {
    match program_address(seq![wallet, token_program, asset], associated_program_id()) {
        Some((address, _)) => Some(address),
        None => None,
    }
}

/// The bytes of an address as a vector.
fn bytes_of(address: &Address) -> (bytes: Vec<u8>)
    ensures
        bytes@ == address@,
{
    let mut bytes: Vec<u8> = Vec::new();
    let mut i: usize = 0;
    while i < 32
        invariant
            i <= 32,
            bytes@ == address@.take(i as int),
        decreases 32 - i,
    {
        bytes.push(address.bytes[i]);
        i += 1;
        assert(bytes@ =~= address@.take(i as int));
    }
    assert(address@.take(32) =~= address@);
    bytes
}

/// Derives the account in which a wallet's asset is held.
pub fn find_custody(wallet: &Address, token_program: &Address, asset: &Address) -> (found: Option<
    Address,
>)
    ensures
        optional_view(found) == custody_address(wallet@, token_program@, asset@),
{
    let mut seeds: Vec<Vec<u8>> = Vec::new();
    seeds.push(bytes_of(wallet));
    seeds.push(bytes_of(token_program));
    seeds.push(bytes_of(asset));
    assert(seeds.deep_view() =~= seq![wallet@, token_program@, asset@]) by {
        assert(seeds.deep_view().len() == 3);
        assert(seeds.deep_view()[0] =~= wallet@);
        assert(seeds.deep_view()[1] =~= token_program@);
        assert(seeds.deep_view()[2] =~= asset@);
    }
    let program = associated_program();
    match find_program_address(&seeds, &program) {
        Some((address, _)) => Some(address),
        None => None,
    }
}

} // verus!
