//! The vault and the derived authority that signs for it.

use crate::host::{create_program_address, program_address};
use crate::identity::Identity;
use crate::pack::append_identity;
use vstd::prelude::*;

verus! {

/// The custody account of a fund. No key signs for it: its authority is an address derived
/// from the fund's address and nonce, which only this program can sign as.
pub struct TokenVault;

impl TokenVault {
    /// The seeds of a fund's vault authority: the fund's address, then its nonce.
    pub open spec fn spec_signer_seeds(fund_addr: Identity, nonce: u8) -> Seq<Seq<u8>> {
        seq![fund_addr@, seq![nonce]]
    }

    /// The seeds of a fund's vault authority: the fund's address, then its nonce.
    pub fn signer_seeds(fund_addr: &Identity, nonce: &u8) -> (seeds: Vec<Vec<u8>>)
        ensures
            seeds.deep_view() == Self::spec_signer_seeds(*fund_addr, *nonce),
    {
        let mut addr: Vec<u8> = Vec::new();
        append_identity(&mut addr, fund_addr);
        let mut bump: Vec<u8> = Vec::new();
        bump.push(*nonce);
        let mut seeds: Vec<Vec<u8>> = Vec::new();
        seeds.push(addr);
        seeds.push(bump);
        proof {
            assert(seeds@[0]@ =~= fund_addr@);
            assert(seeds@[1]@ =~= seq![*nonce]);
            assert(seeds.deep_view() =~~= Self::spec_signer_seeds(*fund_addr, *nonce));
        }
        seeds
    }
}

/// The vault authority of the fund at `fund_addr` with this nonce, under the program
/// `program_id`; `None` where the nonce derives no address.
pub open spec fn spec_vault_authority(
    fund_addr: Identity,
    nonce: u8,
    program_id: Identity,
) -> Option<Identity> {
    program_address(TokenVault::spec_signer_seeds(fund_addr, nonce), program_id@)
}

/// Derives the vault authority of a fund from its address and nonce.
pub fn derive_vault_authority(fund_addr: &Identity, nonce: &u8, program_id: &Identity) -> (r:
    Option<Identity>)
    ensures
        r == spec_vault_authority(*fund_addr, *nonce, *program_id),
{
    let seeds = TokenVault::signer_seeds(fund_addr, nonce);
    create_program_address(&seeds, program_id)
}

/// The derived authority depends on nothing but the bytes of the fund's address, the nonce
/// and the bytes of the program's id: the same inputs always derive the same authority.
pub proof fn vault_authority_is_a_function_of_its_inputs(
    fund_addr: Identity,
    nonce: u8,
    program_id: Identity,
    other_fund_addr: Identity,
    other_nonce: u8,
    other_program_id: Identity,
)
    requires
        fund_addr@ == other_fund_addr@,
        nonce == other_nonce,
        program_id@ == other_program_id@,
    ensures
        spec_vault_authority(fund_addr, nonce, program_id) == spec_vault_authority(
            other_fund_addr,
            other_nonce,
            other_program_id,
        ),
{
}

} // verus!
