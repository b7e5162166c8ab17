//! What the host runtime hands to the program and computes for it: account views, the rent
//! sysvar and derived program addresses.

use crate::identity::{identity_ext, Identity};
use solana_program::account_info::AccountInfo;
use solana_program::program_error::ProgramError;
use solana_program::pubkey::Pubkey;
use solana_program::rent::Rent;
use solana_program::sysvar::Sysvar;
use vstd::prelude::*;

verus! {

/// The rent configuration of the network. Its values are carried through unread.
#[verifier::external_type_specification]
#[verifier::external_body]
pub struct ExRent(Rent);

/// An account as the host hands it to the program, by value.
#[derive(Clone, Debug, PartialEq, Eq)]
pub struct AccountView {
    /// Address of the account.
    pub key: Identity,
    /// Whether the transaction was signed with the account's key.
    pub is_signer: bool,
    /// Whether the instruction may change the account.
    pub is_writable: bool,
    /// Lamports in the account.
    pub lamports: u64,
    /// What the account holds.
    pub data: Vec<u8>,
    /// Program that owns the account.
    pub owner: Identity,
    /// Whether the account holds a program.
    pub executable: bool,
    /// Epoch at which the account next owes rent.
    pub rent_epoch: u64,
}

/// Address of the rent sysvar, `SysvarRent111111111111111111111111111111111`.
pub const RENT_SYSVAR_ID: [u8; 32] = [
    6, 167, 213, 23, 25, 44, 92, 81, 33, 140, 201, 76, 61, 74, 241, 127, 88, 218, 238, 8, 155, 161,
    253, 68, 227, 219, 217, 138, 0, 0, 0, 0,
];

/// What `solana_program::sysvar::Sysvar::from_account_info` returns for `Rent` on an account
/// with this address and this data.
pub uninterp spec fn sysvar_rent(key: Seq<u8>, data: Seq<u8>) -> Result<Rent, ProgramError>;

/// What `solana_program::pubkey::Pubkey::create_program_address` derives from these seeds for
/// this program: `None` where it reports an error.
pub uninterp spec fn program_address(seeds: Seq<Seq<u8>>, program_id: Seq<u8>) -> Option<Identity>;

/// Calls `solana_program::sysvar::rent::id`. The id is the constant that the crate declares
/// for the rent sysvar, given here by its bytes.
#[verifier::external_body]
pub(crate) fn rent_sysvar_id() -> (id: Identity)
    ensures
        id@ == RENT_SYSVAR_ID@,
{
    Identity { bytes: solana_program::sysvar::rent::id().to_bytes() }
}

/// Calls `Rent::from_account_info` (`solana_program::sysvar::Sysvar`) on the account that the
/// view describes. The result is a function of the address and the data alone.
#[verifier::external_body]
pub(crate) fn rent_from_account(acc: &AccountView) -> (r: Result<Rent, ProgramError>)
    ensures
        r == sysvar_rent(acc.key@, acc.data@),
{
    let (key, owner) = (Pubkey::new_from_array(acc.key.bytes), Pubkey::new_from_array(acc.owner.bytes));
    let (mut lamports, mut data) = (acc.lamports, acc.data.clone());
    let (signer, writable, executable) = (acc.is_signer, acc.is_writable, acc.executable);
    let info = AccountInfo::new(
        &key,
        signer,
        writable,
        &mut lamports,
        &mut data,
        &owner,
        executable,
        acc.rent_epoch,
    );
    Rent::from_account_info(&info)
}

/// Calls `Pubkey::create_program_address` with the seeds and the program id, and hands back
/// the derived address, or `None` for any error.
#[verifier::external_body]
pub(crate) fn create_program_address(seeds: &Vec<Vec<u8>>, program_id: &Identity) -> (r: Option<
    Identity,
>)
    ensures
        r == program_address(seeds.deep_view(), program_id@),
{
    let seeds: Vec<&[u8]> = seeds.iter().map(|s| s.as_slice()).collect();
    let program_id = Pubkey::new_from_array(program_id.bytes);
    Pubkey::create_program_address(&seeds, &program_id).ok().map(|k| Identity { bytes: k.to_bytes() })
}

/// Whether the identity is the rent sysvar's.
pub open spec fn spec_is_rent_sysvar(id: Identity) -> bool {
    id@ == RENT_SYSVAR_ID@
}

/// Whether the identity is the rent sysvar's.
pub fn is_rent_sysvar(id: &Identity) -> (r: bool)
    ensures
        r == spec_is_rent_sysvar(*id),
{
    let sysvar = rent_sysvar_id();
    proof {
        identity_ext(*id, sysvar);
    }
    *id == sysvar
}

} // verus!
