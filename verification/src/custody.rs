//! The custody system: token accounts, mints and the transfer instruction.

use crate::identity::{identity_ext, Identity};
use solana_program::program_error::ProgramError;
use solana_program::program_pack::Pack;
use solana_program::pubkey::Pubkey;
use vstd::bytes::spec_u64_to_le_bytes;
use vstd::prelude::*;

verus! {

/// Address of the custody program, `TokenkegQfeZyiNwAJbNbGKPFXCWuBvf9Ss623VQ5DA`.
pub const TOKEN_PROGRAM_ID: [u8; 32] = [
    6, 221, 246, 225, 215, 101, 161, 147, 217, 203, 225, 70, 206, 235, 121, 172, 28, 180, 133, 237,
    95, 91, 55, 145, 58, 140, 245, 133, 126, 255, 0, 169,
];

/// State of a token account.
#[derive(Clone, Copy, Debug, PartialEq, Eq, Structural)]
pub enum AccountState {
    /// Not yet initialized.
    Uninitialized,
    /// Initialized: its owner may use it.
    Initialized,
    /// Frozen by the mint's freeze authority.
    Frozen,
}

/// What the checks read of a token account.
#[derive(Clone, Copy, Debug, PartialEq, Eq)]
pub struct TokenAccount {
    /// Mint of the tokens held.
    pub mint: Identity,
    /// Who controls the account.
    pub owner: Identity,
    /// Tokens held.
    pub amount: u64,
    /// State of the account.
    pub state: AccountState,
}

/// What the checks read of a mint.
#[derive(Clone, Copy, Debug, PartialEq, Eq)]
pub struct Mint {
    /// Tokens in existence.
    pub supply: u64,
    /// Digits to the right of the decimal point.
    pub decimals: u8,
    /// Whether the mint has been initialized.
    pub is_initialized: bool,
}

/// An account named by an instruction.
#[derive(Clone, Copy, Debug, PartialEq, Eq)]
pub struct AccountMeta {
    /// Address of the account.
    pub pubkey: Identity,
    /// Whether the instruction needs the account's signature.
    pub is_signer: bool,
    /// Whether the instruction may change the account.
    pub is_writable: bool,
}

/// An instruction for another program.
#[derive(Debug, PartialEq, Eq)]
pub struct Instruction {
    /// Program that executes the instruction.
    pub program_id: Identity,
    /// Accounts handed to the program, in order.
    pub accounts: Vec<AccountMeta>,
    /// Payload for the program.
    pub data: Vec<u8>,
}

/// An instruction with its lists as sequences.
pub struct InstructionView {
    /// Program that executes the instruction.
    pub program_id: Identity,
    /// Accounts handed to the program, in order.
    pub accounts: Seq<AccountMeta>,
    /// Payload for the program.
    pub data: Seq<u8>,
}

impl View for Instruction {
    type V = InstructionView;

    open spec fn view(&self) -> InstructionView {
        InstructionView { program_id: self.program_id, accounts: self.accounts@, data: self.data@ }
    }
}

/// What `spl_token::state::Account::unpack` returns for the data, with the account reduced to
/// its mint, owner, amount and state.
pub uninterp spec fn spl_account(data: Seq<u8>) -> Result<TokenAccount, ProgramError>;

/// What `spl_token::state::Mint::unpack` returns for the data, with the mint reduced to its
/// supply, decimals and initialized flag.
pub uninterp spec fn spl_mint(data: Seq<u8>) -> Result<Mint, ProgramError>;

/// The instruction that moves `amount` tokens from `source` to `destination` on the word of a
/// single `authority`: both accounts writable, the authority the only signer, and as payload
/// the tag 3 followed by the amount, least significant byte first.
pub open spec fn spec_transfer(
    token_program_id: Identity,
    source: Identity,
    destination: Identity,
    authority: Identity,
    amount: u64,
) -> InstructionView {
    InstructionView {
        program_id: token_program_id,
        accounts: seq![
            AccountMeta { pubkey: source, is_signer: false, is_writable: true },
            AccountMeta { pubkey: destination, is_signer: false, is_writable: true },
            AccountMeta { pubkey: authority, is_signer: true, is_writable: false },
        ],
        data: seq![3u8] + spec_u64_to_le_bytes(amount),
    }
}

/// Reads `spl_token::ID`, the id that the crate declares for the token program, given here
/// by its bytes.
#[verifier::external_body]
pub(crate) fn token_program_id() -> (id: Identity)
    ensures
        id@ == TOKEN_PROGRAM_ID@,
{
    Identity { bytes: spl_token::ID.to_bytes() }
}

/// Calls `spl_token::state::Account::unpack` (`solana_program::program_pack::Pack`) on the
/// data and copies the mint, owner, amount and state out of the account.
#[verifier::external_body]
pub(crate) fn unpack_account(data: &[u8]) -> (r: Result<TokenAccount, ProgramError>)
    ensures
        r == spl_account(data@),
{
    let a = spl_token::state::Account::unpack(data)?;
    Ok(TokenAccount {
        mint: Identity { bytes: a.mint.to_bytes() },
        owner: Identity { bytes: a.owner.to_bytes() },
        amount: a.amount,
        state: match a.state {
            spl_token::state::AccountState::Uninitialized => AccountState::Uninitialized,
            spl_token::state::AccountState::Initialized => AccountState::Initialized,
            spl_token::state::AccountState::Frozen => AccountState::Frozen,
        },
    })
}

/// Calls `spl_token::state::Mint::unpack` (`solana_program::program_pack::Pack`) on the data
/// and copies the supply, decimals and initialized flag out of the mint.
#[verifier::external_body]
pub(crate) fn unpack_mint(data: &[u8]) -> (r: Result<Mint, ProgramError>)
    ensures
        r == spl_mint(data@),
{
    let m = spl_token::state::Mint::unpack(data)?;
    Ok(Mint { supply: m.supply, decimals: m.decimals, is_initialized: m.is_initialized })
}

/// Calls `spl_token::instruction::transfer` with no multisignature signers. It succeeds
/// exactly for the token program's own id, and builds the instruction described by
/// `spec_transfer`.
#[verifier::external_body]
pub(crate) fn transfer(
    token_program_id: &Identity,
    source: &Identity,
    destination: &Identity,
    authority: &Identity,
    amount: u64,
) -> (r: Result<Instruction, ProgramError>)
    ensures
        r is Ok <==> token_program_id@ == TOKEN_PROGRAM_ID@,
        r matches Ok(ix) ==> ix@ == spec_transfer(
            *token_program_id,
            *source,
            *destination,
            *authority,
            amount,
        ),
{
    let key = |id: &Identity| Pubkey::new_from_array(id.bytes);
    let (program, from, to) = (key(token_program_id), key(source), key(destination));
    let ix = spl_token::instruction::transfer(&program, &from, &to, &key(authority), &[], amount)?;
    let meta = |m: &solana_program::instruction::AccountMeta| AccountMeta {
        pubkey: Identity { bytes: m.pubkey.to_bytes() },
        is_signer: m.is_signer,
        is_writable: m.is_writable,
    };
    let program_id = Identity { bytes: ix.program_id.to_bytes() };
    Ok(Instruction { program_id, accounts: ix.accounts.iter().map(meta).collect(), data: ix.data })
}

/// Whether the identity is the custody program's.
pub open spec fn spec_is_token_program(id: Identity) -> bool {
    id@ == TOKEN_PROGRAM_ID@
}

/// The custody program's identity.
pub open spec fn spec_id() -> Identity {
    Identity { bytes: TOKEN_PROGRAM_ID }
}

/// The custody program's identity.
pub fn id() -> (id: Identity)
    ensures
        id == spec_id(),
        spec_is_token_program(id),
{
    let id = token_program_id();
    proof {
        identity_ext(id, spec_id());
    }
    id
}

/// Whether the identity is the custody program's.
pub fn is_token_program(id: &Identity) -> (r: bool)
    ensures
        r == spec_is_token_program(*id),
{
    let program = token_program_id();
    proof {
        identity_ext(*id, program);
    }
    *id == program
}

} // verus!
