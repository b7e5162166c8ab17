//! Errors of the fund program, and the classes they fall into.

use solana_program::program_error::ProgramError;
use vstd::prelude::*;

verus! {

/// The host runtime's error type. Its values are carried through unread.
#[verifier::external_type_specification]
#[verifier::external_body]
pub struct ExProgramError(ProgramError);

/// The specific reason a check of this program failed.
#[derive(Clone, Copy, Debug, PartialEq, Eq, Structural)]
pub enum FundErrorCode {
    /// The account list is shorter than the instruction needs.
    NotEnoughAccountKeys,
    /// The account data is not an encoded fund record.
    InvalidAccountData,
    /// The account is not owned by the expected program.
    InvalidAccountOwner,
    /// The fund account is not owned by this program.
    InvalidAccount,
    /// The record has not been initialized.
    NotInitialized,
    /// The mint has not been initialized.
    UnitializedTokenMint,
    /// A required signature is missing, or the requester is not the fund owner.
    Unauthorized,
    /// The fund no longer accepts deposits.
    FundClosed,
    /// A deposit would take the balance over the fund's cap.
    FundBalanceOverflow,
    /// A withdrawal asks for more than the positive balance holds.
    FundBalanceUnderflow,
    /// The whitelist account is not the one the fund names, or is malformed.
    InvalidWhitelist,
    /// The identity is not a member of the whitelist.
    WhitelistEntryNotFound,
    /// The mint account does not match.
    InvalidMint,
    /// The token account belongs to another mint than the fund's NFT mint.
    InvalidTokenAccountMint,
    /// The account is not the rent sysvar.
    InvalidRentSysvar,
    /// The vault or its authority does not match the derived authority.
    InvalidVault,
    /// No vault authority can be derived with the fund's nonce.
    InvalidVaultNonce,
}

/// What went wrong while handling an instruction.
#[derive(Debug, PartialEq)]
pub enum FundError {
    /// An error reported by the host runtime or the custody system.
    ProgramError(ProgramError),
    /// A check of this program failed.
    ErrorCode(FundErrorCode),
}

/// The broad classes of failure.
#[derive(Clone, Copy, Debug, PartialEq, Eq, Structural)]
pub enum ErrorClass {
    /// An account is owned by the wrong program, or is not the well-known account asked for.
    AccountOwnership,
    /// A record has not been initialized yet.
    InitializationState,
    /// A signature is missing, or the requester is not the owner or beneficiary.
    Authorization,
    /// A balance bound would be broken, or the fund is already closed.
    InvariantViolation,
    /// The depositor is absent from the whitelist.
    Membership,
    /// An account is paired with the wrong mint, NFT or whitelist.
    AssetBinding,
    /// The vault or the supplied authority does not match the derived vault authority.
    DerivationMismatch,
    /// The input handed over by the host is malformed, or the host itself reported the error.
    Host,
}

impl FundErrorCode {
    /// The class a code belongs to.
    pub open spec fn spec_class(self) -> ErrorClass {
        match self {
            FundErrorCode::NotEnoughAccountKeys => ErrorClass::Host,
            FundErrorCode::InvalidAccountData => ErrorClass::Host,
            FundErrorCode::InvalidAccountOwner => ErrorClass::AccountOwnership,
            FundErrorCode::InvalidAccount => ErrorClass::AccountOwnership,
            FundErrorCode::InvalidRentSysvar => ErrorClass::AccountOwnership,
            FundErrorCode::NotInitialized => ErrorClass::InitializationState,
            FundErrorCode::UnitializedTokenMint => ErrorClass::InitializationState,
            FundErrorCode::Unauthorized => ErrorClass::Authorization,
            FundErrorCode::FundClosed => ErrorClass::InvariantViolation,
            FundErrorCode::FundBalanceOverflow => ErrorClass::InvariantViolation,
            FundErrorCode::FundBalanceUnderflow => ErrorClass::InvariantViolation,
            FundErrorCode::WhitelistEntryNotFound => ErrorClass::Membership,
            FundErrorCode::InvalidWhitelist => ErrorClass::AssetBinding,
            FundErrorCode::InvalidMint => ErrorClass::AssetBinding,
            FundErrorCode::InvalidTokenAccountMint => ErrorClass::AssetBinding,
            FundErrorCode::InvalidVault => ErrorClass::DerivationMismatch,
            FundErrorCode::InvalidVaultNonce => ErrorClass::DerivationMismatch,
        }
    }

    /// The class a code belongs to.
    pub fn class(&self) -> (c: ErrorClass)
        ensures
            c == self.spec_class(),
    {
        match self {
            FundErrorCode::NotEnoughAccountKeys | FundErrorCode::InvalidAccountData => ErrorClass::Host,
            FundErrorCode::InvalidAccountOwner
            | FundErrorCode::InvalidAccount
            | FundErrorCode::InvalidRentSysvar => ErrorClass::AccountOwnership,
            FundErrorCode::NotInitialized | FundErrorCode::UnitializedTokenMint => {
                ErrorClass::InitializationState
            },
            FundErrorCode::Unauthorized => ErrorClass::Authorization,
            FundErrorCode::FundClosed
            | FundErrorCode::FundBalanceOverflow
            | FundErrorCode::FundBalanceUnderflow => ErrorClass::InvariantViolation,
            FundErrorCode::WhitelistEntryNotFound => ErrorClass::Membership,
            FundErrorCode::InvalidWhitelist
            | FundErrorCode::InvalidMint
            | FundErrorCode::InvalidTokenAccountMint => ErrorClass::AssetBinding,
            FundErrorCode::InvalidVault | FundErrorCode::InvalidVaultNonce => {
                ErrorClass::DerivationMismatch
            },
        }
    }
}

impl From<FundErrorCode> for FundError {
    fn from(code: FundErrorCode) -> (e: FundError) {
        FundError::ErrorCode(code)
    }
}

impl vstd::std_specs::convert::FromSpecImpl<FundErrorCode> for FundError {
    open spec fn obeys_from_spec() -> bool {
        true
    }

    open spec fn from_spec(code: FundErrorCode) -> FundError {
        FundError::ErrorCode(code)
    }
}

impl From<ProgramError> for FundError {
    fn from(error: ProgramError) -> (e: FundError) {
        FundError::ProgramError(error)
    }
}

impl vstd::std_specs::convert::FromSpecImpl<ProgramError> for FundError {
    open spec fn obeys_from_spec() -> bool {
        true
    }

    open spec fn from_spec(error: ProgramError) -> FundError {
        FundError::ProgramError(error)
    }
}

impl FundError {
    /// The class an error belongs to: that of its code, or `Host` for a host error.
    pub open spec fn spec_class(self) -> ErrorClass {
        match self {
            FundError::ProgramError(_) => ErrorClass::Host,
            FundError::ErrorCode(code) => code.spec_class(),
        }
    }

    /// The class an error belongs to.
    pub fn class(&self) -> (c: ErrorClass)
        ensures
            c == self.spec_class(),
    {
        match self {
            FundError::ProgramError(_) => ErrorClass::Host,
            FundError::ErrorCode(code) => code.class(),
        }
    }

    /// The code of a failed check, if the error is one.
    pub fn code(&self) -> (c: Option<FundErrorCode>)
        ensures
            c == match *self {
                FundError::ProgramError(_) => None,
                FundError::ErrorCode(code) => Some(code),
            },
    {
        match self {
            FundError::ProgramError(_) => None,
            FundError::ErrorCode(code) => Some(*code),
        }
    }
}

/// Passes a host result on, with a host error wrapped as this program's error.
pub fn from_host<T>(r: Result<T, ProgramError>) -> (out: Result<T, FundError>)
    ensures
        out == spec_from_host(r),
{
    match r {
        Ok(v) => Ok(v),
        Err(e) => Err(FundError::ProgramError(e)),
    }
}

/// A host result with its error wrapped as this program's error.
pub open spec fn spec_from_host<T>(r: Result<T, ProgramError>) -> Result<T, FundError> {
    match r {
        Ok(v) => Ok(v),
        Err(e) => Err(FundError::ProgramError(e)),
    }
}

/// The failure of a check with the given code.
pub open spec fn fail<T>(code: FundErrorCode) -> Result<T, FundError> {
    Err(FundError::ErrorCode(code))
}

} // verus!
